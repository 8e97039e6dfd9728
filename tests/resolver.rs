use sqlx_runtime::backend::{default_runtime, BackendKind, Selection};
use sqlx_runtime::runtime::{kind_of, Actix, AsyncStd, Blocking, Tokio};

fn selection(bits: u32) -> Selection {
    Selection {
        async_std: bits & 1 != 0,
        tokio: bits & 2 != 0,
        actix: bits & 4 != 0,
        blocking: bits & 8 != 0,
    }
}

#[test]
fn default_is_highest_priority_for_every_subset() {
    for bits in 0..16u32 {
        let s = selection(bits);
        let expected = if s.async_std {
            BackendKind::AsyncStd
        } else if s.tokio {
            BackendKind::Tokio
        } else if s.actix {
            BackendKind::Actix
        } else if s.blocking {
            BackendKind::Blocking
        } else {
            BackendKind::Unselected
        };
        assert_eq!(default_runtime(&s), expected, "subset {:04b}", bits);
    }
}

#[test]
fn default_with_every_backend_is_async_std() {
    assert_eq!(default_runtime(&selection(15)), BackendKind::AsyncStd);
}

#[test]
fn default_prefers_tokio_over_actix_and_blocking() {
    assert_eq!(default_runtime(&selection(2 | 4 | 8)), BackendKind::Tokio);
}

#[test]
fn default_prefers_actix_over_blocking() {
    assert_eq!(default_runtime(&selection(4 | 8)), BackendKind::Actix);
}

#[test]
fn default_with_async_std_and_actix_is_async_std() {
    assert_eq!(default_runtime(&selection(1 | 4)), BackendKind::AsyncStd);
}

#[test]
fn default_with_blocking_alone_is_blocking() {
    assert_eq!(default_runtime(&selection(8)), BackendKind::Blocking);
}

#[test]
fn empty_build_resolves_to_placeholder() {
    let s = Selection::none();
    assert_eq!(default_runtime(&s), BackendKind::Unselected);
    assert!(!BackendKind::Unselected.is_async());
    assert!(!BackendKind::Unselected.is_blocking());
    for k in BackendKind::all() {
        assert!(!s.includes(k));
    }
}

#[test]
fn adding_a_lower_backend_keeps_the_default() {
    let s = Selection::none().with(BackendKind::Tokio);
    let t = s.with(BackendKind::Blocking);
    assert_eq!(default_runtime(&t), BackendKind::Tokio);
}

#[test]
fn adding_a_higher_backend_takes_over() {
    let s = Selection::none().with(BackendKind::Actix);
    let t = s.with(BackendKind::AsyncStd);
    assert_eq!(default_runtime(&t), BackendKind::AsyncStd);
    assert!(t.includes(BackendKind::Actix));
}

#[test]
fn including_the_placeholder_changes_nothing() {
    let s = Selection::none().with(BackendKind::Unselected);
    assert_eq!(s, Selection::none());
}

#[test]
fn all_kinds_in_priority_order() {
    assert_eq!(
        BackendKind::all(),
        vec![
            BackendKind::AsyncStd,
            BackendKind::Tokio,
            BackendKind::Actix,
            BackendKind::Blocking,
            BackendKind::Unselected,
        ]
    );
}

#[test]
fn execution_styles_of_each_backend() {
    assert!(BackendKind::AsyncStd.is_async() && BackendKind::AsyncStd.is_blocking());
    assert!(BackendKind::Tokio.is_async() && !BackendKind::Tokio.is_blocking());
    assert!(BackendKind::Actix.is_async() && !BackendKind::Actix.is_blocking());
    assert!(!BackendKind::Blocking.is_async() && BackendKind::Blocking.is_blocking());
}

#[test]
fn runtime_types_register_their_backend() {
    assert_eq!(kind_of::<AsyncStd>(), BackendKind::AsyncStd);
    assert_eq!(kind_of::<Tokio>(), BackendKind::Tokio);
    assert_eq!(kind_of::<Actix>(), BackendKind::Actix);
    assert_eq!(kind_of::<Blocking>(), BackendKind::Blocking);
    assert_eq!(kind_of::<()>(), BackendKind::Unselected);
}
