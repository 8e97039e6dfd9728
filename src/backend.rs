use vstd::prelude::*;

verus! {

/// The backends that a build can include, highest priority first; `Unselected`
/// stands for the inert placeholder used when no backend is included.
#[derive(Clone, Copy, Debug, PartialEq, Eq, Structural)]
pub enum BackendKind {
    AsyncStd,
    Tokio,
    Actix,
    Blocking,
    Unselected,
}

/// Rank in the default-selection order: a smaller rank wins.
pub open spec fn rank(k: BackendKind) -> nat {
    match k {
        BackendKind::AsyncStd => 0,
        BackendKind::Tokio => 1,
        BackendKind::Actix => 2,
        BackendKind::Blocking => 3,
        BackendKind::Unselected => 4,
    }
}

/// The inclusion switches of one build: one per backend.
#[derive(Clone, Copy, Debug, PartialEq, Eq, Structural)]
pub struct Selection {
    pub async_std: bool,
    pub tokio: bool,
    pub actix: bool,
    pub blocking: bool,
}

/// Whether backend `k` is part of the build described by `s`.
/// The placeholder is never included: it is what stands when nothing is.
pub open spec fn included(s: Selection, k: BackendKind) -> bool {
    match k {
        BackendKind::AsyncStd => s.async_std,
        BackendKind::Tokio => s.tokio,
        BackendKind::Actix => s.actix,
        BackendKind::Blocking => s.blocking,
        BackendKind::Unselected => false,
    }
}

/// The default backend of a build: the included backend of least rank, or the
/// placeholder when none is included.
pub open spec fn default_of(s: Selection) -> BackendKind {
    if s.async_std {
        BackendKind::AsyncStd
    } else if s.tokio {
        BackendKind::Tokio
    } else if s.actix {
        BackendKind::Actix
    } else if s.blocking {
        BackendKind::Blocking
    } else {
        BackendKind::Unselected
    }
}

/// Whether a backend offers suspending (asynchronous) connection establishment.
pub open spec fn supports_async(k: BackendKind) -> bool {
    match k {
        BackendKind::AsyncStd | BackendKind::Tokio | BackendKind::Actix => true,
        _ => false,
    }
}

/// Whether a backend offers direct (blocking) connection establishment.
pub open spec fn supports_blocking(k: BackendKind) -> bool {
    match k {
        BackendKind::AsyncStd | BackendKind::Blocking => true,
        _ => false,
    }
}

impl Selection {
    /// The build with no backend included.
    pub fn none() -> (r: Selection)
        ensures
            forall|k: BackendKind| !included(r, k),
    {
        Selection { async_std: false, tokio: false, actix: false, blocking: false }
    }

    /// Whether backend `k` is included in this build.
    pub fn includes(&self, k: BackendKind) -> (r: bool)
        ensures
            r == included(*self, k),
    {
        match k {
            BackendKind::AsyncStd => self.async_std,
            BackendKind::Tokio => self.tokio,
            BackendKind::Actix => self.actix,
            BackendKind::Blocking => self.blocking,
            BackendKind::Unselected => false,
        }
    }

    /// This build with backend `k` included as well; including the placeholder
    /// changes nothing.
    pub fn with(self, k: BackendKind) -> (r: Selection)
        ensures
            forall|j: BackendKind| included(r, j) == (included(self, j) || (j == k && j != BackendKind::Unselected)),
    {
        let mut r = self;
        match k {
            BackendKind::AsyncStd => r.async_std = true,
            BackendKind::Tokio => r.tokio = true,
            BackendKind::Actix => r.actix = true,
            BackendKind::Blocking => r.blocking = true,
            BackendKind::Unselected => {},
        }
        r
    }
}

impl BackendKind {
    /// Every backend kind, in priority order, the placeholder last.
    pub fn all() -> (r: Vec<BackendKind>)
        ensures
            r@.len() == 5,
            forall|i: int| 0 <= i < 5 ==> rank(#[trigger] r@[i]) == i,
    {
        vec![
            BackendKind::AsyncStd,
            BackendKind::Tokio,
            BackendKind::Actix,
            BackendKind::Blocking,
            BackendKind::Unselected,
        ]
    }

    /// Whether this backend offers asynchronous connection establishment.
    pub fn is_async(&self) -> (r: bool)
        ensures
            r == supports_async(*self),
    {
        match self {
            BackendKind::AsyncStd | BackendKind::Tokio | BackendKind::Actix => true,
            _ => false,
        }
    }

    /// Whether this backend offers blocking connection establishment.
    pub fn is_blocking(&self) -> (r: bool)
        ensures
            r == supports_blocking(*self),
    {
        match self {
            BackendKind::AsyncStd | BackendKind::Blocking => true,
            _ => false,
        }
    }
}

/// Resolves the default backend of a build by the fixed priority order
/// async-std, Tokio, Actix, blocking, placeholder.
pub fn default_runtime(s: &Selection) -> (r: BackendKind)
    ensures
        r == default_of(*s),
        r == BackendKind::Unselected || included(*s, r),
        forall|k: BackendKind| included(*s, k) ==> rank(r) <= rank(k),
{
    if s.async_std {
        BackendKind::AsyncStd
    } else if s.tokio {
        BackendKind::Tokio
    } else if s.actix {
        BackendKind::Actix
    } else if s.blocking {
        BackendKind::Blocking
    } else {
        BackendKind::Unselected
    }
}

/// The default is the single highest-priority included backend: it is
/// included, and it outranks every other included backend.
pub proof fn lemma_default_is_highest_included(s: Selection)
    ensures
        included(s, default_of(s)) || default_of(s) == BackendKind::Unselected,
        forall|k: BackendKind| included(s, k) && k != default_of(s) ==> rank(default_of(s)) < rank(k),
{
}

/// With no backend included the default is the inert placeholder, and the
/// placeholder offers neither execution style.
pub proof fn lemma_empty_build_resolves_to_placeholder(s: Selection)
    requires
        forall|k: BackendKind| !included(s, k),
    ensures
        default_of(s) == BackendKind::Unselected,
        !supports_async(default_of(s)),
        !supports_blocking(default_of(s)),
{
    assert(!included(s, BackendKind::AsyncStd));
    assert(!included(s, BackendKind::Tokio));
    assert(!included(s, BackendKind::Actix));
    assert(!included(s, BackendKind::Blocking));
}

/// Including one more backend changes the default only when the new backend
/// outranks the current one, and then the new backend becomes the default.
pub proof fn lemma_default_monotone(s: Selection, t: Selection, k: BackendKind)
    requires
        k != BackendKind::Unselected,
        forall|j: BackendKind| included(t, j) == (included(s, j) || j == k),
    ensures
        rank(k) < rank(default_of(s)) ==> default_of(t) == k,
        rank(k) >= rank(default_of(s)) ==> default_of(t) == default_of(s),
{
    assert(included(t, BackendKind::AsyncStd) == (included(s, BackendKind::AsyncStd) || BackendKind::AsyncStd == k));
    assert(included(t, BackendKind::Tokio) == (included(s, BackendKind::Tokio) || BackendKind::Tokio == k));
    assert(included(t, BackendKind::Actix) == (included(s, BackendKind::Actix) || BackendKind::Actix == k));
    assert(included(t, BackendKind::Blocking) == (included(s, BackendKind::Blocking) || BackendKind::Blocking == k));
}

/// The placeholder is chosen exactly when the build includes no backend.
pub proof fn lemma_placeholder_only_when_empty(s: Selection)
    ensures
        (default_of(s) == BackendKind::Unselected) <==> (forall|k: BackendKind| !included(s, k)),
{
    if default_of(s) == BackendKind::Unselected {
        assert forall|k: BackendKind| !included(s, k) by {
            match k {
                BackendKind::AsyncStd => {},
                BackendKind::Tokio => {},
                BackendKind::Actix => {},
                BackendKind::Blocking => {},
                BackendKind::Unselected => {},
            }
        }
    } else {
        assert(included(s, default_of(s)));
    }
}

} // verus!
