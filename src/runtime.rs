use vstd::prelude::*;

use crate::backend::{supports_async, supports_blocking, BackendKind};

verus! {

/// A concurrency backend, seen at the type level. Generic connection and
/// option types are parameterised by some `Rt: Runtime`; the type holds no
/// data of its own, and `kind` tells which backend it registers.
pub trait Runtime: 'static + Send + Sync + Sized {
    /// Which backend this type registers.
    spec fn spec_kind() -> BackendKind;

    fn kind() -> (r: BackendKind)
        ensures
            r == Self::spec_kind(),
    ;
}

/// Marks a [`Runtime`] as capable of asynchronous execution, so that the
/// asynchronous establishment operations accept it. An implementation must
/// show that its backend offers that style.
pub trait Async: Runtime {
    proof fn lemma_offers_async()
        ensures
            supports_async(Self::spec_kind()),
    ;
}

/// The async-std executor.
#[derive(Clone, Copy, Debug, PartialEq, Eq, Structural)]
pub struct AsyncStd;

/// The Tokio executor.
#[derive(Clone, Copy, Debug, PartialEq, Eq, Structural)]
pub struct Tokio;

/// The Actix system executor.
#[derive(Clone, Copy, Debug, PartialEq, Eq, Structural)]
pub struct Actix;

/// The blocking runtime, built on the standard library alone.
#[derive(Clone, Copy, Debug, PartialEq, Eq, Structural)]
pub struct Blocking;

impl Runtime for AsyncStd {
    open spec fn spec_kind() -> BackendKind {
        BackendKind::AsyncStd
    }

    fn kind() -> (r: BackendKind) {
        BackendKind::AsyncStd
    }
}

impl Runtime for Tokio {
    open spec fn spec_kind() -> BackendKind {
        BackendKind::Tokio
    }

    fn kind() -> (r: BackendKind) {
        BackendKind::Tokio
    }
}

impl Runtime for Actix {
    open spec fn spec_kind() -> BackendKind {
        BackendKind::Actix
    }

    fn kind() -> (r: BackendKind) {
        BackendKind::Actix
    }
}

impl Runtime for Blocking {
    open spec fn spec_kind() -> BackendKind {
        BackendKind::Blocking
    }

    fn kind() -> (r: BackendKind) {
        BackendKind::Blocking
    }
}

/// The inert placeholder: a runtime with neither execution style, so that
/// generic code still compiles when no backend is included, while nothing
/// gated on a style can ever be called with it.
impl Runtime for () {
    open spec fn spec_kind() -> BackendKind {
        BackendKind::Unselected
    }

    fn kind() -> (r: BackendKind) {
        BackendKind::Unselected
    }
}

impl Async for AsyncStd {
    proof fn lemma_offers_async() {
    }
}

impl Async for Tokio {
    proof fn lemma_offers_async() {
    }
}

impl Async for Actix {
    proof fn lemma_offers_async() {
    }
}

impl crate::blocking::Runtime for AsyncStd {
    proof fn lemma_offers_blocking() {
    }
}

impl crate::blocking::Runtime for Blocking {
    proof fn lemma_offers_blocking() {
    }
}

/// Which backend a runtime type registers, read through the generic bound.
pub fn kind_of<Rt: Runtime>() -> (r: BackendKind)
    ensures
        r == Rt::spec_kind(),
{
    Rt::kind()
}

/// Every runtime that accepts the asynchronous operations offers that style
/// by the backend table; the placeholder offers none, so it carries neither
/// marker.
pub proof fn lemma_markers_agree_with_table<A: Async, B: crate::blocking::Runtime>()
    ensures
        supports_async(A::spec_kind()),
        supports_blocking(B::spec_kind()),
        !supports_async(<() as Runtime>::spec_kind()),
        !supports_blocking(<() as Runtime>::spec_kind()),
{
    A::lemma_offers_async();
    B::lemma_offers_blocking();
}

} // verus!
