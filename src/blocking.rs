use vstd::prelude::*;

use crate::backend::supports_blocking;
use crate::options::{parse_result, Error};

verus! {

/// Marks a [`crate::runtime::Runtime`] as capable of blocking execution, so
/// that the blocking establishment operations accept it. An implementation
/// must show that its backend offers that style.
pub trait Runtime: crate::runtime::Runtime {
    proof fn lemma_offers_blocking()
        ensures
            supports_blocking(Self::spec_kind()),
    ;
}

/// Options which configure how a connection is opened with a runtime that
/// carries the blocking marker above. Parsing is shared with the generic
/// contract; connecting blocks the calling thread for the whole handshake,
/// and returns the connection or the transport's or protocol's error.
pub trait ConnectOptions<Rt: Runtime>: crate::options::ConnectOptions<Rt> {
    /// Parses a connection URL into connection options, by the generic parser.
    fn parse(url: &str) -> (r: Result<Self, Error>)
        ensures
            r == parse_result(Self::spec_parse(url@)),
    {
        <Self as crate::options::ConnectOptions<Rt>>::parse_url(url)
    }

    /// Establishes a connection to the database.
    fn connect(&self) -> (r: Result<Self::Connection, Error>);
}

} // verus!
