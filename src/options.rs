use vstd::prelude::*;

use crate::runtime::Runtime;

verus! {

/// Failures that connection options report.
#[derive(Clone, Copy, Debug, PartialEq, Eq, Structural)]
pub enum Error {
    /// The connection string is malformed for the target database.
    Configuration,
    /// The transport failed while the connection was being established.
    Io,
    /// The database answered outside its wire protocol.
    Protocol,
}

/// What parsing yields, given what the parser made of the string: the options
/// value, or a configuration error for a malformed string.
pub open spec fn parse_result<O>(parsed: Option<O>) -> Result<O, Error> {
    match parsed {
        Option::Some(o) => Ok(o),
        Option::None => Err(Error::Configuration),
    }
}

/// Options which configure how a connection is opened, independent of the
/// execution style. A database driver implements it for its options type.
pub trait ConnectOptions<Rt: Runtime>: Sized {
    /// The connection that these options open.
    type Connection;

    /// The options that a well-formed `url` describes; `None` where it is
    /// malformed.
    spec fn spec_parse(url: Seq<char>) -> Option<Self>;

    /// Parses a connection URL into connection options. No I/O takes place.
    fn parse_url(url: &str) -> (r: Result<Self, Error>)
        ensures
            r == parse_result(Self::spec_parse(url@)),
    ;
}

} // verus!
