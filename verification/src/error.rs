//! Error kinds surfaced by the mirror core.

use vstd::prelude::*;

verus! {

/// The error kinds of the mirror core.
///
/// `FetchFail` is an upstream response with a non-success status;
/// `MissingField` is a required upstream header or record field that is absent;
/// `HeaderDecode` is a header value that is not text;
/// `Json` is a malformed JSON document where one was required;
/// `Git` is a failed index-repository operation;
/// `SymbolicReference` is a symbolic `HEAD` where a commit was attempted;
/// `BareRepo` is an index repository without a working tree.
#[derive(Clone, Copy, Debug, PartialEq, Eq, Structural)]
pub enum Error {
    FetchFail,
    MissingField,
    HeaderDecode,
    Json,
    Git,
    SymbolicReference,
    BareRepo,
}

impl Error {
    /// A short human-readable description of the error.
    pub fn message(&self) -> (r: String)
        ensures
            *self is FetchFail ==> r@ == "fail to fetch"@,
            *self is MissingField ==> r@ == "missing field"@,
            *self is HeaderDecode ==> r@ == "header is not text"@,
            *self is Json ==> r@ == "malformed json"@,
            *self is Git ==> r@ == "git operation failed"@,
            *self is SymbolicReference ==> r@ == "symbolic reference not allowed"@,
            *self is BareRepo ==> r@ == "repository has no worktree"@,
    {
        match self {
            Error::FetchFail => "fail to fetch".to_owned(),
            Error::MissingField => "missing field".to_owned(),
            Error::HeaderDecode => "header is not text".to_owned(),
            Error::Json => "malformed json".to_owned(),
            Error::Git => "git operation failed".to_owned(),
            Error::SymbolicReference => "symbolic reference not allowed".to_owned(),
            Error::BareRepo => "repository has no worktree".to_owned(),
        }
    }
}

} // verus!
