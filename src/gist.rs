//! Loading a contract from a gist: the shapes of the request and the reply.
use vstd::prelude::*;

verus! {

/// A contract stored as a gist.
#[derive(Clone, Debug, PartialEq, Eq)]
pub struct Gist {
    pub id: String,
    pub url: String,
    pub code: String,
}

#[derive(Clone, Debug, PartialEq, Eq)]
pub struct GistLoadRequest {
    pub id: String,
}

#[derive(Clone, Debug, PartialEq, Eq)]
pub enum GistLoadResponse {
    Success(Gist),
    Error(String),
}

/// Why a gist could not be loaded.
#[derive(Clone, Copy, Debug, PartialEq, Eq, Structural)]
pub enum GistLoadError {
    /// The gist service failed or refused the request.
    GitHub,
    /// The gist holds no usable contract.
    MalformattedGist,
}

/// The message a caller gets for any failed load; details stay in the log.
pub const GIST_LOAD_FAILED: &'static str = "Loading Gist failed";

impl GistLoadResponse {
    /// The reply to a load: the gist itself, or a generic error message.
    pub fn from_result(result: Result<Gist, GistLoadError>) -> (r: GistLoadResponse)
        ensures
            result matches Ok(g) ==> r == GistLoadResponse::Success(g),
            result is Err ==> (r matches GistLoadResponse::Error(m) && m@ == GIST_LOAD_FAILED@),
    {
        match result {
            Ok(gist) => GistLoadResponse::Success(gist),
            Err(_) => GistLoadResponse::Error(String::from_str(GIST_LOAD_FAILED)),
        }
    }
}

} // verus!
