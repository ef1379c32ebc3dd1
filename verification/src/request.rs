//! The request that asks for a block.

use vstd::prelude::*;

use crate::url::block_address;
use crate::url::block_url;

verus! {

/// The browser that the request names as its sender.
pub const USER_AGENT: &'static str =
    "Mozilla/5.0 (Windows NT 10.0; Win64; x64) AppleWebKit/537.36 (KHTML, like Gecko) Chrome/58.0.3029.110 Safari/537.36";

/// The kind of answer that the request asks for.
pub const ACCEPT: &'static str = "application/json";

/// One GET request: where it goes, and the two headers that it carries.
#[derive(Debug, PartialEq, Eq)]
pub struct Request {
    pub url: String,
    /// The value of the header `User-Agent`.
    pub user_agent: &'static str,
    /// The value of the header `Accept`.
    pub accept: &'static str,
}

/// The mathematical value of a [`Request`].
pub struct RequestView {
    pub url: Seq<char>,
    pub user_agent: Seq<char>,
    pub accept: Seq<char>,
}

impl View for Request {
    type V = RequestView;

    open spec fn view(&self) -> RequestView {
        RequestView { url: self.url@, user_agent: self.user_agent@, accept: self.accept@ }
    }
}

/// The request for the block `id`.
pub open spec fn block_request_for(id: Seq<char>) -> RequestView {
    RequestView { url: block_address(id), user_agent: USER_AGENT@, accept: ACCEPT@ }
}

/// Makes the request for the block `id`: a GET of the block's address that
/// names a desktop browser as its sender and asks for JSON.
pub fn block_request(id: &str) -> (request: Request)
    ensures
        request@ == block_request_for(id@),
{
    Request { url: block_url(id), user_agent: USER_AGENT, accept: ACCEPT }
}

} // verus!
