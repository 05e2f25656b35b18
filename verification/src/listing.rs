//! What goes to the listing service and what comes back from it, as plain
//! values.

use vstd::prelude::*;

verus! {

/// One entry of a listing.
#[derive(Debug, Clone, PartialEq, Eq)]
pub struct S3Object {
    /// The name under which the object is stored.
    pub key: Option<String>,
}

/// One request for a page of a listing.
#[derive(Debug, Clone, PartialEq, Eq)]
pub struct ListRequest {
    /// The bucket whose objects are listed.
    pub bucket: String,
    /// When present, only keys that begin with it are listed.
    pub prefix: Option<String>,
    /// Where the listing resumes; absent in the request for the first page.
    pub continuation_token: Option<String>,
}

/// One page of a listing, as the service answered.
#[derive(Debug, Clone, PartialEq, Eq)]
pub struct ListPage {
    /// The entries of the page, in the service's order; absent when it has none.
    pub contents: Option<Vec<S3Object>>,
    /// The token under which the listing continues; absent on the last page.
    pub next_continuation_token: Option<String>,
    /// The service's own word on whether more entries exist. The cursor goes
    /// by the token and never by this flag.
    pub is_truncated: Option<bool>,
}

impl ListPage {
    /// The entries of the page in the service's order.
    pub open spec fn items(self) -> Seq<S3Object> {
        match self.contents {
            Some(v) => v@,
            None => Seq::empty(),
        }
    }

    /// Whether the listing goes on after this page. A token decides alone.
    pub open spec fn has_more(self) -> bool {
        self.next_continuation_token is Some
    }
}

/// The pages of `pages` that one traversal asks for: each in turn, up to and
/// with the first that names no token.
pub open spec fn served(pages: Seq<ListPage>) -> Seq<ListPage>
    decreases pages.len(),
{
    if pages.len() == 0 {
        Seq::empty()
    } else if pages[0].has_more() {
        seq![pages[0]] + served(pages.drop_first())
    } else {
        seq![pages[0]]
    }
}

/// The entries of `pages`, page after page, each page in its own order.
pub open spec fn concat_pages(pages: Seq<ListPage>) -> Seq<S3Object>
    decreases pages.len(),
{
    if pages.len() == 0 {
        Seq::empty()
    } else {
        pages[0].items() + concat_pages(pages.drop_first())
    }
}

} // verus!
