//! What holds of every traversal.

use vstd::prelude::*;
use crate::cursor::{CursorModel, Step};
use crate::listing::{concat_pages, served, ListPage, S3Object};

verus! {

/// Whether every page but the last names a token, as the pages that one
/// traversal has fetched do: the cursor asks for a further page only under
/// the token of the page before.
pub open spec fn chained(pages: Seq<ListPage>) -> bool {
    forall|i: int| 0 <= i < pages.len() - 1 ==> (#[trigger] pages[i]).has_more()
}

/// Putting a page in front of others puts its entries in front of theirs.
pub proof fn lemma_concat_step(page: ListPage, rest: Seq<ListPage>)
    ensures
        concat_pages(seq![page] + rest) == page.items() + concat_pages(rest),
{
    let all = seq![page] + rest;
    assert(all[0] == page);
    assert(all.drop_first() =~= rest);
}

/// A traversal asks for every page of a chained sequence.
pub proof fn lemma_chained_all_served(pages: Seq<ListPage>)
    requires
        chained(pages),
    ensures
        served(pages) == pages,
    decreases pages.len(),
{
    if pages.len() > 0 {
        let rest = pages.drop_first();
        if pages[0].has_more() {
            assert forall|i: int| 0 <= i < rest.len() - 1 implies (#[trigger] rest[i]).has_more() by {
                assert(rest[i] == pages[i + 1]);
            }
            lemma_chained_all_served(rest);
            assert(seq![pages[0]] + rest =~= pages);
        } else {
            assert(seq![pages[0]] =~= pages);
        }
    } else {
        assert(served(pages) =~= pages);
    }
}

/// A cursor hands out what it has buffered and then, if its listing has not
/// ended, the entries of the pages it is served, in their order; and it
/// fetches each of those pages once.
pub proof fn lemma_yields_buffer_then_pages(c: CursorModel, pages: Seq<ListPage>)
    ensures
        c.state.may_fetch() ==> c.yielded(pages) == c.buffer + concat_pages(served(pages)),
        c.state.may_fetch() ==> c.fetches(pages) == served(pages).len(),
        !c.state.may_fetch() ==> c.yielded(pages) == c.buffer,
        !c.state.may_fetch() ==> c.fetches(pages) == 0,
    decreases pages.len(), c.buffer.len(),
{
    let tail = concat_pages(served(pages));
    if c.buffer.len() > 0 {
        let popped = c.after_next();
        lemma_yields_buffer_then_pages(popped, pages);
        assert(seq![c.buffer[0]] + popped.buffer =~= c.buffer);
        assert(seq![c.buffer[0]] + (popped.buffer + tail) =~= c.buffer + tail);
    } else if c.state.may_fetch() && pages.len() > 0 {
        let first = pages[0];
        let rest = pages.drop_first();
        let fetched = c.with_page(first);
        let popped = fetched.after_pop();
        lemma_yields_buffer_then_pages(popped, rest);
        // What the pull and the pulls that drain the buffer hand out is the page.
        let later = concat_pages(served(rest));
        if first.items().len() > 0 {
            assert(seq![first.items()[0]] + popped.buffer =~= first.items());
            assert(seq![first.items()[0]] + (popped.buffer + later) =~= first.items() + later);
        } else {
            assert(popped.buffer + later =~= first.items() + later);
        }
        if first.has_more() {
            lemma_concat_step(first, served(rest));
        } else {
            lemma_concat_step(first, Seq::empty());
            assert(seq![first] + Seq::<ListPage>::empty() =~= seq![first]);
            assert(first.items() + concat_pages(Seq::<ListPage>::empty()) =~= first.items());
        }
        assert(c.buffer + tail =~= tail);
    } else {
        assert(c.yielded(pages) =~= c.buffer);
        if c.state.may_fetch() {
            assert(c.buffer + tail =~= c.buffer);
        }
    }
}

/// Order preservation: whatever pages the service answers with, a fresh
/// cursor hands out the entries of the pages it fetches exactly as they came,
/// page after page, none dropped, none repeated, none moved; and it fetches
/// each of those pages once.
pub proof fn lemma_order_preserved(bucket: String, prefix: Option<String>, pages: Seq<ListPage>)
    ensures
        CursorModel::start(bucket, prefix).yielded(pages) == concat_pages(served(pages)),
        CursorModel::start(bucket, prefix).fetches(pages) == served(pages).len(),
        chained(pages) ==> CursorModel::start(bucket, prefix).yielded(pages) == concat_pages(pages),
        chained(pages) ==> CursorModel::start(bucket, prefix).fetches(pages) == pages.len(),
{
    let c = CursorModel::start(bucket, prefix);
    lemma_yields_buffer_then_pages(c, pages);
    assert(c.buffer + concat_pages(served(pages)) =~= concat_pages(served(pages)));
    if chained(pages) {
        lemma_chained_all_served(pages);
    }
}

/// Exhaustion is final: once `next` has answered `None`, it answers `None`
/// on every later call, asks for no fetch, and the cursor stays as it is.
pub proof fn lemma_exhaustion_is_final(c: CursorModel, n: nat)
    requires
        c.next_step() == Step::Yield(None),
    ensures
        c.after_calls(n) == c,
        c.after_calls(n).next_step() == Step::Yield(None),
    decreases n,
{
    if n > 0 {
        lemma_exhaustion_is_final(c.after_next(), (n - 1) as nat);
    }
}

/// A fetch that finds an empty page without a token ends the listing: the
/// call gives `None`, and so does every call after it, without a fetch.
pub proof fn lemma_empty_last_page_exhausts(c: CursorModel, page: ListPage, n: nat)
    requires
        page.items().len() == 0,
        !page.has_more(),
    ensures
        c.with_page(page).front() == None::<S3Object>,
        c.with_page(page).after_pop().after_calls(n).next_step() == Step::Yield(None),
{
    lemma_exhaustion_is_final(c.with_page(page).after_pop(), n);
}

/// While entries are buffered `next` hands the oldest out, asks for no fetch
/// and leaves the state alone.
pub proof fn lemma_no_fetch_while_buffered(c: CursorModel)
    requires
        c.buffer.len() > 0,
    ensures
        c.next_step() == Step::Yield(Some(c.buffer[0])),
        c.after_next().state == c.state,
        c.after_next().buffer == c.buffer.drop_first(),
{
}

/// A failed fetch can be tried again: the call of `next` that asked for it
/// left the cursor as it was, and so does the report of the failure, so the
/// next call asks for the same page, under the same token or, for the first
/// page, under none.
pub proof fn lemma_retry_repeats_request(c: CursorModel)
    requires
        c.next_step() is Fetch,
    ensures
        c.after_next() == c,
        c.after_next().next_step() == c.next_step(),
        c.next_step() == Step::Fetch(c.request()),
        c.request().continuation_token == c.state.token(),
{
}

} // verus!
