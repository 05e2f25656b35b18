//! The cursor and its state machine.

use vstd::prelude::*;
use crate::listing::{ListPage, ListRequest, S3Object};

verus! {

/// How far a listing has been fetched.
#[derive(Debug, Clone, PartialEq, Eq)]
pub enum State {
    /// No page has been fetched yet.
    NotYetKnown,
    /// The last page named a token under which the listing continues.
    Partial { continuation_token: String },
    /// The last page named no token: the listing has ended.
    Complete,
}

impl State {
    /// Whether a further page may still be asked for.
    pub open spec fn may_fetch(self) -> bool {
        !(self is Complete)
    }

    /// The token that the request for the next page carries.
    pub open spec fn token(self) -> Option<String> {
        match self {
            State::Partial { continuation_token } => Some(continuation_token),
            _ => None,
        }
    }

    /// The state that a fetched page leaves behind. The token decides alone:
    /// a page with a token is followed by another whatever its flag says, and
    /// a page without one is the last.
    pub open spec fn after(page: ListPage) -> State {
        match page.next_continuation_token {
            Some(t) => State::Partial { continuation_token: t },
            None => State::Complete,
        }
    }
}

/// What a call of [`S3ObjectIter::next`] asks of its caller.
#[derive(Debug, Clone, PartialEq, Eq)]
pub enum Step {
    /// The next entry, or `None` where the listing has ended.
    Yield(Option<S3Object>),
    /// The buffer is empty: send this request and report the answer with
    /// [`S3ObjectIter::resume`].
    Fetch(ListRequest),
}

/// The cursor as contracts see it.
pub struct CursorModel {
    /// The bucket that is listed.
    pub bucket: String,
    /// The prefix that every request carries.
    pub prefix: Option<String>,
    /// How far the listing has been fetched.
    pub state: State,
    /// The entries fetched and not yet handed out, oldest first.
    pub buffer: Seq<S3Object>,
}

impl CursorModel {
    /// A cursor that has fetched nothing.
    pub open spec fn start(bucket: String, prefix: Option<String>) -> CursorModel {
        CursorModel { bucket, prefix, state: State::NotYetKnown, buffer: Seq::empty() }
    }

    /// The request for the next page.
    pub open spec fn request(self) -> ListRequest {
        ListRequest {
            bucket: self.bucket,
            prefix: self.prefix,
            continuation_token: self.state.token(),
        }
    }

    /// The oldest buffered entry, if there is one.
    pub open spec fn front(self) -> Option<S3Object> {
        if self.buffer.len() > 0 {
            Some(self.buffer[0])
        } else {
            None
        }
    }

    /// The cursor without its oldest buffered entry.
    pub open spec fn after_pop(self) -> CursorModel {
        if self.buffer.len() > 0 {
            CursorModel { buffer: self.buffer.drop_first(), ..self }
        } else {
            self
        }
    }

    /// The cursor once `page` has been fetched: the page's entries are the
    /// buffer, and its token decides the state.
    pub open spec fn with_page(self, page: ListPage) -> CursorModel {
        CursorModel { state: State::after(page), buffer: page.items(), ..self }
    }

    /// What `next` answers.
    pub open spec fn next_step(self) -> Step {
        if self.buffer.len() > 0 {
            Step::Yield(Some(self.buffer[0]))
        } else if self.state.may_fetch() {
            Step::Fetch(self.request())
        } else {
            Step::Yield(None)
        }
    }

    /// The cursor after a call of `next`.
    pub open spec fn after_next(self) -> CursorModel {
        self.after_pop()
    }

    /// The cursor after `n` calls of `next`.
    pub open spec fn after_calls(self, n: nat) -> CursorModel
        decreases n,
    {
        if n == 0 {
            self
        } else {
            self.after_next().after_calls((n - 1) as nat)
        }
    }

    /// The entries that repeated pulls hand out while the service answers
    /// the fetches with `pages`, one page per fetch, in turn. A pull is a call
    /// of `next` and, where that asks for a fetch, the report of the page. The
    /// pulls stop when `next` answers `None` or a fetch finds `pages` used up.
    pub open spec fn yielded(self, pages: Seq<ListPage>) -> Seq<S3Object>
        decreases pages.len(), self.buffer.len(),
    {
        match self.next_step() {
            Step::Yield(Some(item)) => seq![item] + self.after_next().yielded(pages),
            Step::Yield(None) => Seq::empty(),
            Step::Fetch(_) => if pages.len() > 0 {
                let fetched = self.with_page(pages[0]);
                let later = fetched.after_pop().yielded(pages.drop_first());
                match fetched.front() {
                    Some(item) => seq![item] + later,
                    None => later,
                }
            } else {
                Seq::empty()
            },
        }
    }

    /// The number of fetches that those pulls ask for and get answered.
    pub open spec fn fetches(self, pages: Seq<ListPage>) -> nat
        decreases pages.len(), self.buffer.len(),
    {
        match self.next_step() {
            Step::Yield(Some(_)) => self.after_next().fetches(pages),
            Step::Yield(None) => 0,
            Step::Fetch(_) => if pages.len() > 0 {
                1 + self.with_page(pages[0]).after_pop().fetches(pages.drop_first())
            } else {
                0
            },
        }
    }
}

/// A cursor over one listing. It buffers one page and fetches the next only
/// when the buffer is empty.
pub struct S3ObjectIter {
    bucket: String,
    prefix: Option<String>,
    state: State,
    /// The buffered entries, newest first, so that the oldest is popped.
    queue: Vec<S3Object>,
}

impl View for S3ObjectIter {
    type V = CursorModel;

    closed spec fn view(&self) -> CursorModel {
        CursorModel {
            bucket: self.bucket,
            prefix: self.prefix,
            state: self.state,
            buffer: self.queue@.reverse(),
        }
    }
}

/// The entries of `v` in the opposite order.
fn reversed(v: Vec<S3Object>) -> (r: Vec<S3Object>)
    ensures
        r@ == v@.reverse(),
{
    let ghost orig = v@;
    let mut v = v;
    let mut r: Vec<S3Object> = Vec::new();
    while v.len() > 0
        invariant
            v@.len() + r@.len() == orig.len(),
            v@ == orig.take(v@.len() as int),
            forall|i: int| 0 <= i < r@.len() ==> r@[i] == orig[orig.len() - 1 - i],
        decreases v@.len(),
    {
        let x = v.pop();
        match x {
            Some(x) => r.push(x),
            None => {},
        }
    }
    assert(r@ =~= orig.reverse());
    r
}

/// A copy of an optional string.
fn clone_opt(s: &Option<String>) -> (r: Option<String>)
    ensures
        r == *s,
{
    match s {
        Some(t) => Some(t.clone()),
        None => None,
    }
}

impl S3ObjectIter {
    /// A cursor over the objects of `bucket` whose keys begin with `prefix`.
    /// Nothing is fetched yet.
    pub fn new(bucket: String, prefix: Option<String>) -> (iter: S3ObjectIter)
        ensures
            iter@ == CursorModel::start(bucket, prefix),
    {
        let iter = S3ObjectIter { bucket, prefix, state: State::NotYetKnown, queue: Vec::new() };
        assert(iter.queue@.reverse() =~= Seq::<S3Object>::empty());
        iter
    }

    /// The request for the next page: the listing's fixed parameters, and the
    /// token of the last page where it named one.
    pub fn request(&self) -> (req: ListRequest)
        ensures
            req == self@.request(),
    {
        let continuation_token = match &self.state {
            State::Partial { continuation_token } => Some(continuation_token.clone()),
            _ => None,
        };
        ListRequest {
            bucket: self.bucket.clone(),
            prefix: clone_opt(&self.prefix),
            continuation_token,
        }
    }

    /// Takes in a fetched page: its entries replace the buffer, and the state
    /// follows its token.
    pub fn fetch(&mut self, page: ListPage)
        ensures
            final(self)@ == old(self)@.with_page(page),
    {
        self.state = match page.next_continuation_token {
            Some(continuation_token) => State::Partial { continuation_token },
            None => State::Complete,
        };
        let contents = match page.contents {
            Some(v) => v,
            None => Vec::new(),
        };
        let ghost items = contents@;
        self.queue = reversed(contents);
        assert(self.queue@.reverse() =~= items);
    }

    /// Removes the oldest buffered entry and returns it.
    fn pop(&mut self) -> (item: Option<S3Object>)
        ensures
            item == old(self)@.front(),
            final(self)@ == old(self)@.after_pop(),
    {
        let item = self.queue.pop();
        proof {
            let q = old(self).queue@;
            if q.len() > 0 {
                assert(q.drop_last().reverse() =~= q.reverse().drop_first());
            } else {
                assert(self.queue@ =~= q);
            }
        }
        item
    }

    /// The next entry of the listing, or the request that has to be sent
    /// before there can be one.
    ///
    /// While entries are buffered the oldest is handed out and nothing is
    /// asked of the service. With an empty buffer the answer is a request,
    /// unless the listing has ended: then it is `None`, now and ever after.
    /// A call that answers with a request leaves the cursor as it was.
    pub fn next(&mut self) -> (step: Step)
        ensures
            step == old(self)@.next_step(),
            final(self)@ == old(self)@.after_next(),
            step is Fetch <==> old(self)@.buffer.len() == 0 && old(self)@.state.may_fetch(),
            step == Step::Yield(None) <==> old(self)@.buffer.len() == 0 && old(self)@.state is Complete,
            old(self)@.buffer.len() == 0 ==> final(self)@ == old(self)@,
            final(self)@.state == old(self)@.state,
    {
        match self.pop() {
            Some(object) => Step::Yield(Some(object)),
            None => match &self.state {
                State::Complete => Step::Yield(None),
                _ => Step::Fetch(self.request()),
            },
        }
    }

    /// Reports how the fetch that `next` asked for has ended, and gives what
    /// `next` would have given had the page been there.
    ///
    /// A page is taken in and its first entry handed out (`None` where it has
    /// none). A failure is handed back as it came and changes nothing, so that
    /// the next call of `next` asks for the same page again.
    pub fn resume<E>(&mut self, result: Result<ListPage, E>) -> (out: Result<Option<S3Object>, E>)
        ensures
            result is Ok ==> out == Ok::<Option<S3Object>, E>(
                old(self)@.with_page(result->Ok_0).front(),
            ),
            result is Ok ==> final(self)@ == old(self)@.with_page(result->Ok_0).after_pop(),
            result is Err ==> out == Err::<Option<S3Object>, E>(result->Err_0),
            result is Err ==> final(self)@ == old(self)@,
    {
        match result {
            Ok(page) => {
                self.fetch(page);
                Ok(self.pop())
            },
            Err(e) => Err(e),
        }
    }
}

} // verus!
