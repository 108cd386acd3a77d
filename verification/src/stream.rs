//! Pagination as state machines.
//!
//! A [`PageStream`] walks through the pages of a query and a [`PostStream`]
//! hands out the posts of those pages one by one. Neither fetches anything:
//! each step that needs a page returns the client to fetch it with, and the
//! caller hands back what the fetch brought. Fetches of one stream are
//! therefore strictly sequential.

use vstd::prelude::*;
use std::collections::VecDeque;
use crate::client::{Client, ClientBuilder, QueryView};
use crate::error::BooruError;

verus! {

/// The state of a [`PageStream`].
pub struct PageStreamView {
    /// The query that the stream was made from; its page is where the stream
    /// started.
    pub query: QueryView,
    /// The next page to fetch.
    pub current_page: u32,
    /// Whether the stream has ended. An ended stream stays ended.
    pub exhausted: bool,
    /// The greatest number of pages to fetch, where there is one.
    pub max_pages: Option<u32>,
}

/// What a fetch brought, as far as a stream's state depends on it.
pub enum Fetched {
    /// A page of this many posts.
    Page(nat),
    /// An error.
    Failed,
}

impl PageStreamView {
    /// The number of pages fetched since the stream started.
    pub open spec fn pages_fetched(self) -> int {
        if self.current_page >= self.query.page {
            self.current_page - self.query.page
        } else {
            0
        }
    }

    /// Whether as many pages were fetched as the stream may fetch.
    pub open spec fn at_cap(self) -> bool {
        match self.max_pages {
            Some(max) => self.pages_fetched() >= max,
            None => false,
        }
    }

    /// Whether the next step fetches a page.
    pub open spec fn fetches(self) -> bool {
        !self.exhausted && !self.at_cap()
    }

    /// The state after the first half of a step: a stream that is at its cap
    /// ends, any other stays as it is.
    pub open spec fn start(self) -> PageStreamView {
        if !self.exhausted && self.at_cap() {
            PageStreamView { exhausted: true, ..self }
        } else {
            self
        }
    }

    /// The query of the fetch that a step makes.
    pub open spec fn page_query(self) -> QueryView {
        QueryView { page: self.current_page, ..self.query }
    }

    /// The state after the second half of a step, in which the fetch brought
    /// `fetched`: a page that holds posts moves the cursor on by one, an
    /// empty page and an error end the stream, and so does a page at the
    /// last cursor that there is. An ended stream stays as it is.
    pub open spec fn finish(self, fetched: Fetched) -> PageStreamView {
        if self.exhausted {
            self
        } else {
            match fetched {
                Fetched::Page(count) => if count > 0 && self.current_page < u32::MAX {
                    PageStreamView { current_page: (self.current_page + 1) as u32, ..self }
                } else {
                    PageStreamView { exhausted: true, ..self }
                },
                Fetched::Failed => PageStreamView { exhausted: true, ..self },
            }
        }
    }

    /// The state after one whole step.
    pub open spec fn step(self, fetched: Fetched) -> PageStreamView {
        if self.fetches() {
            self.start().finish(fetched)
        } else {
            self.start()
        }
    }

    /// The state after one step for each of `fetches`, in order.
    pub open spec fn run(self, fetches: Seq<Fetched>) -> PageStreamView
        decreases fetches.len(),
    {
        if fetches.len() == 0 {
            self
        } else {
            self.step(fetches[0]).run(fetches.subrange(1, fetches.len() as int))
        }
    }
}

/// What a fetch brought, as far as a stream's state depends on it.
pub open spec fn fetched_of<P>(outcome: Result<Vec<P>, BooruError>) -> Fetched {
    match outcome {
        Ok(posts) => Fetched::Page(posts@.len()),
        Err(_) => Fetched::Failed,
    }
}

/// A stream that ended stays ended and fetches nothing, whatever steps are
/// asked of it.
pub proof fn lemma_exhausted_is_terminal(s: PageStreamView, fetches: Seq<Fetched>)
    requires
        s.exhausted,
    ensures
        !s.fetches(),
        s.run(fetches) == s,
    decreases fetches.len(),
{
    if fetches.len() > 0 {
        lemma_exhausted_is_terminal(s, fetches.subrange(1, fetches.len() as int));
    }
}

/// A step whose fetch brings an empty page ends the stream, whether or not
/// its cap of pages was reached: every later step fetches nothing and
/// leaves the stream as it is.
pub proof fn lemma_empty_page_ends_stream(s: PageStreamView, later: Seq<Fetched>)
    ensures
        s.step(Fetched::Page(0)).exhausted,
        !s.step(Fetched::Page(0)).fetches(),
        s.step(Fetched::Page(0)).run(later) == s.step(Fetched::Page(0)),
{
    lemma_exhausted_is_terminal(s.step(Fetched::Page(0)), later);
}

/// A step whose fetch fails ends the stream: no later step fetches, so no
/// error is reported twice.
pub proof fn lemma_error_ends_stream(s: PageStreamView, later: Seq<Fetched>)
    requires
        s.fetches(),
    ensures
        !s.step(Fetched::Failed).fetches(),
        s.step(Fetched::Failed).run(later) == s.step(Fetched::Failed),
{
    lemma_exhausted_is_terminal(s.step(Fetched::Failed), later);
}

/// A stream that yields pages of posts.
///
/// Created by [`ClientBuilder::into_page_stream`].
#[derive(Debug)]
pub struct PageStream<T: Client> {
    builder: ClientBuilder<T>,
    current_page: u32,
    exhausted: bool,
    max_pages: Option<u32>,
}

impl<T: Client> View for PageStream<T> {
    type V = PageStreamView;

    closed spec fn view(&self) -> PageStreamView {
        PageStreamView {
            query: self.builder@,
            current_page: self.current_page,
            exhausted: self.exhausted,
            max_pages: self.max_pages,
        }
    }
}

impl<T: Client> PageStream<T> {
    /// Creates a new page stream from a client builder. It starts at the
    /// builder's page and has no cap of pages.
    pub fn new(builder: ClientBuilder<T>) -> (r: Self)
        ensures
            r@ == (PageStreamView {
                query: builder@,
                current_page: builder@.page,
                exhausted: false,
                max_pages: None,
            }),
    {
        let current_page = builder.current_page();
        PageStream { builder, current_page, exhausted: false, max_pages: None }
    }

    /// Sets the maximum number of pages to fetch.
    #[must_use]
    pub fn max_pages(self, max: u32) -> (r: Self)
        ensures
            r@ == (PageStreamView { max_pages: Some(max), ..self@ }),
    {
        let mut s = self;
        s.max_pages = Some(max);
        s
    }

    /// Returns the current page number: the next page to fetch.
    pub fn current_page(&self) -> (r: u32)
        ensures
            r == self@.current_page,
    {
        self.current_page
    }

    /// Whether the stream has ended.
    pub fn is_exhausted(&self) -> (r: bool)
        ensures
            r == self@.exhausted,
    {
        self.exhausted
    }

    /// The first half of a step: says whether a page is to be fetched, and
    /// with which client.
    ///
    /// Returns `None` when the stream has ended or has fetched as many pages
    /// as it may, which ends it. Otherwise returns the client for the current
    /// page; the caller fetches with it and hands the outcome to
    /// [`PageStream::finish_next`].
    pub fn start_next(&mut self) -> (r: Option<T>)
        ensures
            final(self)@ == old(self)@.start(),
            match r {
                Some(client) => old(self)@.fetches() && client.spec_query() == old(
                    self,
                )@.page_query(),
                None => !old(self)@.fetches(),
            },
    {
        if self.exhausted {
            return None;
        }
        if let Some(max) = self.max_pages {
            let start = self.builder.current_page();
            let pages_fetched = if self.current_page >= start {
                self.current_page - start
            } else {
                0
            };
            if pages_fetched >= max {
                self.exhausted = true;
                return None;
            }
        }
        let page_builder = self.builder.clone().page(self.current_page);
        Some(page_builder.build())
    }

    /// The second half of a step: takes what the fetch brought and returns
    /// what the step yields.
    ///
    /// A page of posts is yielded and moves the cursor on by one. An empty
    /// page is yielded too and ends the stream. An error is yielded once and
    /// ends the stream. A stream that has ended yields nothing and stays as
    /// it is.
    pub fn finish_next<P>(&mut self, outcome: Result<Vec<P>, BooruError>) -> (r: Option<
        Result<Vec<P>, BooruError>,
    >)
        ensures
            final(self)@ == old(self)@.finish(fetched_of(outcome)),
            r == if old(self)@.exhausted {
                None
            } else {
                Some(outcome)
            },
    {
        if self.exhausted {
            return None;
        }
        match outcome {
            Ok(posts) => {
                if posts.len() == 0 || self.current_page == u32::MAX {
                    self.exhausted = true;
                } else {
                    self.current_page = self.current_page + 1;
                }
                Some(Ok(posts))
            },
            Err(e) => {
                self.exhausted = true;
                Some(Err(e))
            },
        }
    }
}

/// The state of a [`PostStream`].
pub struct PostStreamView<P> {
    /// The stream of pages underneath.
    pub pages: PageStreamView,
    /// The posts of the pages fetched so far that were not yielded yet,
    /// oldest first.
    pub buffer: Seq<P>,
    /// The number of posts yielded so far.
    pub posts_yielded: u32,
    /// The greatest number of posts to yield, where there is one.
    pub max_posts: Option<u32>,
}

/// The count that follows `count`, held at `u32::MAX`.
pub open spec fn count_after(count: u32) -> u32 {
    if count < u32::MAX {
        (count + 1) as u32
    } else {
        u32::MAX
    }
}

impl<P> PostStreamView<P> {
    /// Whether as many posts were yielded as the stream may yield.
    pub open spec fn at_cap(self) -> bool {
        match self.max_posts {
            Some(max) => self.posts_yielded >= max,
            None => false,
        }
    }

    /// Whether no more posts were yielded than the stream may yield.
    pub open spec fn within_cap(self) -> bool {
        match self.max_posts {
            Some(max) => self.posts_yielded <= max,
            None => true,
        }
    }

    /// Whether the next step has to fetch a page: the stream is below its
    /// cap and holds no post to yield.
    pub open spec fn needs_page(self) -> bool {
        !self.at_cap() && self.buffer.len() == 0
    }

    /// The state after yielding the oldest post of `self.buffer + posts`.
    pub open spec fn yielding(self, posts: Seq<P>) -> PostStreamView<P> {
        PostStreamView {
            buffer: (self.buffer + posts).subrange(1, (self.buffer + posts).len() as int),
            posts_yielded: count_after(self.posts_yielded),
            ..self
        }
    }

    /// Whether a whole step fetches a page: the stream needs one and its
    /// stream of pages has one to fetch.
    pub open spec fn fetches(self) -> bool {
        self.needs_page() && self.pages.fetches()
    }

    /// The state after one whole step, in which the fetch, where the step
    /// makes one, brings `fetched`: a page of posts, or `None` for an error.
    ///
    /// At its cap the stream stays as it is. Below it, a stream that holds
    /// posts yields the oldest. A stream that holds none takes a step of
    /// its stream of pages, and yields the first post of the page where the
    /// page holds one.
    pub open spec fn step(self, fetched: Option<Seq<P>>) -> PostStreamView<P> {
        if self.at_cap() {
            self
        } else if self.buffer.len() > 0 {
            self.yielding(seq![])
        } else if !self.pages.fetches() {
            PostStreamView { pages: self.pages.start(), ..self }
        } else {
            match fetched {
                Some(posts) => {
                    let turned = PostStreamView {
                        pages: self.pages.finish(Fetched::Page(posts.len())),
                        ..self
                    };
                    if posts.len() > 0 {
                        turned.yielding(posts)
                    } else {
                        turned
                    }
                },
                None => PostStreamView { pages: self.pages.finish(Fetched::Failed), ..self },
            }
        }
    }

    /// The state after one whole step for each of `fetched`, in order.
    pub open spec fn run(self, fetched: Seq<Option<Seq<P>>>) -> PostStreamView<P>
        decreases fetched.len(),
    {
        if fetched.len() == 0 {
            self
        } else {
            self.step(fetched[0]).run(fetched.subrange(1, fetched.len() as int))
        }
    }

    /// The number of pages that are fetched in one whole step for each of
    /// `fetched`, in order.
    pub open spec fn fetches_in(self, fetched: Seq<Option<Seq<P>>>) -> nat
        decreases fetched.len(),
    {
        if fetched.len() == 0 {
            0
        } else {
            (if self.fetches() {
                1nat
            } else {
                0nat
            }) + self.step(fetched[0]).fetches_in(fetched.subrange(1, fetched.len() as int))
        }
    }
}

/// What a fetch brought, as far as a stream of posts depends on it: the
/// posts of the page, or `None` for an error.
pub open spec fn page_of<P>(outcome: Result<Vec<P>, BooruError>) -> Option<Seq<P>> {
    match outcome {
        Ok(posts) => Some(posts@),
        Err(_) => None,
    }
}

/// Steps taken one after the other are steps taken in one run.
pub proof fn lemma_run_in_two<P>(
    s: PostStreamView<P>,
    first: Seq<Option<Seq<P>>>,
    second: Seq<Option<Seq<P>>>,
)
    ensures
        s.run(first + second) == s.run(first).run(second),
        s.fetches_in(first + second) == s.fetches_in(first) + s.run(first).fetches_in(second),
    decreases first.len(),
{
    if first.len() == 0 {
        assert(first + second =~= second);
    } else {
        let all = first + second;
        assert(all[0] == first[0]);
        assert(all.subrange(1, all.len() as int) =~= first.subrange(1, first.len() as int)
            + second);
        lemma_run_in_two(s.step(first[0]), first.subrange(1, first.len() as int), second);
    }
}

/// At its cap a stream yields nothing, fetches nothing and stays as it is,
/// whatever steps are asked of it: the cursor of its pages does not move.
pub proof fn lemma_cap_is_final<P>(s: PostStreamView<P>, fetched: Seq<Option<Seq<P>>>)
    requires
        s.at_cap(),
    ensures
        !s.fetches(),
        s.run(fetched) == s,
        s.fetches_in(fetched) == 0,
    decreases fetched.len(),
{
    if fetched.len() > 0 {
        lemma_cap_is_final(s, fetched.subrange(1, fetched.len() as int));
    }
}

/// A stream that holds posts enough, and is far enough below its cap, yields
/// one of them in every step and fetches nothing.
pub proof fn lemma_buffered_steps<P>(s: PostStreamView<P>, fetched: Seq<Option<Seq<P>>>)
    requires
        fetched.len() <= s.buffer.len(),
        s.posts_yielded + fetched.len() <= u32::MAX,
        s.max_posts is Some ==> s.posts_yielded + fetched.len() <= s.max_posts->Some_0,
    ensures
        s.run(fetched) == (PostStreamView {
            buffer: s.buffer.subrange(fetched.len() as int, s.buffer.len() as int),
            posts_yielded: (s.posts_yielded + fetched.len()) as u32,
            ..s
        }),
        s.fetches_in(fetched) == 0,
    decreases fetched.len(),
{
    if fetched.len() == 0 {
        assert(s.buffer.subrange(0, s.buffer.len() as int) =~= s.buffer);
    } else {
        let next = s.step(fetched[0]);
        let rest = fetched.subrange(1, fetched.len() as int);
        assert(s.buffer + seq![] =~= s.buffer);
        assert(next == s.yielding(seq![]));
        lemma_buffered_steps(next, rest);
        assert(next.buffer.subrange(rest.len() as int, next.buffer.len() as int)
            =~= s.buffer.subrange(fetched.len() as int, s.buffer.len() as int));
    }
}

/// The cap of posts: a stream that has yielded nothing yet, may yield `max`
/// posts and fetches a page of at least `max` posts in its first step yields
/// `max` posts from that page and nothing more. However many steps are
/// asked of it, that one page is all that is fetched, and the cursor of its
/// pages stays behind the page.
pub proof fn lemma_one_page_suffices<P>(
    s: PostStreamView<P>,
    max: u32,
    page: Seq<P>,
    later: Seq<Option<Seq<P>>>,
)
    requires
        s.buffer.len() == 0,
        s.posts_yielded == 0,
        s.max_posts == Some(max),
        max >= 1,
        s.pages.fetches(),
        s.pages.current_page < u32::MAX,
        page.len() >= max,
    ensures
        s.fetches_in(seq![Some(page)] + later) == 1,
        s.run(seq![Some(page)] + later).pages.current_page == s.pages.current_page + 1,
        s.run(seq![Some(page)] + later).posts_yielded == if later.len() + 1 <= max {
            (later.len() + 1) as int
        } else {
            max as int
        },
        later.len() + 1 >= max ==> s.run(seq![Some(page)] + later).at_cap(),
{
    let first = seq![Some(page)];
    let one = s.step(Some(page));
    let none = first.subrange(1, first.len() as int);
    assert(none.len() == 0);
    assert(first[0] == Some(page));
    assert(one.run(none) == one);
    assert(one.fetches_in(none) == 0);
    assert(s.fetches());
    assert(s.run(first) == one);
    assert(s.fetches_in(first) == 1);
    lemma_run_in_two(s, first, later);
    assert(seq![] + page =~= page);
    assert(one.buffer.len() == page.len() - 1);
    if later.len() + 1 <= max {
        lemma_buffered_steps(one, later);
    } else {
        let buffered = later.subrange(0, max - 1);
        let capped = later.subrange(max - 1, later.len() as int);
        assert(later =~= buffered + capped);
        lemma_buffered_steps(one, buffered);
        lemma_run_in_two(one, buffered, capped);
        lemma_cap_is_final(one.run(buffered), capped);
    }
}

/// The cap of posts holds: a stream that has yielded no more posts than it
/// may, and is below its cap, has yielded no more than it may after one more
/// post. At its cap a stream yields nothing, so the count never passes the
/// cap.
pub proof fn lemma_cap_of_posts_holds<P>(s: PostStreamView<P>, posts: Seq<P>)
    requires
        s.within_cap(),
        !s.at_cap(),
    ensures
        s.yielding(posts).within_cap(),
        s.yielding(posts).max_posts == s.max_posts,
        s.yielding(posts).posts_yielded >= s.posts_yielded,
{
}

/// What the first half of a [`PostStream`]'s step found.
#[derive(Debug)]
pub enum Buffered<P> {
    /// The stream has yielded as many posts as it may: the step yields
    /// nothing.
    Done,
    /// The step yields this post.
    Post(P),
    /// The stream holds no post: the step has to fetch a page.
    NeedPage,
}

fn enqueue<P>(queue: &mut VecDeque<P>, items: Vec<P>)
    ensures
        final(queue)@ == old(queue)@ + items@,
{
    let ghost all = items@;
    let mut items = items;
    let mut page: VecDeque<P> = VecDeque::new();
    assert(items@ + page@ =~= items@);
    while items.len() > 0
        invariant
            items@ + page@ == all,
        decreases items@.len(),
    {
        let ghost before = items@;
        let ghost queued = page@;
        let item = items.pop().unwrap();
        page.push_front(item);
        assert(items@ + page@ =~= before + queued);
    }
    assert(items@ + page@ =~= page@);
    queue.append(&mut page);
}

/// A stream that yields individual posts across pages.
///
/// Created by [`ClientBuilder::into_post_stream`]. Posts are yielded in the
/// order of their pages, and within a page in the order in which the page
/// holds them.
pub struct PostStream<T: Client> {
    page_stream: PageStream<T>,
    buffer: VecDeque<T::Post>,
    posts_yielded: u32,
    max_posts: Option<u32>,
}

impl<T: Client> View for PostStream<T> {
    type V = PostStreamView<T::Post>;

    closed spec fn view(&self) -> PostStreamView<T::Post> {
        PostStreamView {
            pages: self.page_stream@,
            buffer: self.buffer@,
            posts_yielded: self.posts_yielded,
            max_posts: self.max_posts,
        }
    }
}

impl<T: Client> PostStream<T> {
    /// Creates a new post stream from a client builder. It starts at the
    /// builder's page, holds no posts and has no caps.
    pub fn new(builder: ClientBuilder<T>) -> (r: Self)
        ensures
            r@ == (PostStreamView::<T::Post> {
                pages: PageStreamView {
                    query: builder@,
                    current_page: builder@.page,
                    exhausted: false,
                    max_pages: None,
                },
                buffer: seq![],
                posts_yielded: 0,
                max_posts: None,
            }),
            r@.within_cap(),
    {
        let r = PostStream {
            page_stream: PageStream::new(builder),
            buffer: VecDeque::new(),
            posts_yielded: 0,
            max_posts: None,
        };
        assert(r@.buffer =~= seq![]);
        r
    }

    /// Sets the maximum number of posts to yield.
    #[must_use]
    pub fn max_posts(self, max: u32) -> (r: Self)
        ensures
            r@ == (PostStreamView { max_posts: Some(max), ..self@ }),
    {
        let mut s = self;
        s.max_posts = Some(max);
        s
    }

    /// Sets the maximum number of pages to fetch.
    #[must_use]
    pub fn max_pages(self, max: u32) -> (r: Self)
        ensures
            r@ == (PostStreamView {
                pages: PageStreamView { max_pages: Some(max), ..self@.pages },
                ..self@
            }),
    {
        PostStream {
            page_stream: self.page_stream.max_pages(max),
            buffer: self.buffer,
            posts_yielded: self.posts_yielded,
            max_posts: self.max_posts,
        }
    }

    /// Returns the number of posts yielded so far.
    pub fn posts_yielded(&self) -> (r: u32)
        ensures
            r == self@.posts_yielded,
    {
        self.posts_yielded
    }

    /// Returns the current page number: the next page to fetch.
    pub fn current_page(&self) -> (r: u32)
        ensures
            r == self@.pages.current_page,
    {
        self.page_stream.current_page()
    }

    fn at_cap(&self) -> (r: bool)
        ensures
            r == self@.at_cap(),
    {
        match self.max_posts {
            Some(max) => self.posts_yielded >= max,
            None => false,
        }
    }

    fn pop(&mut self) -> (r: T::Post)
        requires
            old(self)@.buffer.len() > 0,
        ensures
            r == old(self)@.buffer[0],
            final(self)@ == old(self)@.yielding(seq![]),
    {
        let post = self.buffer.pop_front().unwrap();
        if self.posts_yielded < u32::MAX {
            self.posts_yielded = self.posts_yielded + 1;
        }
        assert(old(self)@.buffer + seq![] =~= old(self)@.buffer);
        assert(self@.buffer =~= old(self)@.yielding(seq![]).buffer);
        post
    }

    /// The first half of a step: yields a post that the stream holds, or
    /// says that a page has to be fetched.
    ///
    /// A stream that has yielded as many posts as it may yields nothing, asks
    /// for no page and stays as it is, whatever posts it still holds. Below
    /// the cap, the oldest post that the stream holds is yielded. A stream
    /// that holds none asks for a page: see [`PostStream::start_page`].
    pub fn next_buffered(&mut self) -> (r: Buffered<T::Post>)
        ensures
            match r {
                Buffered::Done => old(self)@.at_cap() && final(self)@ == old(self)@,
                Buffered::Post(post) => {
                    &&& !old(self)@.at_cap()
                    &&& old(self)@.buffer.len() > 0
                    &&& post == old(self)@.buffer[0]
                    &&& final(self)@ == old(self)@.yielding(seq![])
                },
                Buffered::NeedPage => old(self)@.needs_page() && final(self)@ == old(self)@,
            },
            old(self)@.within_cap() ==> final(self)@.within_cap(),
    {
        if self.at_cap() {
            return Buffered::Done;
        }
        if self.buffer.len() > 0 {
            return Buffered::Post(self.pop());
        }
        Buffered::NeedPage
    }

    /// The first half of fetching a page: says whether a page is to be
    /// fetched, and with which client.
    ///
    /// Returns `None`, and leaves the stream as it is, unless the stream
    /// needs a page. Where it does, this is the first half of a step of the
    /// stream of pages: `None` means that there are no more posts.
    pub fn start_page(&mut self) -> (r: Option<T>)
        ensures
            final(self)@ == if old(self)@.needs_page() {
                PostStreamView { pages: old(self)@.pages.start(), ..old(self)@ }
            } else {
                old(self)@
            },
            match r {
                Some(client) => {
                    &&& old(self)@.needs_page()
                    &&& old(self)@.pages.fetches()
                    &&& client.spec_query() == old(self)@.pages.page_query()
                },
                None => !old(self)@.needs_page() || !old(self)@.pages.fetches(),
            },
    {
        if self.at_cap() || self.buffer.len() > 0 {
            return None;
        }
        self.page_stream.start_next()
    }

    /// The second half of fetching a page: takes what the fetch brought and
    /// returns what the step yields.
    ///
    /// The outcome is a step of the stream of pages in any case. An error is
    /// yielded. An empty page yields nothing: there are no more posts. Of a
    /// page of posts the first is yielded and the others are kept, in order,
    /// behind the posts that the stream may still hold. A stream that has
    /// yielded as many posts as it may, or whose stream of pages has ended,
    /// yields nothing and drops the page.
    pub fn finish_page(&mut self, outcome: Result<Vec<T::Post>, BooruError>) -> (r: Option<
        Result<T::Post, BooruError>,
    >)
        ensures
            final(self)@.pages == old(self)@.pages.finish(fetched_of(outcome)),
            final(self)@.max_posts == old(self)@.max_posts,
            match r {
                Some(Ok(post)) => {
                    &&& Self::keeps(old(self)@, outcome)
                    &&& post == (old(self)@.buffer + outcome->Ok_0@)[0]
                    &&& final(self)@.buffer == old(self)@.yielding(outcome->Ok_0@).buffer
                    &&& final(self)@.posts_yielded == count_after(old(self)@.posts_yielded)
                },
                Some(Err(e)) => {
                    &&& !old(self)@.pages.exhausted
                    &&& outcome == Err::<Vec<T::Post>, BooruError>(e)
                    &&& final(self)@.buffer == old(self)@.buffer
                    &&& final(self)@.posts_yielded == old(self)@.posts_yielded
                },
                None => {
                    &&& outcome is Err ==> old(self)@.pages.exhausted
                    &&& !Self::keeps(old(self)@, outcome)
                    &&& final(self)@.buffer == old(self)@.buffer
                    &&& final(self)@.posts_yielded == old(self)@.posts_yielded
                },
            },
            old(self)@.within_cap() ==> final(self)@.within_cap(),
    {
        let at_cap = self.at_cap();
        match self.page_stream.finish_next(outcome) {
            None => None,
            Some(Err(e)) => Some(Err(e)),
            Some(Ok(posts)) => {
                if posts.len() == 0 || at_cap {
                    return None;
                }
                let ghost page = posts@;
                enqueue(&mut self.buffer, posts);
                let ghost mid = self@;
                let post = self.pop();
                assert(mid.buffer + seq![] =~= old(self)@.buffer + page);
                Some(Ok(post))
            },
        }
    }

    /// One whole step, for a caller that holds what the fetch of the step
    /// brings before the step is taken: yields a post that the stream holds,
    /// or takes a step of the stream of pages with `outcome` for its fetch.
    /// Where the step fetches nothing, `outcome` is dropped.
    pub fn next_with(&mut self, outcome: Result<Vec<T::Post>, BooruError>) -> (r: Option<
        Result<T::Post, BooruError>,
    >)
        ensures
            final(self)@ == old(self)@.step(page_of(outcome)),
            match r {
                Some(Ok(post)) => !old(self)@.at_cap() && (if old(self)@.buffer.len() > 0 {
                    post == old(self)@.buffer[0]
                } else {
                    old(self)@.fetches() && outcome is Ok && outcome->Ok_0@.len() > 0 && post
                        == outcome->Ok_0@[0]
                }),
                Some(Err(e)) => old(self)@.fetches() && outcome == Err::<Vec<T::Post>, BooruError>(
                    e,
                ),
                None => old(self)@.at_cap() || (old(self)@.buffer.len() == 0 && (
                !old(self)@.pages.fetches() || (outcome is Ok && outcome->Ok_0@.len() == 0))),
            },
    {
        match self.next_buffered() {
            Buffered::Done => None,
            Buffered::Post(post) => Some(Ok(post)),
            Buffered::NeedPage => {
                match self.start_page() {
                    None => None,
                    Some(_) => {
                        let ghost page = page_of(outcome);
                        let r = self.finish_page(outcome);
                        proof {
                            if page is Some && page->Some_0.len() > 0 {
                                assert(old(self)@.buffer + page->Some_0 =~= page->Some_0);
                            }
                            assert(self@ =~= old(self)@.step(page));
                        }
                        r
                    },
                }
            },
        }
    }

    /// Whether the stream keeps the page that a fetch brought: the stream of
    /// pages has not ended, the stream is below its cap, and the page holds
    /// posts.
    pub open spec fn keeps(
        s: PostStreamView<T::Post>,
        outcome: Result<Vec<T::Post>, BooruError>,
    ) -> bool {
        &&& !s.pages.exhausted
        &&& !s.at_cap()
        &&& outcome is Ok
        &&& outcome->Ok_0@.len() > 0
    }
}

/// One step of collecting what a stream of posts yields.
///
/// A post is put behind the posts collected so far and the collection goes
/// on (`None`). The end of the stream ends the collection with what was
/// collected (`Some(Ok(()))`). An error ends it with that error
/// (`Some(Err(..))`), and what was collected up to it is dropped.
pub fn collect_step<P>(collected: &mut Vec<P>, yielded: Option<Result<P, BooruError>>) -> (r:
    Option<Result<(), BooruError>>)
    ensures
        match yielded {
            Some(Ok(post)) => r is None && final(collected)@ == old(collected)@.push(post),
            Some(Err(e)) => r == Some(Err::<(), BooruError>(e)) && final(collected)@
                == Seq::<P>::empty(),
            None => r == Some(Ok::<(), BooruError>(())) && final(collected)@ == old(collected)@,
        },
{
    match yielded {
        Some(Ok(post)) => {
            collected.push(post);
            None
        },
        Some(Err(e)) => {
            collected.clear();
            Some(Err(e))
        },
        None => Some(Ok(())),
    }
}

impl<T: Client> ClientBuilder<T> {
    /// Creates a stream that yields pages of posts, starting at the
    /// builder's page.
    #[must_use]
    pub fn into_page_stream(self) -> (r: PageStream<T>)
        ensures
            r@ == (PageStreamView {
                query: self@,
                current_page: self@.page,
                exhausted: false,
                max_pages: None,
            }),
    {
        PageStream::new(self)
    }

    /// Creates a stream that yields individual posts, starting at the
    /// builder's page.
    #[must_use]
    pub fn into_post_stream(self) -> (r: PostStream<T>)
        ensures
            r@ == (PostStreamView::<T::Post> {
                pages: PageStreamView {
                    query: self@,
                    current_page: self@.page,
                    exhausted: false,
                    max_pages: None,
                },
                buffer: seq![],
                posts_yielded: 0,
                max_posts: None,
            }),
            r@.within_cap(),
    {
        PostStream::new(self)
    }
}

} // verus!
