//! Fetching the feed page by page until enough stories are gathered.
//!
//! The caller asks for a number of stories and gets a `FeedFetch` with the
//! first request. Each page that comes back is handed to
//! `Api::get_recents_page`, which answers with the next request, with the
//! stories gathered, or with the error that ended the fetch. Nothing bounds
//! the number of pages, and nothing removes a story that comes twice.

use crate::answers::{IDENTITY_NOT_FOUND, UNREADABLE_ANSWER};
use crate::api::{outcome_view, Api, OutcomeView, Reply, Session, SessionState};
use crate::error::{result_view, ApiError, ApiErrorView};
use crate::request;
use crate::request::{stories_request, Request, RequestView};
use crate::types::{StoriesResponse, StoriesResponseView, Story, StoryView};
use vstd::prelude::*;
use vstd::string::StringExecFns;

verus! {

/// A fetch of the feed that is under way.
#[derive(Debug)]
pub struct FeedFetch {
    goal: u32,
    external_id: String,
    next_id: String,
    stories: Vec<Story>,
}

/// The mathematical value of a fetch: the number of stories asked for, the
/// account whose feed it is, the cursor of the page to ask for next, and the
/// stories gathered so far.
pub struct FeedView {
    pub goal: nat,
    pub external_id: Seq<char>,
    pub next_id: Seq<char>,
    pub stories: Seq<StoryView>,
}

impl View for FeedFetch {
    type V = FeedView;

    closed spec fn view(&self) -> FeedView {
        FeedView {
            goal: self.goal as nat,
            external_id: self.external_id@,
            next_id: self.next_id@,
            stories: self.stories.deep_view(),
        }
    }
}

impl DeepView for FeedFetch {
    type V = FeedView;

    open spec fn deep_view(&self) -> FeedView {
        self@
    }
}

/// What a fetch does next.
#[derive(Debug)]
pub enum FeedStep {
    /// More stories are needed: the fetch goes on with this request.
    More(FeedFetch, Request),
    /// Enough stories are gathered: these, with the cursor of the last page.
    Done(StoriesResponse),
    /// The fetch ended with an error.
    Failed(ApiError),
}

/// The mathematical value of a `FeedStep`.
pub enum FeedStepView {
    More(FeedView, RequestView),
    Done(StoriesResponseView),
    Failed(ApiErrorView),
}

impl View for FeedStep {
    type V = FeedStepView;

    open spec fn view(&self) -> FeedStepView {
        match self {
            FeedStep::More(fetch, request) => FeedStepView::More(fetch@, request@),
            FeedStep::Done(response) => FeedStepView::Done(response@),
            FeedStep::Failed(error) => FeedStepView::Failed(error@),
        }
    }
}

impl FeedView {
    /// A fetch of `goal` stories of the feed of `external_id`, before its
    /// first page, which follows `cursor`.
    pub open spec fn start(goal: nat, external_id: Seq<char>, cursor: Seq<char>) -> FeedView {
        FeedView { goal, external_id, next_id: cursor, stories: Seq::empty() }
    }

    /// The request for the next page.
    pub open spec fn request(self, bearer: Seq<char>) -> RequestView {
        stories_request(bearer, self.external_id, self.next_id)
    }

    /// The fetch after `page` came: its stories follow those gathered before,
    /// and its cursor is the one to go on from.
    pub open spec fn with_page(self, page: StoriesResponseView) -> FeedView {
        FeedView { next_id: page.next_id, stories: self.stories + page.stories, ..self }
    }

    /// Whether as many stories are gathered as were asked for.
    pub open spec fn satisfied(self) -> bool {
        self.stories.len() >= self.goal
    }

    /// What the fetch hands out at its end.
    pub open spec fn response(self) -> StoriesResponseView {
        StoriesResponseView { next_id: self.next_id, stories: self.stories }
    }

    /// What the fetch does after `page` came: it is done if the page
    /// satisfies it; if not it goes on with the cursor of the page, in a
    /// request that bears the token `bearer`.
    pub open spec fn taken(self, page: StoriesResponseView, bearer: Seq<char>) -> FeedStepView {
        let next = self.with_page(page);
        if next.satisfied() {
            FeedStepView::Done(next.response())
        } else {
            FeedStepView::More(next, next.request(bearer))
        }
    }

    /// What the fetch does after the request for the next page ended with
    /// `outcome`, in a session that was `session` before. An exchange that
    /// failed, or a body that is no page, ends the fetch with a
    /// `LoginFailure`. Otherwise the page is taken in.
    pub open spec fn step(self, session: Session, outcome: OutcomeView) -> FeedStepView {
        match outcome {
            Err(detail) => FeedStepView::Failed(ApiErrorView::LoginFailure(detail)),
            Ok(reply) => match StoriesResponse::in_body(reply.body) {
                None => FeedStepView::Failed(ApiErrorView::LoginFailure(UNREADABLE_ANSWER@)),
                Some(page) => self.taken(page, session.answered(outcome).bearer),
            },
        }
    }

    /// The fetch after `pages` pages were taken in, each asked for with the
    /// cursor of the one before, where `page_after` tells the page that
    /// follows a cursor.
    pub open spec fn gathered(
        self,
        page_after: spec_fn(Seq<char>) -> StoriesResponseView,
        pages: nat,
    ) -> FeedView
        decreases pages,
    {
        if pages == 0 {
            self
        } else {
            let before = self.gathered(page_after, (pages - 1) as nat);
            before.with_page(page_after(before.next_id))
        }
    }

    /// Where a fetch ends up when `server` answers its requests, if it is
    /// given up after `patience` further requests: the last step taken.
    pub open spec fn driven(
        self,
        session: Session,
        server: spec_fn(RequestView) -> OutcomeView,
        patience: nat,
    ) -> FeedStepView
        decreases patience,
    {
        let outcome = server(self.request(session.bearer));
        match self.step(session, outcome) {
            FeedStepView::More(next, request) => {
                if patience == 0 {
                    FeedStepView::More(next, request)
                } else {
                    next.driven(session.answered(outcome), server, (patience - 1) as nat)
                }
            },
            ended => ended,
        }
    }
}

/// Whether `server` answers every request for a page of the feed of
/// `external_id` with the page that `page_after` tells for the cursor asked.
pub open spec fn serves(
    server: spec_fn(RequestView) -> OutcomeView,
    external_id: Seq<char>,
    page_after: spec_fn(Seq<char>) -> StoriesResponseView,
) -> bool {
    forall|bearer: Seq<char>, cursor: Seq<char>|
        match #[trigger] server(stories_request(bearer, external_id, cursor)) {
            Ok(reply) => StoriesResponse::in_body(reply.body) == Some(page_after(cursor)),
            Err(_) => false,
        }
}

/// Taking in one page and then `pages` more is taking in `pages + 1`.
pub proof fn lemma_gathered_from_next(
    feed: FeedView,
    page_after: spec_fn(Seq<char>) -> StoriesResponseView,
    pages: nat,
)
    ensures
        feed.with_page(page_after(feed.next_id)).gathered(page_after, pages) == feed.gathered(
            page_after,
            pages + 1,
        ),
        feed.gathered(page_after, pages).goal == feed.goal,
        feed.gathered(page_after, pages).external_id == feed.external_id,
    decreases pages,
{
    if pages > 0 {
        lemma_gathered_from_next(feed, page_after, (pages - 1) as nat);
    } else {
        assert(feed.gathered(page_after, 1) == feed.gathered(page_after, 0).with_page(
            page_after(feed.gathered(page_after, 0).next_id),
        ));
    }
}

/// A fetch gets what it asks for whenever the server has it. If following
/// the cursors from the start for `pages` pages gathers as many stories as
/// the fetch asks for, then the fetch, driven by a server that serves those
/// pages, is done within `pages` requests. It stops at the first page that
/// satisfies it, and hands out all stories up to there, in the order of the
/// pages, with the cursor that this last page gave.
pub proof fn lemma_fetch_reaches_its_goal(
    feed: FeedView,
    session: Session,
    server: spec_fn(RequestView) -> OutcomeView,
    page_after: spec_fn(Seq<char>) -> StoriesResponseView,
    pages: nat,
)
    requires
        serves(server, feed.external_id, page_after),
        pages >= 1,
        feed.gathered(page_after, pages).satisfied(),
    ensures
        feed.driven(session, server, (pages - 1) as nat) is Done,
        feed.driven(session, server, (pages - 1) as nat)->Done_0.stories.len() >= feed.goal,
        exists|last: nat|
            {
                &&& 1 <= last <= pages
                &&& #[trigger] feed.gathered(page_after, last).response() == feed.driven(
                    session,
                    server,
                    (pages - 1) as nat,
                )->Done_0
                &&& feed.driven(session, server, (pages - 1) as nat)->Done_0.next_id == page_after(
                    feed.gathered(page_after, (last - 1) as nat).next_id,
                ).next_id
                &&& forall|earlier: nat|
                    1 <= earlier < last ==> !(#[trigger] feed.gathered(
                        page_after,
                        earlier,
                    )).satisfied()
            },
    decreases pages,
{
    let outcome = server(feed.request(session.bearer));
    let page = page_after(feed.next_id);
    let next = feed.with_page(page);
    assert(feed.gathered(page_after, 0) == feed);
    assert(feed.gathered(page_after, 1) == next);
    if !next.satisfied() {
        let rest = (pages - 1) as nat;
        lemma_gathered_from_next(feed, page_after, rest);
        lemma_fetch_reaches_its_goal(next, session.answered(outcome), server, page_after, rest);
        let end = next.driven(session.answered(outcome), server, (rest - 1) as nat);
        let last_of_rest = choose|last: nat|
            {
                &&& 1 <= last <= rest
                &&& #[trigger] next.gathered(page_after, last).response() == end->Done_0
                &&& end->Done_0.next_id == page_after(
                    next.gathered(page_after, (last - 1) as nat).next_id,
                ).next_id
                &&& forall|earlier: nat|
                    1 <= earlier < last ==> !(#[trigger] next.gathered(
                        page_after,
                        earlier,
                    )).satisfied()
            };
        let last = last_of_rest + 1;
        lemma_gathered_from_next(feed, page_after, last_of_rest);
        lemma_gathered_from_next(feed, page_after, (last_of_rest - 1) as nat);
        assert forall|earlier: nat| 1 <= earlier < last implies !(#[trigger] feed.gathered(
            page_after,
            earlier,
        )).satisfied() by {
            if earlier >= 2 {
                lemma_gathered_from_next(feed, page_after, (earlier - 1) as nat);
            }
        }
    }
}

impl FeedFetch {
    /// A fetch of `items_to_load` stories of the feed of `external_id`,
    /// before its first page, which follows `cursor`.
    pub fn begin(items_to_load: u32, external_id: &str, cursor: &str) -> (fetch: FeedFetch)
        ensures
            fetch@ == FeedView::start(items_to_load as nat, external_id@, cursor@),
    {
        let stories: Vec<Story> = Vec::new();
        assert(stories.deep_view() =~= Seq::<StoryView>::empty());
        FeedFetch {
            goal: items_to_load,
            external_id: String::from_str(external_id),
            next_id: String::from_str(cursor),
            stories,
        }
    }

    /// The request for the next page, which bears the token `bearer`.
    pub fn request(&self, bearer: &str) -> (request: Request)
        ensures
            request@ == self@.request(bearer@),
    {
        request::stories(bearer, self.external_id.as_str(), self.next_id.as_str())
    }

    /// Takes in a page, and tells what the fetch does next.
    pub fn take_page(self, page: StoriesResponse, bearer: &str) -> (step: FeedStep)
        ensures
            step@ == self@.taken(page@, bearer@),
    {
        let ghost before = self@;
        let ghost taken = page@;
        let mut fetch = self;
        let mut page = page;
        fetch.next_id = page.next_id;
        fetch.stories.append(&mut page.stories);
        assert(fetch.stories.deep_view() =~= before.stories + taken.stories);
        if fetch.stories.len() >= fetch.goal as usize {
            FeedStep::Done(StoriesResponse { next_id: fetch.next_id, stories: fetch.stories })
        } else {
            let request = fetch.request(bearer);
            FeedStep::More(fetch, request)
        }
    }
}

impl Api {
    /// How a fetch of `items_to_load` stories begins in the session
    /// `session`, with the cursor `prev` of an earlier fetch or, without one,
    /// at the top of the feed: with the request for the first page, or, where
    /// no identity was fetched yet, with `Unauthorized`.
    pub open spec fn recents_start(session: Session, items_to_load: u32, prev: Option<Seq<char>>)
        -> Result<(FeedView, RequestView), ApiErrorView> {
        match session.identity {
            None => Err(ApiErrorView::Unauthorized(IDENTITY_NOT_FOUND@)),
            Some(identity) => {
                let cursor = match prev {
                    Some(cursor) => cursor,
                    None => ""@,
                };
                let feed = FeedView::start(items_to_load as nat, identity.id, cursor);
                Ok((feed, feed.request(session.bearer)))
            },
        }
    }

    /// Begins a fetch of at least `items_to_load` stories of the feed of the
    /// signed-in user. At least one page is asked for, even where no story is.
    pub fn get_recents(&self, items_to_load: u32, prev: Option<&str>) -> (begun: Result<
        (FeedFetch, Request),
        ApiError,
    >)
        requires
            self@.state == SessionState::Ready,
        ensures
            result_view(begun) == Self::recents_start(self@, items_to_load, prev.deep_view()),
    {
        match self.identity() {
            None => Err(ApiError::Unauthorized(String::from_str(IDENTITY_NOT_FOUND))),
            Some(identity) => {
                let cursor = match prev {
                    Some(cursor) => cursor,
                    None => "",
                };
                let fetch = FeedFetch::begin(items_to_load, identity.id.as_str(), cursor);
                let request = fetch.request(self.bearer());
                Ok((fetch, request))
            },
        }
    }

    /// Takes in what came of the request for the next page of `fetch`, and
    /// tells what the fetch does next. A reply is absorbed.
    pub fn get_recents_page(&mut self, fetch: FeedFetch, outcome: Result<Reply, String>) -> (step:
        FeedStep)
        requires
            old(self)@.state == SessionState::Ready,
        ensures
            final(self)@ == old(self)@.answered(outcome_view(outcome)),
            step@ == fetch@.step(old(self)@, outcome_view(outcome)),
    {
        match outcome {
            Err(detail) => FeedStep::Failed(ApiError::LoginFailure(detail)),
            Ok(reply) => {
                self.set_cookies(&reply.set_cookies);
                match StoriesResponse::from_body(reply.body.as_str()) {
                    None => FeedStep::Failed(
                        ApiError::LoginFailure(String::from_str(UNREADABLE_ANSWER)),
                    ),
                    Some(page) => fetch.take_page(page, self.bearer()),
                }
            },
        }
    }
}

} // verus!
