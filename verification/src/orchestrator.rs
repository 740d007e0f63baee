//! The run that answers one query: three page fetches in order, the prompt
//! composed from them, one call of the generation service.
//!
//! A run decides and the caller acts: each [`Action`] is performed by the
//! caller, which reports what came of it as an [`Event`] and is told the
//! next action.

use crate::error::{AiInterfaceError, ErrorKind, Failure};
use crate::extract::{outcome_view, page_text};
use crate::fetch::{
    fetch_step, is_fetch_failure, is_success, FetchEvent, FetchStep, FetchStepView,
};
use crate::generation::{
    generation_result, request_for, GenerationOutcome, GenerationRequest, RequestView,
};
use crate::interface::AiInterface;
use crate::prompt::{compose_prompt, prompt, source_url, source_urls, SOURCE_COUNT};
use vstd::prelude::*;
use vstd::string::*;

verus! {

/// Where a run stands.
#[derive(Clone, Copy, Debug, PartialEq, Eq, Structural)]
pub enum Stage {
    /// A page was requested and no response has come yet.
    Connecting,
    /// A response was accepted and its body is being read.
    Reading,
    /// The prompt was handed to the generation service.
    Generating,
    /// The run is over.
    Done,
}

/// What the caller reports to a run.
#[derive(Debug, PartialEq, Eq)]
pub enum Event {
    /// An event of the page fetch under way.
    Fetch(FetchEvent),
    /// The end of the call of the generation service.
    Generation(GenerationOutcome),
}

/// What a run asks of the caller.
#[derive(Debug, PartialEq, Eq)]
pub enum Action {
    /// Send a GET request to `url`.
    Fetch { url: String },
    /// Read the body of the response that was just reported.
    ReadBody,
    /// Call the generation service with `request`.
    Generate { request: GenerationRequest },
    /// Nothing more: the run is over, with the answer or with a failure.
    Finish { result: Result<String, AiInterfaceError> },
}

/// An `Action` as a mathematical value.
pub enum ActionView {
    Fetch { url: Seq<char> },
    ReadBody,
    Generate { request: RequestView },
    Finish { result: Result<Seq<char>, Failure> },
}

impl View for Action {
    type V = ActionView;

    open spec fn view(&self) -> ActionView {
        match self {
            Action::Fetch { url } => ActionView::Fetch { url: url@ },
            Action::ReadBody => ActionView::ReadBody,
            Action::Generate { request } => ActionView::Generate { request: request@ },
            Action::Finish { result } => ActionView::Finish { result: outcome_view(*result) },
        }
    }
}

/// The state of a run: the query, the texts of the pages fetched so far,
/// and the stage.
pub struct Run {
    query: String,
    pages: Vec<String>,
    stage: Stage,
}

/// A `Run` as a mathematical value.
pub struct RunView {
    pub query: Seq<char>,
    pub pages: Seq<Seq<char>>,
    pub stage: Stage,
}

impl View for Run {
    type V = RunView;

    closed spec fn view(&self) -> RunView {
        RunView {
            query: self.query@,
            pages: self.pages@.map_values(|page: String| page@),
            stage: self.stage,
        }
    }
}

impl RunView {
    /// Whether the stage fits the number of pages fetched: a page is
    /// awaited only while one is missing, and the generation service only
    /// once all are there.
    pub open spec fn well_formed(self) -> bool {
        match self.stage {
            Stage::Connecting | Stage::Reading => self.pages.len() < SOURCE_COUNT,
            Stage::Generating => self.pages.len() == SOURCE_COUNT,
            Stage::Done => self.pages.len() <= SOURCE_COUNT,
        }
    }

    /// This run at another stage.
    pub open spec fn at(self, stage: Stage) -> RunView {
        RunView { stage, ..self }
    }

    /// This run with one more page.
    pub open spec fn with_page(self, text: Seq<char>) -> RunView {
        RunView { pages: self.pages.push(text), ..self }
    }
}

/// What is said where a run is told of something it did not ask for.
pub const UNEXPECTED_EVENT: &'static str = "Unexpected event";

/// The failure of a run that was told of something it did not ask for.
pub open spec fn unexpected_event() -> Failure {
    Failure { kind: ErrorKind::General, message: UNEXPECTED_EVENT@ }
}

/// Whether an event answers the action that a run at `stage` last asked
/// for.
pub open spec fn expected(stage: Stage, event: Event) -> bool {
    match stage {
        Stage::Connecting => event matches Event::Fetch(e) && (e is SendFailed || e is Responded),
        Stage::Reading => event matches Event::Fetch(e) && (e is BodyFailed || e is BodyRead),
        Stage::Generating => event is Generation,
        Stage::Done => false,
    }
}

/// The run that a query starts, and its first action: the first page is
/// requested.
pub open spec fn start(query: Seq<char>) -> (RunView, ActionView) {
    (
        RunView { query, pages: Seq::empty(), stage: Stage::Connecting },
        ActionView::Fetch { url: source_urls()[0] },
    )
}

/// What follows the text of a page: the next page is requested, or, with
/// all pages there, the prompt is handed to the generation service.
pub open spec fn after_page(run: RunView) -> (RunView, ActionView) {
    if run.pages.len() < SOURCE_COUNT {
        (
            run.at(Stage::Connecting),
            ActionView::Fetch { url: source_urls()[run.pages.len() as int] },
        )
    } else {
        (
            run.at(Stage::Generating),
            ActionView::Generate {
                request: request_for(prompt(run.query, run.pages[0], run.pages[1], run.pages[2])),
            },
        )
    }
}

/// The run and the action that follow an event.
///
/// An event that does not answer the last action ends the run with a
/// `General` error. A failed fetch ends it with the failure of the fetch.
/// An accepted response asks for its body. The text of a page is kept,
/// and the next page or the generation follows. The end of the generation
/// ends the run with its result.
pub open spec fn next(run: RunView, event: Event) -> (RunView, ActionView) {
    if !expected(run.stage, event) {
        (run.at(Stage::Done), ActionView::Finish { result: Err(unexpected_event()) })
    } else {
        match event {
            Event::Fetch(fetch) => match fetch_step(fetch) {
                FetchStepView::ReadBody => (run.at(Stage::Reading), ActionView::ReadBody),
                FetchStepView::Done(Ok(text)) => after_page(run.with_page(text)),
                FetchStepView::Done(Err(failure)) => (
                    run.at(Stage::Done),
                    ActionView::Finish { result: Err(failure) },
                ),
            },
            Event::Generation(outcome) => (
                run.at(Stage::Done),
                ActionView::Finish { result: generation_result(outcome) },
            ),
        }
    }
}

impl Run {
    /// Where the run stands.
    pub fn stage(&self) -> (stage: Stage)
        ensures
            stage == self@.stage,
    {
        self.stage
    }

    /// How many pages were fetched so far.
    pub fn pages_fetched(&self) -> (count: usize)
        ensures
            count == self@.pages.len(),
    {
        self.pages.len()
    }

    /// Whether `event` answers the action that the run last asked for.
    pub fn expects(&self, event: &Event) -> (answer: bool)
        ensures
            answer == expected(self@.stage, *event),
    {
        match self.stage {
            Stage::Connecting => match event {
                Event::Fetch(FetchEvent::SendFailed { .. }) => true,
                Event::Fetch(FetchEvent::Responded { .. }) => true,
                _ => false,
            },
            Stage::Reading => match event {
                Event::Fetch(FetchEvent::BodyFailed { .. }) => true,
                Event::Fetch(FetchEvent::BodyRead { .. }) => true,
                _ => false,
            },
            Stage::Generating => match event {
                Event::Generation(_) => true,
                _ => false,
            },
            Stage::Done => false,
        }
    }

    /// Ends the run with `error`.
    fn fail(self, error: AiInterfaceError) -> (step: (Run, Action))
        ensures
            step.0@ == self@.at(Stage::Done),
            step.1@ == (ActionView::Finish { result: Err(error@) }),
    {
        (Run { query: self.query, pages: self.pages, stage: Stage::Done }, Action::Finish {
            result: Err(error),
        })
    }

    /// Keeps the text of a page and asks for what follows it.
    fn keep_page(self, interface: &AiInterface, text: String) -> (step: (Run, Action))
        ensures
            (step.0@, step.1@) == after_page(self@.with_page(text@)),
    {
        let ghost before = self@;
        let Run { query, pages, stage: _ } = self;
        let mut pages = pages;
        pages.push(text);
        assert(pages@.map_values(|page: String| page@) =~= before.pages.push(text@));
        if pages.len() < SOURCE_COUNT {
            let url = String::from_str(source_url(pages.len()));
            (Run { query, pages, stage: Stage::Connecting }, Action::Fetch { url })
        } else {
            let text = compose_prompt(
                query.as_str(),
                pages[0].as_str(),
                pages[1].as_str(),
                pages[2].as_str(),
            );
            let request = interface.generation_request(text);
            (Run { query, pages, stage: Stage::Generating }, Action::Generate { request })
        }
    }
}

impl AiInterface {
    /// Starts the run that answers `query`: the first page is requested.
    pub fn archie(&self, query: &str) -> (step: (Run, Action))
        ensures
            (step.0@, step.1@) == start(query@),
            step.0@.well_formed(),
    {
        let run = Run { query: String::from_str(query), pages: Vec::new(), stage: Stage::Connecting };
        assert(run@.pages =~= Seq::empty());
        (run, Action::Fetch { url: String::from_str(source_url(0)) })
    }

    /// Takes a run one step on: tells what follows `event`.
    pub fn advance(&self, run: Run, event: Event) -> (step: (Run, Action))
        ensures
            (step.0@, step.1@) == next(run@, event),
            run@.well_formed() ==> step.0@.well_formed(),
    {
        if !run.expects(&event) {
            return run.fail(AiInterfaceError::General(String::from_str(UNEXPECTED_EVENT)));
        }
        match event {
            Event::Fetch(fetch) => match self.scrape_website(fetch) {
                FetchStep::ReadBody => (
                    Run { query: run.query, pages: run.pages, stage: Stage::Reading },
                    Action::ReadBody,
                ),
                FetchStep::Done(Ok(text)) => run.keep_page(self, text),
                FetchStep::Done(Err(error)) => run.fail(error),
            },
            Event::Generation(outcome) => {
                let result = self.generate_text(outcome);
                (
                    Run { query: run.query, pages: run.pages, stage: Stage::Done },
                    Action::Finish { result },
                )
            },
        }
    }
}

/// The run reached from `run` by a sequence of events.
pub open spec fn run_after(run: RunView, events: Seq<Event>) -> RunView
    decreases events.len(),
{
    if events.len() == 0 {
        run
    } else {
        next(run_after(run, events.drop_last()), events.last()).0
    }
}

/// The action that answers the last of a sequence of events.
pub open spec fn action_after(run: RunView, events: Seq<Event>) -> ActionView
    recommends
        events.len() > 0,
{
    next(run_after(run, events.drop_last()), events.last()).1
}

/// Whether an event reports a failed page fetch.
pub open spec fn reports_fetch_failure(event: Event) -> bool {
    event matches Event::Fetch(fetch) && is_fetch_failure(fetch)
}

/// A step keeps a run well formed.
pub proof fn lemma_next_keeps_well_formed(run: RunView, event: Event)
    requires
        run.well_formed(),
    ensures
        next(run, event).0.well_formed(),
{
}

/// A failed fetch ends the run at once, with a `Request` error where the
/// run was fetching a page: no page is requested after it, and the
/// generation service is not called.
pub proof fn lemma_fetch_failure_ends_run(run: RunView, event: Event)
    requires
        reports_fetch_failure(event),
    ensures
        next(run, event).0.stage == Stage::Done,
        next(run, event).1 matches ActionView::Finish { result: Err(failure) } && (expected(
            run.stage,
            event,
        ) ==> failure.kind == ErrorKind::Request && failure == fetch_step(
            event->Fetch_0,
        )->Done_0->Err_0),
{
}

/// A run that is over stays over: whatever it is told, it asks for nothing
/// more.
pub proof fn lemma_done_is_final(run: RunView, event: Event)
    requires
        run.stage == Stage::Done,
    ensures
        next(run, event).0.stage == Stage::Done,
        next(run, event).1 is Finish,
{
}

/// A page is requested only in answer to the text of the page before it,
/// and it is the page that follows in the fixed order.
pub proof fn lemma_pages_in_order(run: RunView, event: Event)
    requires
        run.well_formed(),
        next(run, event).1 is Fetch,
    ensures
        run.stage == Stage::Reading,
        event matches Event::Fetch(fetch) && fetch is BodyRead,
        next(run, event).0.pages.len() == run.pages.len() + 1,
        next(run, event).0.pages.len() < SOURCE_COUNT,
        next(run, event).1->url == source_urls()[run.pages.len() as int + 1],
{
}

/// The generation service is called only once the third page was read,
/// and with the prompt composed from the query and the three pages in the
/// order of the fetches.
pub proof fn lemma_generation_follows_all_pages(run: RunView, event: Event)
    requires
        run.well_formed(),
        next(run, event).1 is Generate,
    ensures
        run.stage == Stage::Reading,
        run.pages.len() + 1 == SOURCE_COUNT,
        event matches Event::Fetch(fetch) && fetch is BodyRead,
        fetch_step(event->Fetch_0) matches FetchStepView::Done(Ok(text)) && next(
            run,
            event,
        ).1->request == request_for(prompt(run.query, run.pages[0], run.pages[1], text)),
{
}

/// The generation service is asked once in a run: whatever is reported
/// after the prompt was handed over, the run ends and asks for nothing
/// more.
pub proof fn lemma_generation_is_asked_once(run: RunView, event: Event, following: Event)
    requires
        next(run, event).1 is Generate,
    ensures
        next(next(run, event).0, following).0.stage == Stage::Done,
        next(next(run, event).0, following).1 is Finish,
{
}

/// Once a sequence of events has ended a run, every longer sequence leaves
/// it ended.
pub proof fn lemma_run_stays_done(run: RunView, events: Seq<Event>, ended: int)
    requires
        0 <= ended <= events.len(),
        run_after(run, events.take(ended)).stage == Stage::Done,
    ensures
        run_after(run, events).stage == Stage::Done,
    decreases events.len(),
{
    if ended == events.len() {
        assert(events.take(ended) =~= events);
    } else {
        assert(events.drop_last().take(ended) =~= events.take(ended));
        lemma_run_stays_done(run, events.drop_last(), ended);
    }
}

/// After a failed fetch every action of the run is `Finish`, whatever is
/// reported to it: the pages after the failing one are never requested,
/// and the generation service is never called.
pub proof fn lemma_nothing_follows_failure(
    run: RunView,
    events: Seq<Event>,
    failing: int,
    later: int,
)
    requires
        0 <= failing <= later < events.len(),
        reports_fetch_failure(events[failing]),
    ensures
        action_after(run, events.take(later + 1)) is Finish,
{
    let upto = events.take(later + 1);
    assert(upto.last() == events[later]);
    assert(upto.drop_last() =~= events.take(later));
    if failing == later {
        lemma_fetch_failure_ends_run(run_after(run, upto.drop_last()), upto.last());
    } else {
        let before = events.take(later);
        let failed = before.take(failing + 1);
        assert(failed =~= events.take(failing + 1));
        assert(failed.last() == events[failing]);
        lemma_fetch_failure_ends_run(run_after(run, failed.drop_last()), failed.last());
        lemma_run_stays_done(run, before, failing + 1);
        lemma_done_is_final(run_after(run, before), events[later]);
    }
}

/// Whether two events report a page fetched without failure: a response
/// with a status of the success class, then a body whose text is `text`.
pub open spec fn reports_page(accepted: Event, read: Event, text: Seq<char>) -> bool {
    &&& accepted matches Event::Fetch(FetchEvent::Responded { status, .. }) && is_success(status)
    &&& read matches Event::Fetch(FetchEvent::BodyRead { body }) && page_text(body@) == Ok::<
        Seq<char>,
        Failure,
    >(text)
}

/// Whether a sequence of events reports, pair by pair, the pages with the
/// given texts fetched without failure.
pub open spec fn reports_pages(events: Seq<Event>, texts: Seq<Seq<char>>) -> bool {
    &&& events.len() == 2 * texts.len()
    &&& forall|i: int|
        0 <= i < texts.len() ==> reports_page(events[2 * i], events[2 * i + 1], #[trigger] texts[i])
}

/// While every fetch succeeds, a run started by a query takes the pages in
/// the fixed order and skips nothing: after the texts of `k` pages it
/// holds exactly these, has asked for the next page if one is missing, and
/// with all three has handed to the generation service the prompt composed
/// from the query and the three texts in the order of the fetches.
pub proof fn lemma_pages_lead_to_generation(
    query: Seq<char>,
    events: Seq<Event>,
    texts: Seq<Seq<char>>,
)
    requires
        0 < texts.len() <= SOURCE_COUNT,
        reports_pages(events, texts),
    ensures
        run_after(start(query).0, events).query == query,
        run_after(start(query).0, events).pages == texts,
        texts.len() < SOURCE_COUNT ==> run_after(start(query).0, events).stage == Stage::Connecting
            && action_after(start(query).0, events) == (ActionView::Fetch {
            url: source_urls()[texts.len() as int],
        }),
        texts.len() == SOURCE_COUNT ==> run_after(start(query).0, events).stage
            == Stage::Generating && action_after(start(query).0, events) == (ActionView::Generate {
            request: request_for(prompt(query, texts[0], texts[1], texts[2])),
        }),
    decreases texts.len(),
{
    let first = start(query).0;
    let count = texts.len() as int;
    let accepted = events[2 * (count - 1)];
    let read = events[2 * (count - 1) + 1];
    let earlier_events = events.drop_last().drop_last();
    let earlier = texts.drop_last();
    assert(reports_page(accepted, read, texts[count - 1]));
    assert(events.last() == read);
    assert(events.drop_last().last() == accepted);
    let before = run_after(first, earlier_events);
    if count == 1 {
        assert(earlier_events =~= Seq::<Event>::empty());
        assert(before == first);
        assert(earlier =~= Seq::<Seq<char>>::empty());
    } else {
        assert forall|i: int| 0 <= i < earlier.len() implies reports_page(
            earlier_events[2 * i],
            earlier_events[2 * i + 1],
            #[trigger] earlier[i],
        ) by {
            assert(reports_page(events[2 * i], events[2 * i + 1], texts[i]));
        }
        lemma_pages_lead_to_generation(query, earlier_events, earlier);
    }
    assert(before.stage == Stage::Connecting);
    assert(before.pages == earlier);
    let reading = next(before, accepted).0;
    assert(run_after(first, events.drop_last()) == reading);
    assert(reading == before.at(Stage::Reading));
    assert(earlier.push(texts[count - 1]) =~= texts);
    assert(next(reading, read) == after_page(reading.with_page(texts[count - 1])));
}

} // verus!
