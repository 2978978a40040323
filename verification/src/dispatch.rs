//! The dispatcher's decisions: which events become pipeline work, which
//! path is processed, and how long a task waits before reading the file.

use vstd::prelude::*;

use crate::events::{EventKind, FileEvent, FileEventView, actionable};
use crate::explain::ExplainError;
use crate::extract::ExtractError;

verus! {

/// How long a task waits after its event before invoking the OCR engine,
/// in milliseconds: long enough for a typical screenshot write to finish,
/// short enough to feel responsive.
pub const DEBOUNCE_MS: u64 = 200;

/// The path a qualifying event is processed on: its first reported path.
/// Non-creations and events without paths yield nothing — they are
/// discarded, and no extraction is invoked for them.
pub fn dispatch_target(e: &FileEvent) -> (r: Option<String>)
    ensures
        r is Some <==> actionable(e@),
        r matches Some(p) ==> p@ == e@.paths[0],
{
    match e.kind {
        EventKind::Create => {
            if e.paths.len() > 0 {
                Some(e.paths[0].clone())
            } else {
                None
            }
        },
        _ => None,
    }
}

/// What the watch loop receives on each turn: an event, a watch fault
/// (reported by the platform watcher and logged), or a closed channel.
pub enum WatcherMessage {
    Event(FileEvent),
    Fault,
    Closed,
}

/// The mathematical value of a [`WatcherMessage`].
pub enum WatcherMessageView {
    Event(FileEventView),
    Fault,
    Closed,
}

impl View for WatcherMessage {
    type V = WatcherMessageView;

    open spec fn view(&self) -> WatcherMessageView {
        match self {
            WatcherMessage::Event(e) => WatcherMessageView::Event(e@),
            WatcherMessage::Fault => WatcherMessageView::Fault,
            WatcherMessage::Closed => WatcherMessageView::Closed,
        }
    }
}

/// What the watch loop does after one received message.
pub enum WatchStep {
    /// Schedule a pipeline task for this path.
    Dispatch(String),
    /// Do nothing and wait for the next message.
    Ignore,
    /// Leave the loop: the event channel has closed.
    Stop,
}

/// One turn of the watch loop. An actionable event is dispatched on its
/// first path; any other event, and any watch fault, is ignored; a closed
/// channel stops the loop. Events are handled one at a time, in the order
/// received, so dispatch order follows delivery order.
pub fn watch_step(m: WatcherMessage) -> (r: WatchStep)
    ensures
        (m@ is Event && actionable(m@->Event_0)) <==> r is Dispatch,
        (m@ is Event && actionable(m@->Event_0)) ==> (r matches WatchStep::Dispatch(p) && p@
            == m@->Event_0.paths[0]),
        m@ is Closed <==> r is Stop,
{
    match m {
        WatcherMessage::Event(e) => {
            match dispatch_target(&e) {
                Some(p) => WatchStep::Dispatch(p),
                None => WatchStep::Ignore,
            }
        },
        WatcherMessage::Fault => WatchStep::Ignore,
        WatcherMessage::Closed => WatchStep::Stop,
    }
}

/// One result a task publishes to subscribers: extracted text, or an
/// explanation of it.
#[derive(Clone, Debug, PartialEq)]
pub enum Publication {
    Ocr(String),
    Explanation(String),
}

/// The mathematical value of a [`Publication`].
pub enum PublicationView {
    Ocr(Seq<char>),
    Explanation(Seq<char>),
}

impl View for Publication {
    type V = PublicationView;

    open spec fn view(&self) -> PublicationView {
        match self {
            Publication::Ocr(t) => PublicationView::Ocr(t@),
            Publication::Explanation(t) => PublicationView::Explanation(t@),
        }
    }
}

/// The values of a sequence of publications.
pub open spec fn publications_view(ps: Seq<Publication>) -> Seq<PublicationView> {
    ps.map_values(|p: Publication| p@)
}

/// What one task does after the extraction attempt: the OCR result to
/// publish, if any, and the text to send for explanation, if any.
pub struct TaskPlan {
    pub publish_ocr: Option<String>,
    pub explain_input: Option<String>,
}

/// The rest of a task, decided from the extraction outcome and the
/// configuration snapshot taken at that moment. A failed extraction ends
/// the task: nothing is published and no explanation call is made,
/// whatever `auto_explain` says. A successful extraction always publishes
/// the text, and sends it for explanation exactly when `auto_explain` is
/// set.
pub fn plan_after_extraction(extraction: &Result<String, ExtractError>, auto_explain: bool) -> (p:
    TaskPlan)
    ensures
        extraction is Err ==> p.publish_ocr is None && p.explain_input is None,
        extraction is Ok ==> (p.publish_ocr matches Some(t) && t@ == extraction->Ok_0@),
        p.explain_input is Some <==> (extraction is Ok && auto_explain),
        p.explain_input matches Some(t) ==> t@ == extraction->Ok_0@,
{
    match extraction {
        Err(_) => TaskPlan { publish_ocr: None, explain_input: None },
        Ok(text) => TaskPlan {
            publish_ocr: Some(text.clone()),
            explain_input: if auto_explain {
                Some(text.clone())
            } else {
                None
            },
        },
    }
}

/// The publication an explanation attempt adds: the explanation text on
/// success, nothing on failure — a failed explanation is swallowed.
pub fn publication_after_explanation(explanation: &Result<String, ExplainError>) -> (r: Option<
    Publication,
>)
    ensures
        r is Some <==> explanation is Ok,
        r matches Some(p) ==> p@ == PublicationView::Explanation(explanation->Ok_0@),
{
    match explanation {
        Ok(text) => Some(Publication::Explanation(text.clone())),
        Err(_) => None,
    }
}

/// Everything one event's task publishes, in order, as a function of the
/// extraction outcome, the configuration snapshot, and — when an
/// explanation was requested — the explanation outcome.
pub open spec fn task_publications(
    extraction: Result<Seq<char>, ExtractError>,
    auto_explain: bool,
    explanation: Result<Seq<char>, ExplainError>,
) -> Seq<PublicationView> {
    match extraction {
        Result::Err(_) => Seq::empty(),
        Result::Ok(t) => if auto_explain {
            match explanation {
                Result::Ok(e) => seq![PublicationView::Ocr(t), PublicationView::Explanation(e)],
                Result::Err(_) => seq![PublicationView::Ocr(t)],
            }
        } else {
            seq![PublicationView::Ocr(t)]
        },
    }
}

/// The value of an extraction or explanation outcome.
pub open spec fn outcome_view<E>(r: Result<String, E>) -> Result<Seq<char>, E> {
    match r {
        Result::Ok(t) => Result::Ok(t@),
        Result::Err(e) => Result::Err(e),
    }
}

/// The publications one event's task performs, assembled in the order the
/// task performs them: the OCR result first, then — only when extraction
/// succeeded, `auto_explain` was set, and the explanation succeeded — the
/// explanation.
pub fn event_publications(
    extraction: &Result<String, ExtractError>,
    auto_explain: bool,
    explanation: &Result<String, ExplainError>,
) -> (ps: Vec<Publication>)
    ensures
        publications_view(ps@) == task_publications(
            outcome_view(*extraction),
            auto_explain,
            outcome_view(*explanation),
        ),
{
    let mut ps: Vec<Publication> = Vec::new();
    let plan = plan_after_extraction(extraction, auto_explain);
    match plan.publish_ocr {
        Some(t) => ps.push(Publication::Ocr(t)),
        None => (),
    }
    if plan.explain_input.is_some() {
        match publication_after_explanation(explanation) {
            Some(p) => ps.push(p),
            None => (),
        }
    }
    proof {
        assert(publications_view(ps@) =~= task_publications(
            outcome_view(*extraction),
            auto_explain,
            outcome_view(*explanation),
        ));
    }
    ps
}

/// A failed extraction publishes nothing: no OCR result and, whatever
/// `auto_explain` says and whatever any explanation attempt would have
/// returned, no explanation.
pub proof fn lemma_failed_extraction_publishes_nothing(
    error: ExtractError,
    auto_explain: bool,
    explanation: Result<Seq<char>, ExplainError>,
)
    ensures
        task_publications(Result::Err(error), auto_explain, explanation) =~= Seq::<
            PublicationView,
        >::empty(),
{
}

/// A successful extraction with auto-explain off publishes exactly the OCR
/// result, whatever any explanation attempt would have returned.
pub proof fn lemma_no_auto_explain_publishes_ocr_only(
    text: Seq<char>,
    explanation: Result<Seq<char>, ExplainError>,
)
    ensures
        task_publications(Result::Ok(text), false, explanation) =~= seq![PublicationView::Ocr(text)],
{
}

/// A successful extraction with auto-explain on publishes the OCR result,
/// and on explanation success also the explanation, in that relative
/// order: the OCR result first, the explanation second.
pub proof fn lemma_auto_explain_publishes_in_order(text: Seq<char>, explanation: Seq<char>)
    ensures
        task_publications(Result::Ok(text), true, Result::Ok(explanation)) =~= seq![
            PublicationView::Ocr(text),
            PublicationView::Explanation(explanation),
        ],
        task_publications(Result::Ok(text), true, Result::Ok(explanation))[0] is Ocr,
        task_publications(Result::Ok(text), true, Result::Ok(explanation))[1] is Explanation,
{
}

/// A successful extraction with auto-explain on but a failed explanation
/// still publishes the OCR result, and nothing else.
pub proof fn lemma_failed_explanation_publishes_ocr_only(text: Seq<char>, error: ExplainError)
    ensures
        task_publications(Result::Ok(text), true, Result::Err(error)) =~= seq![
            PublicationView::Ocr(text),
        ],
{
}

} // verus!
