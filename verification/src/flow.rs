use crate::resolver::ResolveError;
use crate::search_result::{ResultKind, ResultKindView, SearchResult, SearchResultView, text_view};
use crate::text::{
    join_with_plus, joined_by_plus, plus_for_spaces, plus_for_spaces_of, texts_of, trim, trimmed,
};
use vstd::prelude::*;
use vstd::string::*;

verus! {

/// What stands between the base address of an instance and the query.
pub const SEARCH_PATH: &'static str = "/api/v1/search/?q=";

/// The address of a video, up to its identifier.
pub const WATCH_URL: &'static str = "https://youtube.com/watch?v=";

/// The address of a playlist, up to its identifier.
pub const PLAYLIST_URL: &'static str = "https://youtube.com/playlist?list=";

/// The program that plays what was chosen.
pub const PLAYER: &'static str = "mpv";

/// The query that a list of search terms makes: each term with `+` for its
/// spaces, the terms joined by `+`, and the white space at the two ends of
/// the whole taken away.
pub open spec fn query_of(terms: Seq<Seq<char>>) -> Seq<char> {
    trimmed(joined_by_plus(terms.map_values(|term: Seq<char>| plus_for_spaces_of(term))))
}

/// The address that asks the instance at `base` for the entries that match
/// `query`.
pub open spec fn search_url_of(base: Seq<char>, query: Seq<char>) -> Seq<char> {
    base + SEARCH_PATH@ + query
}

/// The address that the player is pointed at for an entry. Only a video or a
/// playlist that has an identifier can be played.
pub open spec fn target_url_of(entry: SearchResultView) -> Option<Seq<char>> {
    match (entry.kind, entry.id) {
        (ResultKindView::Video, Some(id)) => Some(WATCH_URL@ + id),
        (ResultKindView::Playlist, Some(id)) => Some(PLAYLIST_URL@ + id),
        _ => None,
    }
}

/// The query that the search terms make.
pub fn build_query(terms: &Vec<String>) -> (query: String)
    ensures
        query@ == query_of(texts_of(terms@)),
{
    let ghost wanted = texts_of(terms@).map_values(|term: Seq<char>| plus_for_spaces_of(term));
    let mut parts: Vec<String> = Vec::new();
    let mut i: usize = 0;
    while i < terms.len()
        invariant
            0 <= i <= terms.len(),
            parts@.len() == i,
            forall|j: int| 0 <= j < i ==> parts@[j]@ == plus_for_spaces_of(terms@[j]@),
        decreases terms.len() - i,
    {
        parts.push(plus_for_spaces(terms[i].as_str()));
        i = i + 1;
    }
    assert(texts_of(parts@) =~= wanted);
    let joined = join_with_plus(&parts);
    String::from_str(trim(joined.as_str()))
}

/// The address that asks the instance at `base` for the entries that match
/// `query`.
pub fn search_url(base: &str, query: &str) -> (url: String)
    ensures
        url@ == search_url_of(base@, query@),
{
    let mut url = String::from_str(base);
    url.append(SEARCH_PATH);
    url.append(query);
    url
}

/// The address that the player is pointed at for an entry, if it can be
/// played.
pub fn target_url(entry: &SearchResult) -> (url: Option<String>)
    ensures
        text_view(url) == target_url_of(entry@),
{
    match (&entry.kind, &entry.id) {
        (ResultKind::Video, Some(id)) => {
            let mut url = String::from_str(WATCH_URL);
            url.append(id.as_str());
            Some(url)
        },
        (ResultKind::Playlist, Some(id)) => {
            let mut url = String::from_str(PLAYLIST_URL);
            url.append(id.as_str());
            Some(url)
        },
        _ => None,
    }
}

/// Why a run was given up.
#[derive(Clone, Copy, Debug, PartialEq, Eq, Structural)]
pub enum FlowError {
    /// No instance could be resolved, for the reason given.
    NoInstance(ResolveError),
    /// The search request failed.
    SearchFailed,
    /// The answer to the search could not be read.
    ResultsUnreadable,
    /// An event came that the flow was not waiting for.
    OutOfTurn,
}

/// Where a run stands.
#[derive(Clone, Debug, PartialEq, Eq)]
pub enum FlowState {
    /// Nothing has happened yet.
    Idle,
    /// The query is made; waiting for an instance to send it to.
    Resolving { query: String },
    /// The search was sent; waiting for its answer.
    Searching,
    /// The entries are shown; waiting for the user to choose one.
    Selecting,
    /// An entry was chosen; waiting for the user to confirm it.
    Confirming { target: String },
    /// The player was started. The run is over.
    Launched,
    /// The run ended with nothing to play and nothing wrong.
    Cancelled,
    /// The run was given up.
    Failed,
}

/// Where a run stands, with its texts as sequences of characters.
pub enum FlowStateView {
    Idle,
    Resolving { query: Seq<char> },
    Searching,
    Selecting,
    Confirming { target: Seq<char> },
    Launched,
    Cancelled,
    Failed,
}

impl View for FlowState {
    type V = FlowStateView;

    open spec fn view(&self) -> FlowStateView {
        match self {
            FlowState::Idle => FlowStateView::Idle,
            FlowState::Resolving { query } => FlowStateView::Resolving { query: query@ },
            FlowState::Searching => FlowStateView::Searching,
            FlowState::Selecting => FlowStateView::Selecting,
            FlowState::Confirming { target } => FlowStateView::Confirming { target: target@ },
            FlowState::Launched => FlowStateView::Launched,
            FlowState::Cancelled => FlowStateView::Cancelled,
            FlowState::Failed => FlowStateView::Failed,
        }
    }
}

/// What the outside world reports to the flow.
#[derive(Clone, Debug, PartialEq, Eq)]
pub enum FlowEvent {
    /// The program was started with these search terms.
    Start(Vec<String>),
    /// An instance was resolved: its base address.
    Resolved(String),
    /// No instance could be resolved.
    ResolveFailed(ResolveError),
    /// The search was answered, with this many entries.
    Results(usize),
    /// The search request failed.
    SearchFailed,
    /// The answer to the search could not be read.
    ResultsUnreadable,
    /// The user chose this entry.
    Picked(SearchResult),
    /// The user left the list without choosing.
    PickCancelled,
    /// The user confirmed the chosen entry, or did not.
    Confirmed(bool),
}

/// What is reported to the flow, with texts as sequences of characters.
pub enum FlowEventView {
    Start(Seq<Seq<char>>),
    Resolved(Seq<char>),
    ResolveFailed(ResolveError),
    Results(usize),
    SearchFailed,
    ResultsUnreadable,
    Picked(SearchResultView),
    PickCancelled,
    Confirmed(bool),
}

impl View for FlowEvent {
    type V = FlowEventView;

    open spec fn view(&self) -> FlowEventView {
        match self {
            FlowEvent::Start(terms) => FlowEventView::Start(texts_of(terms@)),
            FlowEvent::Resolved(base) => FlowEventView::Resolved(base@),
            FlowEvent::ResolveFailed(error) => FlowEventView::ResolveFailed(*error),
            FlowEvent::Results(count) => FlowEventView::Results(*count),
            FlowEvent::SearchFailed => FlowEventView::SearchFailed,
            FlowEvent::ResultsUnreadable => FlowEventView::ResultsUnreadable,
            FlowEvent::Picked(entry) => FlowEventView::Picked(entry@),
            FlowEvent::PickCancelled => FlowEventView::PickCancelled,
            FlowEvent::Confirmed(yes) => FlowEventView::Confirmed(*yes),
        }
    }
}

/// What the flow asks the outside world to do next.
#[derive(Clone, Debug, PartialEq, Eq)]
pub enum FlowAction {
    /// Resolve an instance to search on.
    Resolve,
    /// Send the search for `query` to the address `url`.
    Search { query: String, url: String },
    /// Show the entries and let the user choose one.
    Select,
    /// Show the chosen entry, with the picture at `thumbnail` if there is one,
    /// and ask whether to go on.
    Confirm { entry: SearchResult, thumbnail: Option<String> },
    /// Hand over to the player, `PLAYER`, pointed at this address. The run
    /// is over.
    Launch { url: String },
    /// End the run: there is nothing to do and nothing wrong.
    Exit,
    /// Give the run up, for this reason.
    Abort(FlowError),
}

/// What the flow asks for, with texts as sequences of characters.
pub enum FlowActionView {
    Resolve,
    Search { query: Seq<char>, url: Seq<char> },
    Select,
    Confirm { entry: SearchResultView, thumbnail: Option<Seq<char>> },
    Launch { url: Seq<char> },
    Exit,
    Abort(FlowError),
}

impl View for FlowAction {
    type V = FlowActionView;

    open spec fn view(&self) -> FlowActionView {
        match self {
            FlowAction::Resolve => FlowActionView::Resolve,
            FlowAction::Search { query, url } => FlowActionView::Search {
                query: query@,
                url: url@,
            },
            FlowAction::Select => FlowActionView::Select,
            FlowAction::Confirm { entry, thumbnail } => FlowActionView::Confirm {
                entry: entry@,
                thumbnail: text_view(*thumbnail),
            },
            FlowAction::Launch { url } => FlowActionView::Launch { url: url@ },
            FlowAction::Exit => FlowActionView::Exit,
            FlowAction::Abort(error) => FlowActionView::Abort(*error),
        }
    }
}

/// The flow's rule: the state and the action that follow a state and an
/// event.
///
/// An empty query ends the run before anything is asked of the network. So
/// do an empty answer, a list left without a choice, and a chosen entry that
/// cannot be played. An entry that can be played is confirmed first; if the
/// user does not confirm, the list is shown again. A failure to resolve, to
/// search or to read the answer gives the run up, and so does an event that
/// the state is not waiting for.
pub open spec fn flow_next(state: FlowStateView, event: FlowEventView) -> (
    FlowStateView,
    FlowActionView,
) {
    match (state, event) {
        (FlowStateView::Idle, FlowEventView::Start(terms)) => if query_of(terms).len() == 0 {
            (FlowStateView::Cancelled, FlowActionView::Exit)
        } else {
            (FlowStateView::Resolving { query: query_of(terms) }, FlowActionView::Resolve)
        },
        (FlowStateView::Resolving { query }, FlowEventView::Resolved(base)) => (
            FlowStateView::Searching,
            FlowActionView::Search { query, url: search_url_of(base, query) },
        ),
        (FlowStateView::Resolving { .. }, FlowEventView::ResolveFailed(error)) => (
            FlowStateView::Failed,
            FlowActionView::Abort(FlowError::NoInstance(error)),
        ),
        (FlowStateView::Searching, FlowEventView::Results(count)) => if count == 0 {
            (FlowStateView::Cancelled, FlowActionView::Exit)
        } else {
            (FlowStateView::Selecting, FlowActionView::Select)
        },
        (FlowStateView::Searching, FlowEventView::SearchFailed) => (
            FlowStateView::Failed,
            FlowActionView::Abort(FlowError::SearchFailed),
        ),
        (FlowStateView::Searching, FlowEventView::ResultsUnreadable) => (
            FlowStateView::Failed,
            FlowActionView::Abort(FlowError::ResultsUnreadable),
        ),
        (FlowStateView::Selecting, FlowEventView::Picked(entry)) => match target_url_of(entry) {
            Some(target) => (
                FlowStateView::Confirming { target },
                FlowActionView::Confirm { entry, thumbnail: entry.thumbnail_url() },
            ),
            None => (FlowStateView::Cancelled, FlowActionView::Exit),
        },
        (FlowStateView::Selecting, FlowEventView::PickCancelled) => (
            FlowStateView::Cancelled,
            FlowActionView::Exit,
        ),
        (FlowStateView::Confirming { target }, FlowEventView::Confirmed(yes)) => if yes {
            (FlowStateView::Launched, FlowActionView::Launch { url: target })
        } else {
            (FlowStateView::Selecting, FlowActionView::Select)
        },
        _ => (FlowStateView::Failed, FlowActionView::Abort(FlowError::OutOfTurn)),
    }
}

/// One step of the flow: the state and the action that the rule names.
pub fn step(state: FlowState, event: FlowEvent) -> (r: (FlowState, FlowAction))
    ensures
        (r.0@, r.1@) == flow_next(state@, event@),
{
    match (state, event) {
        (FlowState::Idle, FlowEvent::Start(terms)) => {
            let query = build_query(&terms);
            if query.as_str().is_empty() {
                (FlowState::Cancelled, FlowAction::Exit)
            } else {
                (FlowState::Resolving { query }, FlowAction::Resolve)
            }
        },
        (FlowState::Resolving { query }, FlowEvent::Resolved(base)) => {
            let url = search_url(base.as_str(), query.as_str());
            (FlowState::Searching, FlowAction::Search { query, url })
        },
        (FlowState::Resolving { .. }, FlowEvent::ResolveFailed(error)) => (
            FlowState::Failed,
            FlowAction::Abort(FlowError::NoInstance(error)),
        ),
        (FlowState::Searching, FlowEvent::Results(count)) => {
            if count == 0 {
                (FlowState::Cancelled, FlowAction::Exit)
            } else {
                (FlowState::Selecting, FlowAction::Select)
            }
        },
        (FlowState::Searching, FlowEvent::SearchFailed) => (
            FlowState::Failed,
            FlowAction::Abort(FlowError::SearchFailed),
        ),
        (FlowState::Searching, FlowEvent::ResultsUnreadable) => (
            FlowState::Failed,
            FlowAction::Abort(FlowError::ResultsUnreadable),
        ),
        (FlowState::Selecting, FlowEvent::Picked(entry)) => match target_url(&entry) {
            Some(target) => {
                let thumbnail = entry.thumbnail_url();
                (FlowState::Confirming { target }, FlowAction::Confirm { entry, thumbnail })
            },
            None => (FlowState::Cancelled, FlowAction::Exit),
        },
        (FlowState::Selecting, FlowEvent::PickCancelled) => (
            FlowState::Cancelled,
            FlowAction::Exit,
        ),
        (FlowState::Confirming { target }, FlowEvent::Confirmed(yes)) => {
            if yes {
                (FlowState::Launched, FlowAction::Launch { url: target })
            } else {
                (FlowState::Selecting, FlowAction::Select)
            }
        },
        _ => (FlowState::Failed, FlowAction::Abort(FlowError::OutOfTurn)),
    }
}

/// Search terms that make an empty query end the run at once: nothing is
/// resolved and nothing is searched.
pub proof fn empty_query_exits(terms: Seq<Seq<char>>)
    requires
        query_of(terms).len() == 0,
    ensures
        flow_next(FlowStateView::Idle, FlowEventView::Start(terms)) == (
            FlowStateView::Cancelled,
            FlowActionView::Exit,
        ),
{
}

/// A chosen entry of a kind that cannot be played ends the run quietly,
/// whatever else the entry holds.
pub proof fn unplayable_kind_exits(entry: SearchResultView)
    requires
        entry.kind is Other,
    ensures
        flow_next(FlowStateView::Selecting, FlowEventView::Picked(entry)) == (
            FlowStateView::Cancelled,
            FlowActionView::Exit,
        ),
{
}

} // verus!
