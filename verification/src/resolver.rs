use crate::cache::{
    aged_of, encoded_of, load_of, lookup_view, saved_of, CacheError, CacheFileView, CacheStore,
    RETENTION_NANOS,
};
use crate::instance::{
    instances_of, pick_instance, picked_instance_is_usable, picked_of, usable_instance_is_listed,
    usable_uris, usable_uris_of, Instance, InstanceView,
};
use crate::text::texts_of;
use vstd::prelude::*;

verus! {

/// Why no instance could be resolved. Each of these ends the run.
#[derive(Clone, Copy, Debug, PartialEq, Eq, Structural)]
pub enum ResolveError {
    /// The cache file is fresh but does not hold a list of addresses.
    CorruptCache,
    /// The directory of instances could not be fetched.
    DirectoryUnavailable,
    /// The directory was fetched but is not a list of named instances.
    DirectoryUnreadable,
    /// The list could not be put into bytes or written to the cache file.
    CacheNotWritten,
    /// The list to pick from is empty.
    NoUsableInstance,
    /// An event came that the resolver was not waiting for.
    OutOfTurn,
}

/// Where the resolver stands.
#[derive(Clone, Debug, PartialEq, Eq)]
pub enum ResolveState {
    /// Waiting for the cache file to be read.
    Reading,
    /// Waiting for the directory of instances.
    Fetching,
    /// Waiting for the list to be written to the cache file.
    Saving(Vec<String>),
    /// An instance was chosen.
    Done,
    /// The run has failed.
    Failed,
}

/// Where the resolver stands, with its list as sequences of characters.
pub enum ResolveStateView {
    Reading,
    Fetching,
    Saving(Seq<Seq<char>>),
    Done,
    Failed,
}

impl View for ResolveState {
    type V = ResolveStateView;

    open spec fn view(&self) -> ResolveStateView {
        match self {
            ResolveState::Reading => ResolveStateView::Reading,
            ResolveState::Fetching => ResolveStateView::Fetching,
            ResolveState::Saving(list) => ResolveStateView::Saving(texts_of(list@)),
            ResolveState::Done => ResolveStateView::Done,
            ResolveState::Failed => ResolveStateView::Failed,
        }
    }
}

/// What the outside world reports to the resolver.
#[derive(Clone, Debug, PartialEq, Eq)]
pub enum ResolveEvent {
    /// The cache file was looked for, and this is what was found.
    CacheRead(CacheStore),
    /// The directory was fetched and read: its entries, each under its name.
    Directory(Vec<(String, Instance)>),
    /// The directory could not be fetched.
    DirectoryFailed,
    /// The directory was fetched but could not be read.
    DirectoryUnreadable,
    /// The list was written to the cache file.
    CacheSaved,
    /// The list could not be written to the cache file.
    CacheNotSaved,
}

/// What is reported to the resolver, with texts as sequences of characters
/// and the directory without the names of its entries.
pub enum ResolveEventView {
    CacheRead(Option<CacheFileView>),
    Directory(Seq<InstanceView>),
    DirectoryFailed,
    DirectoryUnreadable,
    CacheSaved,
    CacheNotSaved,
}

impl View for ResolveEvent {
    type V = ResolveEventView;

    open spec fn view(&self) -> ResolveEventView {
        match self {
            ResolveEvent::CacheRead(store) => ResolveEventView::CacheRead(store@),
            ResolveEvent::Directory(directory) => ResolveEventView::Directory(
                instances_of(directory@),
            ),
            ResolveEvent::DirectoryFailed => ResolveEventView::DirectoryFailed,
            ResolveEvent::DirectoryUnreadable => ResolveEventView::DirectoryUnreadable,
            ResolveEvent::CacheSaved => ResolveEventView::CacheSaved,
            ResolveEvent::CacheNotSaved => ResolveEventView::CacheNotSaved,
        }
    }
}

/// What the resolver asks the outside world to do next.
#[derive(Clone, Debug, PartialEq, Eq)]
pub enum ResolveAction {
    /// Look for the cache file and report what is there.
    ReadCache,
    /// Fetch the directory of instances.
    FetchDirectory,
    /// Write this store to disk: its list, in place of what the cache file
    /// held.
    SaveCache(CacheStore),
    /// The instance to use: its base address. The resolver is done.
    Use(String),
    /// Give up, for this reason.
    Fail(ResolveError),
}

/// What the resolver asks for, with texts as sequences of characters.
pub enum ResolveActionView {
    ReadCache,
    FetchDirectory,
    SaveCache(Option<CacheFileView>),
    Use(Seq<char>),
    Fail(ResolveError),
}

impl View for ResolveAction {
    type V = ResolveActionView;

    open spec fn view(&self) -> ResolveActionView {
        match self {
            ResolveAction::ReadCache => ResolveActionView::ReadCache,
            ResolveAction::FetchDirectory => ResolveActionView::FetchDirectory,
            ResolveAction::SaveCache(store) => ResolveActionView::SaveCache(store@),
            ResolveAction::Use(uri) => ResolveActionView::Use(uri@),
            ResolveAction::Fail(error) => ResolveActionView::Fail(*error),
        }
    }
}

/// The end of a run that has a list to pick from: the instance at the place
/// that `random` falls on, or a failure where the list is empty.
pub open spec fn chosen_of(list: Seq<Seq<char>>, random: nat) -> (
    ResolveStateView,
    ResolveActionView,
) {
    if list.len() == 0 {
        (ResolveStateView::Failed, ResolveActionView::Fail(ResolveError::NoUsableInstance))
    } else {
        (ResolveStateView::Done, ResolveActionView::Use(picked_of(list, random)))
    }
}

/// What follows a lookup in the cache: the pick where a list was found, a
/// fetch where none was, the end of the run where the file is corrupt.
pub open spec fn after_load_of(
    found: Result<Option<Seq<Seq<char>>>, CacheError>,
    random: nat,
) -> (ResolveStateView, ResolveActionView) {
    match found {
        Ok(Some(list)) => chosen_of(list, random),
        Ok(None) => (ResolveStateView::Fetching, ResolveActionView::FetchDirectory),
        Err(_) => (ResolveStateView::Failed, ResolveActionView::Fail(ResolveError::CorruptCache)),
    }
}

/// What follows the saving of a fetched list to a store: the store is to be
/// written to disk where the save succeeded, and the run ends where it did
/// not.
pub open spec fn after_save_of(
    list: Seq<Seq<char>>,
    store: Option<CacheFileView>,
    saved: bool,
) -> (ResolveStateView, ResolveActionView) {
    if saved {
        (ResolveStateView::Saving(list), ResolveActionView::SaveCache(store))
    } else {
        (ResolveStateView::Failed, ResolveActionView::Fail(ResolveError::CacheNotWritten))
    }
}

/// The resolver's rule: the state and the action that follow a state and an
/// event, where `random` is the number drawn for the pick.
///
/// The cached list is used where it is there and fresh. Otherwise the
/// directory is fetched, its usable instances are saved, all of them and
/// nothing else, and the pick is made among them. A corrupt cache, a
/// directory that cannot be had or read, a list that cannot be put into
/// bytes or saved and an empty list each end the run, and so does an event
/// that the state is not waiting for.
pub open spec fn resolve_next(state: ResolveStateView, event: ResolveEventView, random: nat) -> (
    ResolveStateView,
    ResolveActionView,
) {
    match (state, event) {
        (ResolveStateView::Reading, ResolveEventView::CacheRead(store)) => after_load_of(
            load_of(store),
            random,
        ),
        (ResolveStateView::Fetching, ResolveEventView::Directory(instances)) => after_save_of(
            usable_uris_of(instances),
            saved_of(None, usable_uris_of(instances)),
            encoded_of(usable_uris_of(instances)) is Some,
        ),
        (ResolveStateView::Fetching, ResolveEventView::DirectoryFailed) => (
            ResolveStateView::Failed,
            ResolveActionView::Fail(ResolveError::DirectoryUnavailable),
        ),
        (ResolveStateView::Fetching, ResolveEventView::DirectoryUnreadable) => (
            ResolveStateView::Failed,
            ResolveActionView::Fail(ResolveError::DirectoryUnreadable),
        ),
        (ResolveStateView::Saving(list), ResolveEventView::CacheSaved) => chosen_of(list, random),
        (ResolveStateView::Saving(_), ResolveEventView::CacheNotSaved) => (
            ResolveStateView::Failed,
            ResolveActionView::Fail(ResolveError::CacheNotWritten),
        ),
        _ => (ResolveStateView::Failed, ResolveActionView::Fail(ResolveError::OutOfTurn)),
    }
}

/// How a run begins: by asking for the cache file.
pub fn begin() -> (r: (ResolveState, ResolveAction))
    ensures
        r.0@ == ResolveStateView::Reading,
        r.1@ == ResolveActionView::ReadCache,
{
    (ResolveState::Reading, ResolveAction::ReadCache)
}

/// Ends a run with the pick from `list`: the instance at the place that
/// `random` falls on, or a failure where the list is empty.
pub fn choose_from(list: &Vec<String>, random: usize) -> (r: (ResolveState, ResolveAction))
    ensures
        (r.0@, r.1@) == chosen_of(texts_of(list@), random as nat),
{
    match pick_instance(list, random) {
        Some(uri) => (ResolveState::Done, ResolveAction::Use(uri)),
        None => (ResolveState::Failed, ResolveAction::Fail(ResolveError::NoUsableInstance)),
    }
}

/// What follows a lookup in the cache, given what the lookup found.
pub fn after_load(found: Result<Option<Vec<String>>, CacheError>, random: usize) -> (r: (
    ResolveState,
    ResolveAction,
))
    ensures
        (r.0@, r.1@) == after_load_of(lookup_view(found), random as nat),
{
    match found {
        Ok(Some(list)) => choose_from(&list, random),
        Ok(None) => (ResolveState::Fetching, ResolveAction::FetchDirectory),
        Err(_) => (ResolveState::Failed, ResolveAction::Fail(ResolveError::CorruptCache)),
    }
}

/// What follows the saving of the fetched `list` to `store`, given how the
/// save ended.
pub fn after_save(list: Vec<String>, store: CacheStore, saved: Result<(), CacheError>) -> (r: (
    ResolveState,
    ResolveAction,
))
    ensures
        (r.0@, r.1@) == after_save_of(texts_of(list@), store@, saved is Ok),
{
    match saved {
        Ok(()) => (ResolveState::Saving(list), ResolveAction::SaveCache(store)),
        Err(_) => (ResolveState::Failed, ResolveAction::Fail(ResolveError::CacheNotWritten)),
    }
}

/// One step of the resolver with the number for the pick given: the state
/// and the action that the rule names, and nothing else.
pub fn step(state: ResolveState, event: ResolveEvent, random: usize) -> (r: (
    ResolveState,
    ResolveAction,
))
    ensures
        (r.0@, r.1@) == resolve_next(state@, event@, random as nat),
{
    match (state, event) {
        (ResolveState::Reading, ResolveEvent::CacheRead(store)) => after_load(
            store.load(),
            random,
        ),
        (ResolveState::Fetching, ResolveEvent::Directory(directory)) => {
            let list = usable_uris(&directory);
            let mut store = CacheStore::missing();
            let saved = store.save(&list);
            after_save(list, store, saved)
        },
        (ResolveState::Fetching, ResolveEvent::DirectoryFailed) => (
            ResolveState::Failed,
            ResolveAction::Fail(ResolveError::DirectoryUnavailable),
        ),
        (ResolveState::Fetching, ResolveEvent::DirectoryUnreadable) => (
            ResolveState::Failed,
            ResolveAction::Fail(ResolveError::DirectoryUnreadable),
        ),
        (ResolveState::Saving(list), ResolveEvent::CacheSaved) => choose_from(&list, random),
        (ResolveState::Saving(_), ResolveEvent::CacheNotSaved) => (
            ResolveState::Failed,
            ResolveAction::Fail(ResolveError::CacheNotWritten),
        ),
        _ => (ResolveState::Failed, ResolveAction::Fail(ResolveError::OutOfTurn)),
    }
}

/// `rand::random::<usize>()` of the rand crate: a number drawn by the
/// thread's generator. Nothing is known of it beyond its type.
#[verifier::external_body]
fn random_number() -> (r: usize) {
    rand::random::<usize>()
}

/// One step of the resolver. The number for the pick is drawn here, so the
/// result is what the rule names for some number: which instance of a list
/// is chosen is left to chance, everything else is fixed.
pub fn advance(state: ResolveState, event: ResolveEvent) -> (r: (ResolveState, ResolveAction))
    ensures
        exists|random: nat| (r.0@, r.1@) == #[trigger] resolve_next(state@, event@, random),
{
    let random = random_number();
    let r = step(state, event, random);
    assert((r.0@, r.1@) == resolve_next(state@, event@, random as nat));
    r
}

/// A cache file older than the retention time makes the resolver fetch the
/// directory anew, whatever the file holds.
pub proof fn old_cache_is_refreshed(file: CacheFileView, random: nat)
    requires
        file.age_nanos > RETENTION_NANOS,
    ensures
        resolve_next(ResolveStateView::Reading, ResolveEventView::CacheRead(Some(file)), random)
            == (ResolveStateView::Fetching, ResolveActionView::FetchDirectory),
{
}

/// What the resolver saves after a fetch it finds again: read back no later
/// than the retention time after, the saved store gives the same list to pick
/// from, without another fetch.
pub proof fn saved_cache_is_used(
    instances: Seq<InstanceView>,
    elapsed: nat,
    first: nat,
    random: nat,
)
    requires
        elapsed <= RETENTION_NANOS,
    ensures
        ({
            let fetched = resolve_next(
                ResolveStateView::Fetching,
                ResolveEventView::Directory(instances),
                first,
            );
            fetched.1 matches ResolveActionView::SaveCache(store) ==> resolve_next(
                ResolveStateView::Reading,
                ResolveEventView::CacheRead(aged_of(store, elapsed)),
                random,
            ) == chosen_of(usable_uris_of(instances), random)
        }),
{
}

/// A run that fetches the directory picks among its usable instances and no
/// others, whatever numbers are drawn: the instance that it names is one of
/// them, and where the directory has one and the list was saved it does name
/// an instance.
pub proof fn resolved_instance_is_usable(instances: Seq<InstanceView>, first: nat, random: nat)
    ensures
        ({
            let fetched = resolve_next(
                ResolveStateView::Fetching,
                ResolveEventView::Directory(instances),
                first,
            );
            let last = resolve_next(fetched.0, ResolveEventView::CacheSaved, random);
            &&& last.1 matches ResolveActionView::Use(uri) ==> exists|i: int|
                0 <= i < instances.len() && (#[trigger] instances[i]).usable() && instances[i].uri
                    == uri
            &&& fetched.0 is Saving ==> (last.1 is Use <==> exists|i: int|
                0 <= i < instances.len() && (#[trigger] instances[i]).usable())
            &&& fetched.0 is Saving && !(last.1 is Use) ==> last.1 == ResolveActionView::Fail(
                ResolveError::NoUsableInstance,
            )
        }),
{
    if usable_uris_of(instances).len() > 0 {
        picked_instance_is_usable(instances, random);
    } else {
        assert forall|i: int| 0 <= i < instances.len() implies !(#[trigger] instances[i]).usable() by {
            if instances[i].usable() {
                usable_instance_is_listed(instances, i);
            }
        }
    }
}

} // verus!
