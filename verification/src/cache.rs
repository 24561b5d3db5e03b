use crate::text::{same_texts, texts_of};
use vstd::prelude::*;

verus! {

// What follows is taken on trust from the serde_json crate: Verus believes
// these contracts and does not read the bodies.

/// `serde_json::Error`: what the reader and the writer of JSON report when
/// they fail. Nothing is read from it.
#[verifier::external_type_specification]
#[verifier::external_body]
pub struct ExJsonError(serde_json::Error);

/// What `serde_json::from_slice`, asked for a list of strings, makes of
/// `bytes`: the list, or nothing where it reports an error.
pub uninterp spec fn list_of_json(bytes: Seq<u8>) -> Option<Seq<Seq<char>>>;

/// What `serde_json::to_vec` makes of a list of strings: the bytes, or
/// nothing where it reports an error.
pub uninterp spec fn json_of_list(list: Seq<Seq<char>>) -> Option<Seq<u8>>;

/// `serde_json::from_slice` for a list of strings. What it accepts as such a
/// list is the grammar of JSON; the contract gives its answer a name and says
/// no more.
#[verifier::external_body]
fn from_json(bytes: &Vec<u8>) -> (r: Result<Vec<String>, serde_json::Error>)
    ensures
        match r {
            Ok(list) => list_of_json(bytes@) == Some(texts_of(list@)),
            Err(_) => list_of_json(bytes@) is None,
        },
{
    serde_json::from_slice::<Vec<String>>(bytes)
}

/// `serde_json::to_vec` for a list of strings. The contract gives its answer
/// a name and says no more: not even that it succeeds.
#[verifier::external_body]
fn to_json(list: &Vec<String>) -> (r: Result<Vec<u8>, serde_json::Error>)
    ensures
        match r {
            Ok(bytes) => json_of_list(texts_of(list@)) == Some(bytes@),
            Err(_) => json_of_list(texts_of(list@)) is None,
        },
{
    serde_json::to_vec(list)
}

// From here on every function is verified.

/// How long a saved list is used before it is fetched anew: fourteen days,
/// in nanoseconds.
pub const RETENTION_NANOS: u128 = 14 * 24 * 60 * 60 * 1_000_000_000;

/// The directory of the cache file, below the user's home directory.
pub const CACHE_DIR: &'static str = ".cache/yt";

/// The name of the cache file in its directory.
pub const CACHE_FILE: &'static str = "invidious_instances.json";

/// The cache file as it is on disk: how long ago it was written, and the
/// bytes it holds.
#[derive(Clone, Debug, PartialEq, Eq)]
pub struct CacheFile {
    pub age_nanos: u128,
    pub content: Vec<u8>,
}

/// The cache file, with its age as a natural number and its content as a
/// sequence of bytes.
pub struct CacheFileView {
    pub age_nanos: nat,
    pub content: Seq<u8>,
}

impl View for CacheFile {
    type V = CacheFileView;

    open spec fn view(&self) -> CacheFileView {
        CacheFileView { age_nanos: self.age_nanos as nat, content: self.content@ }
    }
}

/// The one file in which the list of usable instances is kept between runs.
/// There may be no such file yet.
#[derive(Clone, Debug, PartialEq, Eq)]
pub struct CacheStore {
    pub file: Option<CacheFile>,
}

impl View for CacheStore {
    type V = Option<CacheFileView>;

    open spec fn view(&self) -> Option<CacheFileView> {
        match self.file {
            Some(file) => Some(file@),
            None => None,
        }
    }
}

/// What can go wrong with the cache file.
#[derive(Clone, Copy, Debug, PartialEq, Eq, Structural)]
pub enum CacheError {
    /// The file is fresh but does not hold a list of addresses.
    Corrupt,
    /// The list could not be put into bytes that read back as the list.
    NotEncoded,
}

/// The view of a list that may be missing.
pub open spec fn list_view(list: Option<Vec<String>>) -> Option<Seq<Seq<char>>> {
    match list {
        Some(list) => Some(texts_of(list@)),
        None => None,
    }
}

/// The view of what a lookup returns.
pub open spec fn lookup_view(r: Result<Option<Vec<String>>, CacheError>) -> Result<
    Option<Seq<Seq<char>>>,
    CacheError,
> {
    match r {
        Ok(list) => Ok(list_view(list)),
        Err(e) => Err(e),
    }
}

/// What a lookup makes of a file of the age `age_nanos` whose content reads
/// as `decoded`. A file written more than the retention time ago, whatever it
/// holds: nothing. A fresh file with a list: the list. A fresh file that
/// holds no list: the error.
pub open spec fn lookup_of(age_nanos: nat, decoded: Option<Seq<Seq<char>>>) -> Result<
    Option<Seq<Seq<char>>>,
    CacheError,
> {
    if age_nanos > RETENTION_NANOS {
        Ok(None)
    } else {
        match decoded {
            Some(list) => Ok(Some(list)),
            None => Err(CacheError::Corrupt),
        }
    }
}

/// What a lookup finds in the store: nothing where there is no file, else
/// what the file's age and content give.
pub open spec fn load_of(store: Option<CacheFileView>) -> Result<
    Option<Seq<Seq<char>>>,
    CacheError,
> {
    match store {
        None => Ok(None),
        Some(file) => lookup_of(file.age_nanos, list_of_json(file.content)),
    }
}

/// Whether `bytes` can stand for `list`: they can where they read back as
/// that very list.
pub open spec fn accepted_of(list: Seq<Seq<char>>, read_back: Option<Seq<Seq<char>>>) -> bool {
    read_back == Some(list)
}

/// The bytes under which `list` is saved: what the writer makes of it,
/// provided that the reader makes the same list of them again.
pub open spec fn encoded_of(list: Seq<Seq<char>>) -> Option<Seq<u8>> {
    match json_of_list(list) {
        Some(bytes) => if accepted_of(list, list_of_json(bytes)) {
            Some(bytes)
        } else {
            None
        },
        None => None,
    }
}

/// The store after `list` was saved to it: a file of age zero that holds the
/// bytes of the list. Where the list has no such bytes the store is as it
/// was.
pub open spec fn saved_of(store: Option<CacheFileView>, list: Seq<Seq<char>>) -> Option<
    CacheFileView,
> {
    match encoded_of(list) {
        Some(bytes) => Some(CacheFileView { age_nanos: 0, content: bytes }),
        None => store,
    }
}

/// The store as it is `nanos` nanoseconds later.
pub open spec fn aged_of(store: Option<CacheFileView>, nanos: nat) -> Option<CacheFileView> {
    match store {
        None => None,
        Some(file) => Some(
            CacheFileView { age_nanos: file.age_nanos + nanos, content: file.content },
        ),
    }
}

/// Reads bytes as a list of addresses, if they hold one.
pub fn decode(bytes: &Vec<u8>) -> (r: Option<Vec<String>>)
    ensures
        list_view(r) == list_of_json(bytes@),
{
    match from_json(bytes) {
        Ok(list) => Some(list),
        Err(_) => None,
    }
}

/// What a lookup makes of a file of the age `age_nanos` whose content was
/// read as `decoded`. The age is judged against the retention time first: of
/// a file that is too old the content plays no part.
pub fn lookup(age_nanos: u128, decoded: Option<Vec<String>>) -> (r: Result<
    Option<Vec<String>>,
    CacheError,
>)
    ensures
        lookup_view(r) == lookup_of(age_nanos as nat, list_view(decoded)),
{
    if age_nanos > RETENTION_NANOS {
        Ok(None)
    } else {
        match decoded {
            Some(list) => Ok(Some(list)),
            None => Err(CacheError::Corrupt),
        }
    }
}

/// Whether bytes that read back as `read_back` can stand for `list`.
pub fn accept(list: &Vec<String>, read_back: &Option<Vec<String>>) -> (r: bool)
    ensures
        r == accepted_of(texts_of(list@), list_view(*read_back)),
{
    match read_back {
        Some(back) => same_texts(back, list),
        None => false,
    }
}

/// Puts a list of addresses into bytes. The bytes are read back before they
/// are handed out: what this returns is known to read as the list again.
pub fn encode(list: &Vec<String>) -> (r: Result<Vec<u8>, CacheError>)
    ensures
        match encoded_of(texts_of(list@)) {
            Some(bytes) => r matches Ok(found) && found@ == bytes,
            None => r == Err::<Vec<u8>, CacheError>(CacheError::NotEncoded),
        },
{
    match to_json(list) {
        Ok(bytes) => {
            let read_back = decode(&bytes);
            if accept(list, &read_back) {
                Ok(bytes)
            } else {
                Err(CacheError::NotEncoded)
            }
        },
        Err(_) => Err(CacheError::NotEncoded),
    }
}

impl CacheStore {
    /// The store when there is no cache file.
    pub fn missing() -> (store: CacheStore)
        ensures
            store@ is None,
    {
        CacheStore { file: None }
    }

    /// The store when there is a cache file, written `age_nanos` nanoseconds
    /// ago, with the bytes read from it.
    pub fn found(age_nanos: u128, content: Vec<u8>) -> (store: CacheStore)
        ensures
            store@ == Some(CacheFileView { age_nanos: age_nanos as nat, content: content@ }),
    {
        CacheStore { file: Some(CacheFile { age_nanos, content }) }
    }

    /// Looks the list up. The age is judged once, here, against the
    /// retention time; a file that is too old is not read at all.
    pub fn load(&self) -> (r: Result<Option<Vec<String>>, CacheError>)
        ensures
            lookup_view(r) == load_of(self@),
    {
        match &self.file {
            None => Ok(None),
            Some(file) => {
                if file.age_nanos > RETENTION_NANOS {
                    Ok(None)
                } else {
                    lookup(file.age_nanos, decode(&file.content))
                }
            },
        }
    }

    /// Saves `list` in place of whatever the store held. Where the list
    /// cannot be put into bytes the store stays as it was.
    pub fn save(&mut self, list: &Vec<String>) -> (r: Result<(), CacheError>)
        ensures
            final(self)@ == saved_of(old(self)@, texts_of(list@)),
            r is Ok <==> encoded_of(texts_of(list@)) is Some,
            r is Err ==> r == Err::<(), CacheError>(CacheError::NotEncoded),
    {
        match encode(list) {
            Ok(content) => {
                self.file = Some(CacheFile { age_nanos: 0, content });
                Ok(())
            },
            Err(error) => Err(error),
        }
    }
}

/// A list that was saved is found again, equal, as long as no more than the
/// retention time has passed since. A save succeeds exactly where the list
/// has bytes to be saved under.
pub proof fn saved_list_is_loaded(
    store: Option<CacheFileView>,
    list: Seq<Seq<char>>,
    elapsed: nat,
)
    requires
        elapsed <= RETENTION_NANOS,
    ensures
        encoded_of(list) is Some ==> load_of(aged_of(saved_of(store, list), elapsed)) == Ok::<
            Option<Seq<Seq<char>>>,
            CacheError,
        >(Some(list)),
{
}

/// A file older than the retention time counts as missing, whatever it
/// holds.
pub proof fn old_file_is_a_miss(file: CacheFileView)
    requires
        file.age_nanos > RETENTION_NANOS,
    ensures
        load_of(Some(file)) == load_of(None),
        load_of(Some(file)) == Ok::<Option<Seq<Seq<char>>>, CacheError>(None),
{
}

} // verus!
