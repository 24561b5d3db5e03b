//! Search a public video index from the terminal, choose an entry and hand
//! it to a media player.
//!
//! This library holds the rules of the program: how a result is laid out as
//! a line for the terminal, which instances of the index can be used and
//! how one is picked, when the saved list of instances is still good, and
//! what is done next at each point of a run. It reads no file, opens no
//! connection and asks the user nothing: the program around it does that,
//! performs each action that the library names and reports what came of it.

/// The saved list of usable instances and its retention time.
pub mod cache;
/// The length of a video as a short text.
pub mod duration;
/// A run of the program, from the search terms to the player.
pub mod flow;
/// The instances of the index: which can be used, and which one is.
pub mod instance;
/// How an instance is resolved, from the saved list or from the directory.
pub mod resolver;
/// What a search finds, and how an entry is shown on one line.
pub mod search_result;
/// Text by characters: cutting, filling, trimming, joining.
pub mod text;
