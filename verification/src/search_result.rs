use crate::duration::{duration_text, format_duration};
use crate::text::{first_word, first_word_of, fit_to_width, fitted, prefix, same_text};
use vstd::prelude::*;
use vstd::string::*;

verus! {

/// The widest line that is ever laid out, in characters.
pub const MAX_LINE_WIDTH: u16 = 90;

/// What stands between two columns of a line.
pub const SEPARATOR: &'static str = " | ";

/// What stands for a title that is missing.
pub const NO_TITLE: &'static str = "<no-title>";

/// What stands for an author that is missing.
pub const NO_AUTHOR: &'static str = "<no-author>";

/// What stands for a time of publication that is missing.
pub const NO_DATE: &'static str = "_";

/// The width to which the picture of a video is scaled, in characters.
pub const THUMBNAIL_WIDTH: u32 = 30;

/// The column at which the picture of a video begins.
pub const THUMBNAIL_OFFSET: u16 = 4;

/// The quality of the picture that is shown for a video.
pub const THUMBNAIL_QUALITY: &'static str = "default";

/// The share of the line that the title of a video gets, in percent.
pub const TITLE_SHARE: usize = 60;

/// The share of the line that the length of a video gets, in percent.
pub const DURATION_SHARE: usize = 7;

/// The share of the line that the view count of a video gets, in percent.
pub const VIEWS_SHARE: usize = 5;

/// The share of the line that the time of publication gets, in percent.
pub const PUBLISHED_SHARE: usize = 8;

/// The share of the line that the author gets, in percent.
pub const AUTHOR_SHARE: usize = 15;

/// The number of characters of the column that gets `pct` percent of the
/// line, on a terminal that is `terminal_width` characters wide. A line is
/// never laid out wider than `MAX_LINE_WIDTH`.
pub open spec fn column_width_of(terminal_width: nat, pct: nat) -> nat {
    (if terminal_width < MAX_LINE_WIDTH {
        terminal_width
    } else {
        MAX_LINE_WIDTH as nat
    }) * pct / 100
}

/// `s` as the column that gets `pct` percent of the line: cut to the column's
/// width, then filled with spaces to exactly that width.
pub open spec fn clamped_text(s: Seq<char>, pct: nat, terminal_width: nat) -> Seq<char> {
    fitted(s, column_width_of(terminal_width, pct))
}

/// The number of characters of the column that gets `pct` percent of the line.
pub fn column_width(terminal_width: u16, pct: usize) -> (w: usize)
    ensures
        w == column_width_of(terminal_width as nat, pct as nat),
{
    let line: u16 = if terminal_width < MAX_LINE_WIDTH {
        terminal_width
    } else {
        MAX_LINE_WIDTH
    };
    assert(line * pct <= 90 * pct) by (nonlinear_arith)
        requires
            0 <= line <= 90,
            0 <= pct,
    ;
    let wide: u128 = line as u128 * pct as u128 / 100;
    wide as usize
}

/// The text as the column that gets `pct` percent of the line: its first
/// characters, as many as the column has, then spaces up to the column's
/// width. The result has exactly that many characters.
pub fn clamped(s: &str, pct: usize, terminal_width: u16) -> (r: String)
    ensures
        r@ == clamped_text(s@, pct as nat, terminal_width as nat),
{
    fit_to_width(s, column_width(terminal_width, pct))
}

/// A column has exactly the width computed for it, whatever the text and the
/// terminal, and it begins with the text's own characters, whole and in
/// order, as many as fit.
pub proof fn clamped_has_column_width(s: Seq<char>, pct: nat, terminal_width: nat)
    ensures
        clamped_text(s, pct, terminal_width).len() == column_width_of(terminal_width, pct),
        prefix(s, column_width_of(terminal_width, pct)).is_prefix_of(
            clamped_text(s, pct, terminal_width),
        ),
        forall|i: int|
            prefix(s, column_width_of(terminal_width, pct)).len() <= i < column_width_of(
                terminal_width,
                pct,
            ) ==> clamped_text(s, pct, terminal_width)[i] == ' ',
{
}

/// What a search found: a video, a playlist, or a kind of entry that is
/// listed but cannot be played, with the tag it came under.
#[derive(Clone, Debug, PartialEq, Eq)]
pub enum ResultKind {
    Video,
    Playlist,
    Other(String),
}

/// A kind of entry, with its tag as a sequence of characters.
pub enum ResultKindView {
    Video,
    Playlist,
    Other(Seq<char>),
}

impl View for ResultKind {
    type V = ResultKindView;

    open spec fn view(&self) -> ResultKindView {
        match self {
            ResultKind::Video => ResultKindView::Video,
            ResultKind::Playlist => ResultKindView::Playlist,
            ResultKind::Other(tag) => ResultKindView::Other(tag@),
        }
    }
}

impl ResultKindView {
    /// A kind is well formed where it is the only kind with its tag: the tag
    /// of any other kind is neither that of a video nor that of a playlist.
    pub open spec fn well_formed(self) -> bool {
        self matches ResultKindView::Other(tag) ==> tag != "video"@ && tag != "playlist"@
    }
}

/// The kind that the tag `tag` stands for.
pub open spec fn kind_of_tag(tag: Seq<char>) -> ResultKindView {
    if tag == "video"@ {
        ResultKindView::Video
    } else if tag == "playlist"@ {
        ResultKindView::Playlist
    } else {
        ResultKindView::Other(tag)
    }
}

/// The tag that stands for the kind `kind`.
pub open spec fn tag_of_kind(kind: ResultKindView) -> Seq<char> {
    match kind {
        ResultKindView::Video => "video"@,
        ResultKindView::Playlist => "playlist"@,
        ResultKindView::Other(tag) => tag,
    }
}

impl ResultKind {
    /// The kind that a tag stands for: `video`, `playlist`, or any other.
    pub fn from_tag(tag: &str) -> (kind: ResultKind)
        ensures
            kind@ == kind_of_tag(tag@),
            kind@.well_formed(),
    {
        if same_text(tag, "video") {
            ResultKind::Video
        } else if same_text(tag, "playlist") {
            ResultKind::Playlist
        } else {
            ResultKind::Other(String::from_str(tag))
        }
    }

    /// The tag that stands for this kind.
    pub fn tag(&self) -> (tag: String)
        ensures
            tag@ == tag_of_kind(self@),
    {
        match self {
            ResultKind::Video => String::from_str("video"),
            ResultKind::Playlist => String::from_str("playlist"),
            ResultKind::Other(tag) => tag.clone(),
        }
    }
}

/// A tag names a well-formed kind, and that kind's tag is the tag again.
pub proof fn tag_of_kind_of_tag(tag: Seq<char>)
    ensures
        kind_of_tag(tag).well_formed(),
        tag_of_kind(kind_of_tag(tag)) == tag,
{
}

/// A well-formed kind is the kind that its own tag stands for.
pub proof fn kind_of_tag_of_kind(kind: ResultKindView)
    requires
        kind.well_formed(),
    ensures
        kind_of_tag(tag_of_kind(kind)) == kind,
{
    reveal_strlit("video");
    reveal_strlit("playlist");
    assert("video"@.len() != "playlist"@.len());
}

/// One of the pictures that stand for a video.
#[derive(Clone, Debug, PartialEq, Eq)]
pub struct Thumb {
    pub quality: String,
    pub url: String,
    pub width: u16,
    pub height: u16,
}

/// A picture of a video, with its texts as sequences of characters.
pub struct ThumbView {
    pub quality: Seq<char>,
    pub url: Seq<char>,
    pub width: u16,
    pub height: u16,
}

impl View for Thumb {
    type V = ThumbView;

    open spec fn view(&self) -> ThumbView {
        ThumbView { quality: self.quality@, url: self.url@, width: self.width, height: self.height }
    }
}

/// The view of a text that may be missing.
pub open spec fn text_view(text: Option<String>) -> Option<Seq<char>> {
    match text {
        Some(s) => Some(s@),
        None => None,
    }
}

/// The text, or `default` where it is missing.
pub open spec fn text_or_of(text: Option<Seq<char>>, default: Seq<char>) -> Seq<char> {
    match text {
        Some(s) => s,
        None => default,
    }
}

/// The text, or `default` where it is missing.
pub fn text_or<'a>(text: &'a Option<String>, default: &'a str) -> (r: &'a str)
    ensures
        r@ == text_or_of(text_view(*text), default@),
{
    match text {
        Some(s) => s.as_str(),
        None => default,
    }
}

/// The address of the first picture in `thumbs` whose quality is the one
/// that is shown.
pub open spec fn default_thumb_url(thumbs: Seq<ThumbView>) -> Option<Seq<char>>
    decreases thumbs.len(),
{
    if thumbs.len() == 0 {
        None
    } else if thumbs[0].quality == THUMBNAIL_QUALITY@ {
        Some(thumbs[0].url)
    } else {
        default_thumb_url(thumbs.skip(1))
    }
}

/// One entry of a search's answer. Only the kind is always there; every
/// other field may be missing.
#[derive(Clone, Debug, PartialEq, Eq)]
pub struct SearchResult {
    pub kind: ResultKind,
    pub title: Option<String>,
    pub id: Option<String>,
    pub author: Option<String>,
    pub thumbnails: Option<Vec<Thumb>>,
    pub description: Option<String>,
    pub view_count_text: Option<String>,
    pub length_seconds: Option<u32>,
    pub published_text: Option<String>,
}

/// An entry of a search's answer, with its texts as sequences of characters.
pub struct SearchResultView {
    pub kind: ResultKindView,
    pub title: Option<Seq<char>>,
    pub id: Option<Seq<char>>,
    pub author: Option<Seq<char>>,
    pub thumbnails: Option<Seq<ThumbView>>,
    pub description: Option<Seq<char>>,
    pub view_count_text: Option<Seq<char>>,
    pub length_seconds: Option<u32>,
    pub published_text: Option<Seq<char>>,
}

impl View for SearchResult {
    type V = SearchResultView;

    open spec fn view(&self) -> SearchResultView {
        SearchResultView {
            kind: self.kind@,
            title: text_view(self.title),
            id: text_view(self.id),
            author: text_view(self.author),
            thumbnails: match self.thumbnails {
                Some(thumbs) => Some(thumbs@.map_values(|t: Thumb| t@)),
                None => None,
            },
            description: text_view(self.description),
            view_count_text: text_view(self.view_count_text),
            length_seconds: self.length_seconds,
            published_text: text_view(self.published_text),
        }
    }
}

impl SearchResultView {
    /// The title, or a placeholder.
    pub open spec fn title_text(self) -> Seq<char> {
        text_or_of(self.title, NO_TITLE@)
    }

    /// The author, or a placeholder.
    pub open spec fn author_text(self) -> Seq<char> {
        text_or_of(self.author, NO_AUTHOR@)
    }

    /// The length as a short text; empty where the length is missing.
    pub open spec fn duration_column(self) -> Seq<char> {
        match self.length_seconds {
            Some(secs) => duration_text(secs as nat),
            None => Seq::empty(),
        }
    }

    /// The first word of the view count; empty where the count is missing.
    pub open spec fn views_column(self) -> Seq<char> {
        first_word_of(text_or_of(self.view_count_text, Seq::empty()))
    }

    /// When it was published, or a placeholder.
    pub open spec fn published_column(self) -> Seq<char> {
        text_or_of(self.published_text, NO_DATE@)
    }

    /// The line of a video: five columns of fixed width and the description,
    /// with the separator between each two.
    pub open spec fn video_line(self, terminal_width: nat) -> Seq<char> {
        clamped_text(self.title_text(), TITLE_SHARE as nat, terminal_width) + SEPARATOR@
            + clamped_text(self.duration_column(), DURATION_SHARE as nat, terminal_width)
            + SEPARATOR@ + clamped_text(self.views_column(), VIEWS_SHARE as nat, terminal_width)
            + SEPARATOR@ + clamped_text(
            self.published_column(),
            PUBLISHED_SHARE as nat,
            terminal_width,
        ) + SEPARATOR@ + clamped_text(self.author_text(), AUTHOR_SHARE as nat, terminal_width)
            + SEPARATOR@ + text_or_of(self.description, Seq::empty())
    }

    /// The line of a playlist: its title in quotes and its author as a column.
    pub open spec fn playlist_line(self, terminal_width: nat) -> Seq<char> {
        "<playlist> \""@ + self.title_text() + "\" by "@ + clamped_text(
            self.author_text(),
            AUTHOR_SHARE as nat,
            terminal_width,
        )
    }

    /// The line of any other kind: its tag in angle brackets and its title.
    pub open spec fn other_line(self, tag: Seq<char>) -> Seq<char> {
        "<"@ + tag + "> "@ + self.title_text()
    }

    /// The one line that shows this entry on a terminal that is
    /// `terminal_width` characters wide.
    pub open spec fn line(self, terminal_width: nat) -> Seq<char> {
        match self.kind {
            ResultKindView::Video => self.video_line(terminal_width),
            ResultKindView::Playlist => self.playlist_line(terminal_width),
            ResultKindView::Other(tag) => self.other_line(tag),
        }
    }

    /// The address of the picture to show before a video is played: the first
    /// one of the quality that is shown. Only a video has one.
    pub open spec fn thumbnail_url(self) -> Option<Seq<char>> {
        match (self.kind, self.thumbnails) {
            (ResultKindView::Video, Some(thumbs)) => default_thumb_url(thumbs),
            _ => None,
        }
    }
}

/// In the line of a video each of the five columns stands at its place with
/// the width computed for it, whatever the entry holds, and the description
/// follows the last separator uncut.
pub proof fn video_line_layout(entry: SearchResultView, terminal_width: nat)
    ensures
        ({
            let line = entry.video_line(terminal_width);
            let w1 = column_width_of(terminal_width, TITLE_SHARE as nat) as int;
            let w2 = column_width_of(terminal_width, DURATION_SHARE as nat) as int;
            let w3 = column_width_of(terminal_width, VIEWS_SHARE as nat) as int;
            let w4 = column_width_of(terminal_width, PUBLISHED_SHARE as nat) as int;
            let w5 = column_width_of(terminal_width, AUTHOR_SHARE as nat) as int;
            let rest = text_or_of(entry.description, Seq::empty());
            &&& line.len() == w1 + w2 + w3 + w4 + w5 + 15 + rest.len()
            &&& line.subrange(0, w1) == clamped_text(
                entry.title_text(),
                TITLE_SHARE as nat,
                terminal_width,
            )
            &&& line.subrange(w1 + 3, w1 + 3 + w2) == clamped_text(
                entry.duration_column(),
                DURATION_SHARE as nat,
                terminal_width,
            )
            &&& line.subrange(w1 + w2 + 6, w1 + w2 + 6 + w3) == clamped_text(
                entry.views_column(),
                VIEWS_SHARE as nat,
                terminal_width,
            )
            &&& line.subrange(w1 + w2 + w3 + 9, w1 + w2 + w3 + 9 + w4) == clamped_text(
                entry.published_column(),
                PUBLISHED_SHARE as nat,
                terminal_width,
            )
            &&& line.subrange(w1 + w2 + w3 + w4 + 12, w1 + w2 + w3 + w4 + 12 + w5) == clamped_text(
                entry.author_text(),
                AUTHOR_SHARE as nat,
                terminal_width,
            )
            &&& line.subrange(w1 + w2 + w3 + w4 + w5 + 15, line.len() as int) == rest
        }),
{
    reveal_strlit(" | ");
    clamped_has_column_width(entry.title_text(), TITLE_SHARE as nat, terminal_width);
    clamped_has_column_width(entry.duration_column(), DURATION_SHARE as nat, terminal_width);
    clamped_has_column_width(entry.views_column(), VIEWS_SHARE as nat, terminal_width);
    clamped_has_column_width(entry.published_column(), PUBLISHED_SHARE as nat, terminal_width);
    clamped_has_column_width(entry.author_text(), AUTHOR_SHARE as nat, terminal_width);
}

/// The line of a playlist ends with the author as a column of the width
/// computed for it, after the title, which is not cut.
pub proof fn playlist_line_layout(entry: SearchResultView, terminal_width: nat)
    ensures
        ({
            let line = entry.playlist_line(terminal_width);
            let w = column_width_of(terminal_width, AUTHOR_SHARE as nat) as int;
            let title = entry.title_text();
            &&& line.len() == 17 + title.len() + w
            &&& line.subrange(12, 12 + title.len() as int) == title
            &&& line.subrange(line.len() - w, line.len() as int) == clamped_text(
                entry.author_text(),
                AUTHOR_SHARE as nat,
                terminal_width,
            )
        }),
{
    reveal_strlit("<playlist> \"");
    reveal_strlit("\" by ");
    clamped_has_column_width(entry.author_text(), AUTHOR_SHARE as nat, terminal_width);
}

impl SearchResult {
    /// The one line that shows this entry on a terminal that is
    /// `terminal_width` characters wide. Every kind and every missing field
    /// has its line: nothing makes this fail.
    pub fn format(&self, terminal_width: u16) -> (r: String)
        ensures
            r@ == self@.line(terminal_width as nat),
    {
        let title = text_or(&self.title, NO_TITLE);
        let author = text_or(&self.author, NO_AUTHOR);
        proof {
            reveal_strlit("");
        }
        match &self.kind {
            ResultKind::Video => {
                let duration = match self.length_seconds {
                    Some(secs) => format_duration(secs),
                    None => String::new(),
                };
                let views = first_word(text_or(&self.view_count_text, ""));
                let published = text_or(&self.published_text, NO_DATE);
                let mut out = clamped(title, TITLE_SHARE, terminal_width);
                out.append(SEPARATOR);
                out.append(clamped(duration.as_str(), DURATION_SHARE, terminal_width).as_str());
                out.append(SEPARATOR);
                out.append(clamped(views, VIEWS_SHARE, terminal_width).as_str());
                out.append(SEPARATOR);
                out.append(clamped(published, PUBLISHED_SHARE, terminal_width).as_str());
                out.append(SEPARATOR);
                out.append(clamped(author, AUTHOR_SHARE, terminal_width).as_str());
                out.append(SEPARATOR);
                out.append(text_or(&self.description, ""));
                out
            },
            ResultKind::Playlist => {
                let mut out = String::from_str("<playlist> \"");
                out.append(title);
                out.append("\" by ");
                out.append(clamped(author, AUTHOR_SHARE, terminal_width).as_str());
                out
            },
            ResultKind::Other(tag) => {
                let mut out = String::from_str("<");
                out.append(tag.as_str());
                out.append("> ");
                out.append(title);
                out
            },
        }
    }

    /// The address of the picture to show before a video is played, if the
    /// entry is a video and has a picture of the quality that is shown.
    pub fn thumbnail_url(&self) -> (r: Option<String>)
        ensures
            text_view(r) == self@.thumbnail_url(),
    {
        match (&self.kind, &self.thumbnails) {
            (ResultKind::Video, Some(thumbs)) => {
                let ghost all = thumbs@.map_values(|t: Thumb| t@);
                assert(all.skip(0) == all);
                let mut i: usize = 0;
                while i < thumbs.len()
                    invariant
                        0 <= i <= thumbs.len(),
                        all == thumbs@.map_values(|t: Thumb| t@),
                        self@.thumbnail_url() == default_thumb_url(all.skip(i as int)),
                    decreases thumbs.len() - i,
                {
                    proof {
                        let rest = all.skip(i as int);
                        assert(rest[0] == thumbs@[i as int]@);
                        assert(rest.skip(1) == all.skip(i + 1));
                    }
                    if same_text(thumbs[i].quality.as_str(), THUMBNAIL_QUALITY) {
                        return Some(thumbs[i].url.clone());
                    }
                    i = i + 1;
                }
                None
            },
            _ => None,
        }
    }
}

} // verus!
