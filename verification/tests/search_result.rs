use yt::search_result::{
    clamped, column_width, text_or, ResultKind, SearchResult, Thumb, AUTHOR_SHARE, DURATION_SHARE,
    MAX_LINE_WIDTH, NO_AUTHOR, NO_DATE, NO_TITLE, PUBLISHED_SHARE, SEPARATOR, THUMBNAIL_OFFSET,
    THUMBNAIL_QUALITY, THUMBNAIL_WIDTH, TITLE_SHARE, VIEWS_SHARE,
};

fn entry(kind: ResultKind) -> SearchResult {
    SearchResult {
        kind,
        title: None,
        id: None,
        author: None,
        thumbnails: None,
        description: None,
        view_count_text: None,
        length_seconds: None,
        published_text: None,
    }
}

fn video() -> SearchResult {
    SearchResult {
        kind: ResultKind::Video,
        title: Some("Rust in 100 seconds".to_string()),
        id: Some("5C_HPTJg5ek".to_string()),
        author: Some("Fireship".to_string()),
        thumbnails: None,
        description: Some("A quick tour".to_string()),
        view_count_text: Some("1.2M views".to_string()),
        length_seconds: Some(150),
        published_text: Some("2 years ago".to_string()),
    }
}

fn thumb(quality: &str, url: &str) -> Thumb {
    Thumb { quality: quality.to_string(), url: url.to_string(), width: 120, height: 90 }
}

#[test]
fn layout_constants() {
    assert_eq!(MAX_LINE_WIDTH, 90);
    assert_eq!(
        (TITLE_SHARE, DURATION_SHARE, VIEWS_SHARE, PUBLISHED_SHARE, AUTHOR_SHARE),
        (60, 7, 5, 8, 15)
    );
    assert_eq!(SEPARATOR, " | ");
    assert_eq!((NO_TITLE, NO_AUTHOR, NO_DATE), ("<no-title>", "<no-author>", "_"));
    assert_eq!((THUMBNAIL_QUALITY, THUMBNAIL_WIDTH, THUMBNAIL_OFFSET), ("default", 30, 4));
}

#[test]
fn text_or_gives_the_default_for_a_missing_text() {
    assert_eq!(text_or(&Some("here".to_string()), "gone"), "here");
    assert_eq!(text_or(&Some(String::new()), "gone"), "");
    assert_eq!(text_or(&None, "gone"), "gone");
}

#[test]
fn column_width_is_a_share_of_at_most_ninety() {
    assert_eq!(column_width(90, 60), 54);
    assert_eq!(column_width(90, 7), 6);
    assert_eq!(column_width(90, 5), 4);
    assert_eq!(column_width(90, 8), 7);
    assert_eq!(column_width(90, 15), 13);
    assert_eq!(column_width(40, 60), 24);
    assert_eq!(column_width(40, 7), 2);
    assert_eq!(column_width(40, 5), 2);
    assert_eq!(column_width(40, 8), 3);
    assert_eq!(column_width(40, 15), 6);
    assert_eq!(column_width(200, 60), 54);
    assert_eq!(column_width(200, 15), 13);
    assert_eq!(column_width(0, 60), 0);
    assert_eq!(column_width(89, 100), 89);
    assert_eq!(column_width(u16::MAX, 100), 90);
    assert_eq!(column_width(90, 0), 0);
}

#[test]
fn column_width_takes_any_percentage() {
    assert_eq!(column_width(90, 200), 180);
    assert_eq!(column_width(90, usize::MAX), (usize::MAX as u128 * 90 / 100) as usize);
}

#[test]
fn clamped_column_has_the_computed_width() {
    for width in [40u16, 90, 200] {
        for pct in [60usize, 7, 5, 8, 15] {
            for text in ["", "x", "Rust in 100 seconds", "日本語のタイトルはとても長い場合があります、とても長い、本当に長い、もっと長い、さらに長い"] {
                let column = clamped(text, pct, width);
                assert_eq!(column.chars().count(), column_width(width, pct));
            }
        }
    }
}

#[test]
fn clamped_cuts_between_characters() {
    assert_eq!(clamped("日本語のタイトル", 5, 90), "日本語の");
    assert_eq!(clamped("日本語のタイトル", 5, 40), "日本");
    assert_eq!(clamped("héllo", 5, 90), "héll");
    assert_eq!(clamped("hé", 5, 90), "hé  ");
    assert_eq!(clamped("2min30s", 7, 90), "2min30");
    assert_eq!(clamped("Fireship", 15, 200), "Fireship     ");
}

#[test]
fn video_line_at_ninety_columns() {
    let line = video().format(90);
    let expected = format!(
        "{} | {} | {} | {} | {} | {}",
        "Rust in 100 seconds                                   ",
        "2min30",
        "1.2M",
        "2 years",
        "Fireship     ",
        "A quick tour"
    );
    assert_eq!(line, expected);
    assert_eq!(line.chars().count(), 54 + 6 + 4 + 7 + 13 + 15 + 12);
}

#[test]
fn video_line_is_the_same_on_a_wider_terminal() {
    assert_eq!(video().format(200), video().format(90));
    assert_eq!(video().format(91), video().format(90));
}

#[test]
fn video_line_at_forty_columns() {
    assert_eq!(
        video().format(40),
        "Rust in 100 seconds      | 2m | 1. | 2 y | Firesh | A quick tour"
    );
}

#[test]
fn video_line_with_every_field_missing() {
    let line = entry(ResultKind::Video).format(90);
    let expected = format!(
        "{} | {} | {} | {} | {} | ",
        "<no-title>                                            ",
        "      ",
        "    ",
        "_      ",
        "<no-author>  "
    );
    assert_eq!(line, expected);
}

#[test]
fn video_line_on_a_terminal_of_no_width() {
    assert_eq!(video().format(0), " |  |  |  |  | A quick tour");
}

#[test]
fn video_line_keeps_the_description_uncut() {
    let mut v = video();
    let long = "d".repeat(300);
    v.description = Some(long.clone());
    let line = v.format(90);
    assert!(line.ends_with(&long));
    assert_eq!(line.chars().count(), 54 + 6 + 4 + 7 + 13 + 15 + 300);
}

#[test]
fn video_line_with_wide_characters_keeps_its_columns() {
    let mut v = video();
    v.title = Some("日本語のタイトル".to_string());
    v.author = Some("作者".to_string());
    let line: Vec<char> = v.format(90).chars().collect();
    assert_eq!(line.len(), 54 + 6 + 4 + 7 + 13 + 15 + 12);
    let title: String = line[..54].iter().collect();
    assert_eq!(title, format!("日本語のタイトル{}", " ".repeat(46)));
    let separator: String = line[54..57].iter().collect();
    assert_eq!(separator, " | ");
    let author: String = line[54 + 6 + 4 + 7 + 12..54 + 6 + 4 + 7 + 12 + 13].iter().collect();
    assert_eq!(author, format!("作者{}", " ".repeat(11)));
}

#[test]
fn playlist_line() {
    let mut p = entry(ResultKind::Playlist);
    p.title = Some("Learning Rust".to_string());
    p.author = Some("Somebody with a long name".to_string());
    p.length_seconds = Some(10);
    p.view_count_text = Some("3 views".to_string());
    assert_eq!(p.format(90), "<playlist> \"Learning Rust\" by Somebody with");
    assert_eq!(p.format(40), "<playlist> \"Learning Rust\" by Somebo");
    assert_eq!(entry(ResultKind::Playlist).format(90), "<playlist> \"<no-title>\" by <no-author>  ");
}

#[test]
fn line_of_an_unplayable_kind() {
    let mut c = entry(ResultKind::Other("channel".to_string()));
    assert_eq!(c.format(90), "<channel> <no-title>");
    c.title = Some("Some channel".to_string());
    c.author = Some("ignored".to_string());
    assert_eq!(c.format(90), "<channel> Some channel");
    assert_eq!(c.format(0), "<channel> Some channel");
    assert_eq!(entry(ResultKind::Other(String::new())).format(90), "<> <no-title>");
}

#[test]
fn kind_from_tag_and_back() {
    assert_eq!(ResultKind::from_tag("video"), ResultKind::Video);
    assert_eq!(ResultKind::from_tag("playlist"), ResultKind::Playlist);
    assert_eq!(ResultKind::from_tag("channel"), ResultKind::Other("channel".to_string()));
    assert_eq!(ResultKind::from_tag("Video"), ResultKind::Other("Video".to_string()));
    assert_eq!(ResultKind::from_tag(""), ResultKind::Other(String::new()));
    for tag in ["video", "playlist", "channel", "", "hashtag"] {
        assert_eq!(ResultKind::from_tag(tag).tag(), tag);
    }
}

#[test]
fn thumbnail_is_the_first_default_picture_of_a_video() {
    let mut v = video();
    assert_eq!(v.thumbnail_url(), None);
    v.thumbnails = Some(vec![]);
    assert_eq!(v.thumbnail_url(), None);
    v.thumbnails = Some(vec![thumb("maxres", "https://i/max.jpg"), thumb("high", "https://i/high.jpg")]);
    assert_eq!(v.thumbnail_url(), None);
    v.thumbnails = Some(vec![
        thumb("maxres", "https://i/max.jpg"),
        thumb("default", "https://i/default.jpg"),
        thumb("default", "https://i/second.jpg"),
    ]);
    assert_eq!(v.thumbnail_url(), Some("https://i/default.jpg".to_string()));
}

#[test]
fn only_a_video_has_a_thumbnail() {
    let thumbs = Some(vec![thumb("default", "https://i/default.jpg")]);
    let mut p = entry(ResultKind::Playlist);
    p.thumbnails = thumbs.clone();
    assert_eq!(p.thumbnail_url(), None);
    let mut c = entry(ResultKind::Other("channel".to_string()));
    c.thumbnails = thumbs;
    assert_eq!(c.thumbnail_url(), None);
}
