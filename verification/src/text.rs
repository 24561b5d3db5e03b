use pad::PadStr;
use vstd::prelude::*;
use vstd::std_specs::iter::IteratorSpec;
use vstd::string::*;

verus! {

// What follows is taken on trust from std and from the pad crate: Verus
// believes these contracts and does not read the bodies.

/// `String::push` of std: the character is added at the end.
#[verifier::external_body]
fn push_char(s: &mut String, c: char)
    ensures
        final(s)@ == old(s)@.push(c),
{
    s.push(c)
}

/// Whether std counts `c` as white space: what `char::is_whitespace` returns
/// for it.
pub uninterp spec fn white_space(c: char) -> bool;

/// `char::is_whitespace` of std. Which characters it accepts is a table of
/// the Unicode standard; the contract gives its answer a name and says no
/// more.
#[verifier::external_body]
fn is_white_space(c: char) -> (b: bool)
    ensures
        b == white_space(c),
{
    c.is_whitespace()
}

/// What `PadStr::pad_to_width` of the pad crate returns for the text `s` and
/// the width `width`.
pub uninterp spec fn padded_to_width(s: Seq<char>, width: nat) -> Seq<char>;

/// `PadStr::pad_to_width` of the pad crate. It returns the text followed by
/// spaces and nothing else. How many spaces depends on the number of terminal
/// columns that the text takes, which is not the number of its characters:
/// the contract leaves the count open, but for the empty text, which takes no
/// column and so comes back as `width` spaces.
#[verifier::external_body]
fn pad_to_width(s: &str, width: usize) -> (r: String)
    ensures
        r@ == padded_to_width(s@, width as nat),
        s@.is_prefix_of(r@),
        forall|i: int| s@.len() <= i < r@.len() ==> r@[i] == ' ',
        s@.len() == 0 ==> r@.len() == width,
{
    s.pad_to_width(width)
}

// From here on every function is verified.

/// The first `n` elements of `s`, or all of `s` where it has no more than `n`.
pub open spec fn prefix(s: Seq<char>, n: nat) -> Seq<char> {
    if n < s.len() {
        s.subrange(0, n as int)
    } else {
        s
    }
}

/// A run of `n` spaces.
pub open spec fn spaces(n: nat) -> Seq<char> {
    Seq::new(n, |i: int| ' ')
}

/// `s` cut to at most `width` characters and then filled with spaces on the
/// right, so that it has exactly `width` characters.
pub open spec fn fitted(s: Seq<char>, width: nat) -> Seq<char> {
    prefix(s, width) + spaces((width - prefix(s, width).len()) as nat)
}

/// `s` up to its first space, or all of `s` where it holds none.
pub open spec fn first_word_of(s: Seq<char>) -> Seq<char>
    decreases s.len(),
{
    if s.len() == 0 || s[0] == ' ' {
        Seq::empty()
    } else {
        seq![s[0]] + first_word_of(s.skip(1))
    }
}

/// `s` with a `+` in the place of each space.
pub open spec fn plus_for_spaces_of(s: Seq<char>) -> Seq<char> {
    s.map_values(|c: char| if c == ' ' { '+' } else { c })
}

/// The character that stands for the digit `d`.
pub open spec fn digit_of(d: nat) -> char {
    seq!['0', '1', '2', '3', '4', '5', '6', '7', '8', '9'][d as int]
}

/// `n` written in decimal, without sign or leading zeros.
pub open spec fn decimal_of(n: nat) -> Seq<char>
    decreases n,
{
    if n < 10 {
        seq![digit_of(n)]
    } else {
        decimal_of(n / 10).push(digit_of(n % 10))
    }
}

/// `s` without the white space at its start.
pub open spec fn trim_start_of(s: Seq<char>) -> Seq<char>
    decreases s.len(),
{
    if s.len() > 0 && white_space(s[0]) {
        trim_start_of(s.skip(1))
    } else {
        s
    }
}

/// `s` without the white space at its end.
pub open spec fn trim_end_of(s: Seq<char>) -> Seq<char>
    decreases s.len(),
{
    if s.len() > 0 && white_space(s.last()) {
        trim_end_of(s.drop_last())
    } else {
        s
    }
}

/// `s` without the white space at either end.
pub open spec fn trimmed(s: Seq<char>) -> Seq<char> {
    trim_end_of(trim_start_of(s))
}

/// The views of a list of texts.
pub open spec fn texts_of(list: Seq<String>) -> Seq<Seq<char>> {
    list.map_values(|s: String| s@)
}

/// The parts in order, with one `+` between each two neighbours.
pub open spec fn joined_by_plus(parts: Seq<Seq<char>>) -> Seq<char>
    decreases parts.len(),
{
    if parts.len() == 0 {
        Seq::empty()
    } else if parts.len() == 1 {
        parts[0]
    } else {
        joined_by_plus(parts.drop_last()) + seq!['+'] + parts.last()
    }
}

/// The first `n` characters of `s`, counted in Unicode scalar values; all of
/// `s` where it has no more than `n`. A character is never split.
pub fn first_n_chars(s: &str, n: usize) -> (r: &str)
    ensures
        r@ == prefix(s@, n as nat),
{
    if n < s.unicode_len() {
        s.substring_char(0, n)
    } else {
        s
    }
}

/// Whether two texts hold the same characters.
pub fn same_text(a: &str, b: &str) -> (r: bool)
    ensures
        r == (a@ == b@),
{
    let mut left = a.chars();
    let mut right = b.chars();
    let ghost mut k: int = 0;
    loop
        invariant
            0 <= k <= a@.len(),
            k <= b@.len(),
            left.remaining() == a@.skip(k),
            right.remaining() == b@.skip(k),
            a@.take(k) == b@.take(k),
        decreases a@.len() - k,
    {
        let x = left.next();
        let y = right.next();
        match (x, y) {
            (Some(c), Some(d)) => {
                if c != d {
                    assert(a@[k] != b@[k]);
                    return false;
                }
                proof {
                    assert(a@.take(k + 1) == a@.take(k).push(a@[k]));
                    assert(b@.take(k + 1) == b@.take(k).push(b@[k]));
                    assert(a@.skip(k).drop_first() == a@.skip(k + 1));
                    assert(b@.skip(k).drop_first() == b@.skip(k + 1));
                    k = k + 1;
                }
            },
            (None, None) => {
                assert(a@ == a@.take(k));
                assert(b@ == b@.take(k));
                return true;
            },
            _ => {
                return false;
            },
        }
    }
}

/// Whether `s` begins with the characters of `start`.
pub fn starts_with(s: &str, start: &str) -> (r: bool)
    ensures
        r == start@.is_prefix_of(s@),
{
    let mut whole = s.chars();
    let mut head = start.chars();
    let ghost mut k: int = 0;
    loop
        invariant
            0 <= k <= s@.len(),
            k <= start@.len(),
            whole.remaining() == s@.skip(k),
            head.remaining() == start@.skip(k),
            s@.take(k) == start@.take(k),
        decreases start@.len() - k,
    {
        match head.next() {
            None => {
                assert(start@ == start@.take(k));
                return true;
            },
            Some(d) => {
                match whole.next() {
                    None => {
                        return false;
                    },
                    Some(c) => {
                        if c != d {
                            assert(start@.len() <= s@.len() ==> s@.subrange(
                                0,
                                start@.len() as int,
                            )[k] == s@[k]);
                            return false;
                        }
                        proof {
                            assert(s@.take(k + 1) == s@.take(k).push(s@[k]));
                            assert(start@.take(k + 1) == start@.take(k).push(start@[k]));
                            assert(s@.skip(k).drop_first() == s@.skip(k + 1));
                            assert(start@.skip(k).drop_first() == start@.skip(k + 1));
                            k = k + 1;
                        }
                    },
                }
            },
        }
    }
}

/// Where no character before `i` is a space and `i` is the end of `s` or the
/// place of a space, the first word of `s` is its first `i` characters.
proof fn lemma_first_word(s: Seq<char>, i: int)
    requires
        0 <= i <= s.len(),
        forall|j: int| 0 <= j < i ==> s[j] != ' ',
        i == s.len() || s[i] == ' ',
    ensures
        first_word_of(s) == s.take(i),
    decreases i,
{
    if i == 0 {
        assert(s.take(0) == Seq::<char>::empty());
    } else {
        let rest = s.skip(1);
        assert forall|j: int| 0 <= j < i - 1 implies rest[j] != ' ' by {
            assert(rest[j] == s[j + 1]);
        }
        lemma_first_word(rest, i - 1);
        assert(s.take(i) == seq![s[0]] + rest.take(i - 1));
    }
}

/// The text up to the first space of `s`; all of `s` where it holds none.
pub fn first_word(s: &str) -> (r: &str)
    ensures
        r@ == first_word_of(s@),
{
    let n = s.unicode_len();
    let mut i: usize = 0;
    for c in it: s.chars()
        invariant
            it.seq() == s@,
            i == it.index(),
            n == s@.len(),
            forall|j: int| 0 <= j < i ==> s@[j] != ' ',
    {
        if c == ' ' {
            proof {
                lemma_first_word(s@, i as int);
            }
            return s.substring_char(0, i);
        }
        i = i + 1;
    }
    proof {
        lemma_first_word(s@, s@.len() as int);
    }
    s
}

/// A copy of `s` with a `+` in the place of each space.
pub fn plus_for_spaces(s: &str) -> (r: String)
    ensures
        r@ == plus_for_spaces_of(s@),
{
    let mut out = String::new();
    for c in it: s.chars()
        invariant
            it.seq() == s@,
            out@ == plus_for_spaces_of(s@.take(it.index())),
    {
        proof {
            let k = it.index();
            assert(s@.take(k + 1) == s@.take(k).push(s@[k]));
        }
        if c == ' ' {
            push_char(&mut out, '+');
        } else {
            push_char(&mut out, c);
        }
    }
    assert(s@.take(s@.len() as int) == s@);
    out
}

/// The character that stands for the digit `d`.
fn digit(d: u32) -> (c: char)
    requires
        d < 10,
    ensures
        c == digit_of(d as nat),
{
    match d {
        0 => '0',
        1 => '1',
        2 => '2',
        3 => '3',
        4 => '4',
        5 => '5',
        6 => '6',
        7 => '7',
        8 => '8',
        _ => '9',
    }
}

/// Adds the decimal form of `n` at the end of `out`.
pub fn push_decimal(out: &mut String, n: u32)
    ensures
        final(out)@ == old(out)@ + decimal_of(n as nat),
    decreases n,
{
    if n >= 10 {
        push_decimal(out, n / 10);
    }
    push_char(out, digit(n % 10));
}

/// Where the first `i` characters of `s` are white space and the one at `i`,
/// if there is one, is not, trimming the start drops exactly those `i`.
proof fn lemma_trim_start(s: Seq<char>, i: int)
    requires
        0 <= i <= s.len(),
        forall|j: int| 0 <= j < i ==> white_space(s[j]),
        i == s.len() || !white_space(s[i]),
    ensures
        trim_start_of(s) == s.skip(i),
    decreases i,
{
    if i == 0 {
        assert(s.skip(0) == s);
    } else {
        let rest = s.skip(1);
        assert forall|j: int| 0 <= j < i - 1 implies white_space(rest[j]) by {
            assert(rest[j] == s[j + 1]);
        }
        lemma_trim_start(rest, i - 1);
        assert(rest.skip(i - 1) == s.skip(i));
    }
}

/// Where the characters of `s` from `i` on are white space and the one before
/// `i`, if there is one, is not, trimming the end keeps exactly the first `i`.
proof fn lemma_trim_end(s: Seq<char>, i: int)
    requires
        0 <= i <= s.len(),
        forall|j: int| i <= j < s.len() ==> white_space(s[j]),
        i == 0 || !white_space(s[i - 1]),
    ensures
        trim_end_of(s) == s.take(i),
    decreases s.len() - i,
{
    if i == s.len() {
        assert(s.take(i) == s);
    } else {
        let rest = s.drop_last();
        lemma_trim_end(rest, i);
        assert(rest.take(i) == s.take(i));
    }
}

/// The text without the white space at its two ends.
pub fn trim(s: &str) -> (r: &str)
    ensures
        r@ == trimmed(s@),
{
    let n = s.unicode_len();
    let mut i: usize = 0;
    let mut start: usize = 0;
    let mut end: usize = 0;
    for c in it: s.chars()
        invariant
            it.seq() == s@,
            i == it.index(),
            n == s@.len(),
            start <= i,
            end <= i,
            forall|j: int| 0 <= j < start ==> white_space(s@[j]),
            forall|j: int| end <= j < i ==> white_space(s@[j]),
            end == 0 ==> start == i,
            end > 0 ==> start < end && !white_space(s@[start as int]) && !white_space(
                s@[end - 1],
            ),
    {
        if is_white_space(c) {
            if end == 0 {
                start = i + 1;
            }
        } else {
            end = i + 1;
        }
        i = i + 1;
    }
    proof {
        let whole = s@;
        let tail = whole.skip(start as int);
        lemma_trim_start(whole, start as int);
        if end == 0 {
            lemma_trim_end(tail, 0);
            assert(tail.take(0) == whole.subrange(n as int, n as int));
        } else {
            assert forall|j: int| end - start <= j < tail.len() implies white_space(tail[j]) by {
                assert(tail[j] == whole[j + start]);
            }
            assert(tail[end - start - 1] == whole[end - 1]);
            lemma_trim_end(tail, end - start);
            assert(tail.take(end - start) == whole.subrange(start as int, end as int));
        }
    }
    if end == 0 {
        s.substring_char(n, n)
    } else {
        s.substring_char(start, end)
    }
}

/// The parts in order, with one `+` between each two neighbours.
pub fn join_with_plus(parts: &Vec<String>) -> (r: String)
    ensures
        r@ == joined_by_plus(texts_of(parts@)),
{
    let ghost texts = texts_of(parts@);
    let mut out = String::new();
    let mut i: usize = 0;
    while i < parts.len()
        invariant
            0 <= i <= parts.len(),
            texts == texts_of(parts@),
            out@ == joined_by_plus(texts.take(i as int)),
        decreases parts.len() - i,
    {
        proof {
            let upto = texts.take(i + 1);
            assert(upto.drop_last() == texts.take(i as int));
            assert(upto.last() == parts@[i as int]@);
        }
        if i > 0 {
            push_char(&mut out, '+');
        }
        out.append(parts[i].as_str());
        i = i + 1;
    }
    assert(texts.take(parts.len() as int) == texts);
    out
}

/// The text cut to at most `width` characters and filled with spaces on the
/// right to exactly `width` characters.
///
/// The filling is left to the pad crate, which counts terminal columns. Where
/// that count differs from the number of characters (a wide or a zero-width
/// character), the result is cut back, or filled further with the padding of
/// the empty text, so that the number of characters is `width` in every case.
pub fn fit_to_width(s: &str, width: usize) -> (r: String)
    ensures
        r@ == fitted(s@, width as nat),
{
    let head = first_n_chars(s, width);
    let mut out = pad_to_width(head, width);
    let n = out.as_str().unicode_len();
    if n > width {
        out = String::from_str(out.as_str().substring_char(0, width));
    } else if n < width {
        proof {
            reveal_strlit("");
        }
        let fill = pad_to_width("", width - n);
        out.append(fill.as_str());
    }
    assert(out@ == fitted(s@, width as nat));
    out
}

/// Whether two lists hold the same texts in the same order.
pub fn same_texts(a: &Vec<String>, b: &Vec<String>) -> (r: bool)
    ensures
        r == (texts_of(a@) == texts_of(b@)),
{
    if a.len() != b.len() {
        assert(texts_of(a@).len() != texts_of(b@).len());
        return false;
    }
    let mut i: usize = 0;
    while i < a.len()
        invariant
            0 <= i <= a.len(),
            a.len() == b.len(),
            forall|j: int| 0 <= j < i ==> a@[j]@ == b@[j]@,
        decreases a.len() - i,
    {
        if !same_text(a[i].as_str(), b[i].as_str()) {
            assert(texts_of(a@)[i as int] != texts_of(b@)[i as int]);
            return false;
        }
        i = i + 1;
    }
    assert(texts_of(a@) =~= texts_of(b@));
    true
}

} // verus!
