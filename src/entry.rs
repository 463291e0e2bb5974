//! Entry lines of the form `- HH:MM <text>` and the bytes an append writes.

use vstd::prelude::*;
use vstd::utf8::encode_utf8;

verus! {

/// The byte that terminates a line.
pub const NEWLINE: u8 = 10;

/// The decimal digit `d` as a character.
pub open spec fn digit_char(d: int) -> char {
    if d == 0 { '0' }
    else if d == 1 { '1' }
    else if d == 2 { '2' }
    else if d == 3 { '3' }
    else if d == 4 { '4' }
    else if d == 5 { '5' }
    else if d == 6 { '6' }
    else if d == 7 { '7' }
    else if d == 8 { '8' }
    else { '9' }
}

/// `n` (below 100) written with exactly two digits, zero-padded.
pub open spec fn two_digits(n: int) -> Seq<char> {
    seq![digit_char(n / 10), digit_char(n % 10)]
}

/// The wall-clock stamp `HH:MM`.
pub open spec fn clock_text(hour: int, minute: int) -> Seq<char> {
    two_digits(hour) + seq![':'] + two_digits(minute)
}

/// The tokens joined with single ASCII spaces.
pub open spec fn joined(tokens: Seq<Seq<char>>) -> Seq<char>
    decreases tokens.len(),
{
    if tokens.len() == 0 {
        Seq::empty()
    } else if tokens.len() == 1 {
        tokens[0]
    } else {
        joined(tokens.drop_last()) + seq![' '] + tokens.last()
    }
}

/// The views of a list of strings.
pub open spec fn token_views(tokens: Seq<String>) -> Seq<Seq<char>> {
    tokens.map_values(|t: String| t@)
}

/// The entry line `- HH:MM <text>` for the given time and user text.
pub open spec fn entry_text(hour: int, minute: int, text: Seq<char>) -> Seq<char> {
    seq!['-', ' '] + clock_text(hour, minute) + seq![' '] + text
}

/// The last byte of a file's contents, if it has any.
pub open spec fn last_byte(contents: Seq<u8>) -> Option<u8> {
    if contents.len() == 0 { None } else { Some(contents.last()) }
}

/// A file whose contents are empty or end with a newline.
pub open spec fn is_terminated(contents: Seq<u8>) -> bool {
    contents.len() == 0 || contents.last() == NEWLINE
}

/// What an append writes after a file whose final byte is `last`: the line and
/// a newline, preceded by a newline that terminates the previous last line
/// when the file is non-empty and does not already end with one.
pub open spec fn region(last: Option<u8>, line: Seq<u8>) -> Seq<u8> {
    match last {
        Some(b) if b != NEWLINE => seq![NEWLINE] + line + seq![NEWLINE],
        _ => line + seq![NEWLINE],
    }
}

/// The contents of a file after `line` has been appended to `contents`.
pub open spec fn after_append(contents: Seq<u8>, line: Seq<u8>) -> Seq<u8> {
    contents + region(last_byte(contents), line)
}

/// Appending `line` leaves the file ending with the line's bytes and one
/// newline; when the line itself does not end with a newline, the byte before
/// that final newline is not a newline either.
pub proof fn lemma_append_ends_with_line(contents: Seq<u8>, line: Seq<u8>)
    ensures
        ({
            let r = after_append(contents, line);
            &&& r.len() >= line.len() + 1
            &&& r.subrange(r.len() - line.len() - 1, r.len() as int) == line.push(NEWLINE)
            &&& r.last() == NEWLINE
            &&& is_terminated(r)
            &&& (line.len() > 0 && line.last() != NEWLINE) ==> r[r.len() - 2] != NEWLINE
        }),
{
    let r = after_append(contents, line);
    let reg = region(last_byte(contents), line);
    assert(r.subrange(r.len() - line.len() - 1, r.len() as int) =~= line.push(NEWLINE));
    if line.len() > 0 {
        assert(r[r.len() - 2] == line.last());
    }
}

/// Appending to a non-empty file whose last byte is not a newline first
/// writes a newline, so the previous last line ends up terminated.
pub proof fn lemma_append_heals_unterminated(contents: Seq<u8>, line: Seq<u8>)
    requires
        contents.len() > 0,
        contents.last() != NEWLINE,
    ensures
        region(last_byte(contents), line)[0] == NEWLINE,
        after_append(contents, line) == contents.push(NEWLINE) + line.push(NEWLINE),
{
    assert(after_append(contents, line) =~= contents.push(NEWLINE) + line.push(NEWLINE));
}

/// Appending to a terminated file writes the line and a newline, nothing else.
pub proof fn lemma_append_to_terminated(contents: Seq<u8>, line: Seq<u8>)
    requires
        is_terminated(contents),
    ensures
        after_append(contents, line) == contents + line.push(NEWLINE),
{
    assert(after_append(contents, line) =~= contents + line.push(NEWLINE));
}

/// Two appends of entries with the same text to a terminated file give two
/// entry lines, each followed by one newline, and the file stays terminated.
pub proof fn lemma_two_appends(
    contents: Seq<u8>,
    h1: int,
    m1: int,
    h2: int,
    m2: int,
    text: Seq<char>,
)
    requires
        is_terminated(contents),
    ensures
        ({
            let first = encode_utf8(entry_text(h1, m1, text));
            let second = encode_utf8(entry_text(h2, m2, text));
            let r = after_append(after_append(contents, first), second);
            &&& r == contents + first.push(NEWLINE) + second.push(NEWLINE)
            &&& is_terminated(r)
            &&& r.last() == NEWLINE
        }),
{
    let first = encode_utf8(entry_text(h1, m1, text));
    let second = encode_utf8(entry_text(h2, m2, text));
    lemma_append_to_terminated(contents, first);
    let once = after_append(contents, first);
    lemma_append_ends_with_line(contents, first);
    lemma_append_to_terminated(once, second);
    assert(after_append(once, second) =~= contents + first.push(NEWLINE) + second.push(NEWLINE));
}

/// The decimal digit `d` as a one-character string.
fn digit_str(d: u32) -> (r: &'static str)
    requires
        d < 10,
    ensures
        r@ == seq![digit_char(d as int)],
{
    proof {
        reveal_strlit("0");
        reveal_strlit("1");
        reveal_strlit("2");
        reveal_strlit("3");
        reveal_strlit("4");
        reveal_strlit("5");
        reveal_strlit("6");
        reveal_strlit("7");
        reveal_strlit("8");
        reveal_strlit("9");
    }
    match d {
        0 => "0",
        1 => "1",
        2 => "2",
        3 => "3",
        4 => "4",
        5 => "5",
        6 => "6",
        7 => "7",
        8 => "8",
        _ => "9",
    }
}

/// Formats `hour:minute` as `HH:MM`, each part zero-padded to two digits.
pub fn format_clock(hour: u32, minute: u32) -> (r: String)
    requires
        hour < 24,
        minute < 60,
    ensures
        r@ == clock_text(hour as int, minute as int),
{
    proof {
        reveal_strlit(":");
    }
    let mut r = String::new();
    r.append(digit_str(hour / 10));
    r.append(digit_str(hour % 10));
    r.append(":");
    r.append(digit_str(minute / 10));
    r.append(digit_str(minute % 10));
    assert(r@ =~= clock_text(hour as int, minute as int));
    r
}

/// Joins the tokens with single ASCII spaces.
pub fn join_tokens(tokens: &Vec<String>) -> (r: String)
    ensures
        r@ == joined(token_views(tokens@)),
{
    let ghost views = token_views(tokens@);
    let mut r = String::new();
    let mut i: usize = 0;
    while i < tokens.len()
        invariant
            i <= tokens.len(),
            views == token_views(tokens@),
            r@ == joined(views.take(i as int)),
        decreases tokens.len() - i,
    {
        let ghost before = r@;
        if i > 0 {
            r.append(" ");
            proof {
                reveal_strlit(" ");
                assert(" "@ =~= seq![' ']);
            }
        }
        r.append(tokens[i].as_str());
        proof {
            let next = views.take(i + 1);
            assert(next.drop_last() =~= views.take(i as int));
            assert(next.last() == tokens@[i as int]@);
            if i == 0 {
                assert(joined(next) == next[0]);
                assert(r@ =~= joined(next));
            } else {
                assert(joined(next) == before + seq![' '] + next.last());
                assert(r@ =~= joined(next));
            }
        }
        i = i + 1;
    }
    assert(views.take(tokens.len() as int) =~= views);
    r
}

/// The entry line `- HH:MM <tokens joined by spaces>`.
pub fn entry_line(hour: u32, minute: u32, tokens: &Vec<String>) -> (r: String)
    requires
        hour < 24,
        minute < 60,
    ensures
        r@ == entry_text(hour as int, minute as int, joined(token_views(tokens@))),
{
    proof {
        reveal_strlit("- ");
        reveal_strlit(" ");
    }
    let mut r = String::new();
    r.append("- ");
    let clock = format_clock(hour, minute);
    r.append(clock.as_str());
    r.append(" ");
    let text = join_tokens(tokens);
    r.append(text.as_str());
    assert(r@ =~= entry_text(hour as int, minute as int, joined(token_views(tokens@))));
    r
}

/// The bytes to append after a file whose final byte is `last` (`None` for
/// an empty file): the line's UTF-8 bytes and a newline, preceded by a
/// newline when the file does not already end with one.
pub fn append_region(last: Option<u8>, line: &str) -> (r: Vec<u8>)
    ensures
        r@ == region(last, encode_utf8(line@)),
{
    let bytes = line.as_bytes();
    let mut out: Vec<u8> = Vec::new();
    let heal = match last {
        Some(b) => b != NEWLINE,
        None => false,
    };
    if heal {
        out.push(NEWLINE);
    }
    let ghost start = out@;
    let mut i: usize = 0;
    while i < bytes.len()
        invariant
            i <= bytes@.len(),
            bytes@ == encode_utf8(line@),
            out@ == start + bytes@.take(i as int),
        decreases bytes.len() - i,
    {
        out.push(bytes[i]);
        proof {
            assert(bytes@.take(i + 1) =~= bytes@.take(i as int).push(bytes@[i as int]));
        }
        i = i + 1;
    }
    out.push(NEWLINE);
    assert(bytes@.take(bytes@.len() as int) =~= bytes@);
    assert(out@ =~= region(last, encode_utf8(line@)));
    out
}

} // verus!
