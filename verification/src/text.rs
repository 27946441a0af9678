//! Small verified building blocks for assembling and splitting text.

use vstd::prelude::*;

verus! {

/// `String::push` of the standard library appends the one character to the
/// end of the string and changes nothing else.
pub assume_specification[ String::push ](text: &mut String, c: char)
    ensures
        final(text)@ == old(text)@.push(c),
;

/// The character that writes the decimal digit `d`.
pub open spec fn digit_char(d: nat) -> char
    recommends
        d < 10,
{
    if d == 0 {
        '0'
    } else if d == 1 {
        '1'
    } else if d == 2 {
        '2'
    } else if d == 3 {
        '3'
    } else if d == 4 {
        '4'
    } else if d == 5 {
        '5'
    } else if d == 6 {
        '6'
    } else if d == 7 {
        '7'
    } else if d == 8 {
        '8'
    } else {
        '9'
    }
}

/// The decimal numeral of `n`, most significant digit first, without
/// leading zeros (zero itself is written `0`).
pub open spec fn decimal(n: nat) -> Seq<char>
    decreases n,
{
    if n < 10 {
        seq![digit_char(n)]
    } else {
        decimal(n / 10).push(digit_char(n % 10))
    }
}

/// The one-character text of a single decimal digit.
fn digit_text(d: usize) -> (text: &'static str)
    requires
        d < 10,
    ensures
        text@ == seq![digit_char(d as nat)],
{
    proof {
        reveal_strlit("0");
        reveal_strlit("1");
        reveal_strlit("2");
        reveal_strlit("3");
        reveal_strlit("4");
        reveal_strlit("5");
        reveal_strlit("6");
        reveal_strlit("7");
        reveal_strlit("8");
        reveal_strlit("9");
    }
    let text = if d == 0 {
        "0"
    } else if d == 1 {
        "1"
    } else if d == 2 {
        "2"
    } else if d == 3 {
        "3"
    } else if d == 4 {
        "4"
    } else if d == 5 {
        "5"
    } else if d == 6 {
        "6"
    } else if d == 7 {
        "7"
    } else if d == 8 {
        "8"
    } else {
        "9"
    };
    assert(text@ =~= seq![digit_char(d as nat)]);
    text
}

/// Writes `n` as a decimal numeral.
pub fn decimal_text(n: usize) -> (text: String)
    ensures
        text@ == decimal(n as nat),
    decreases n,
{
    if n < 10 {
        String::from_str(digit_text(n))
    } else {
        let mut text = decimal_text(n / 10);
        text.append(digit_text(n % 10));
        assert(text@ =~= decimal(n as nat));
        text
    }
}

/// `parts` written one after another with `separator` between neighbours;
/// the empty text where there are no parts.
pub open spec fn joined(parts: Seq<Seq<char>>, separator: Seq<char>) -> Seq<char>
    decreases parts.len(),
{
    if parts.len() == 0 {
        Seq::empty()
    } else if parts.len() == 1 {
        parts[0]
    } else {
        joined(parts.drop_last(), separator) + separator + parts.last()
    }
}

/// Joins `parts` with `separator` between neighbours.
pub fn join(parts: &Vec<String>, separator: &str) -> (text: String)
    ensures
        text@ == joined(parts.deep_view(), separator@),
{
    let mut text = String::new();
    let mut i: usize = 0;
    while i < parts.len()
        invariant
            i <= parts.len(),
            text@ == joined(parts.deep_view().take(i as int), separator@),
        decreases parts.len() - i,
    {
        let ghost before = parts.deep_view().take(i as int);
        let ghost after = parts.deep_view().take(i + 1);
        if i > 0 {
            text.append(separator);
        }
        text.append(parts[i].as_str());
        proof {
            assert(after.drop_last() =~= before);
            assert(after.last() == parts[i as int]@);
        }
        i += 1;
    }
    assert(parts.deep_view().take(i as int) =~= parts.deep_view());
    text
}

/// Where the first line feed of `text` stands, or the length of `text`
/// where it holds none.
pub open spec fn first_line_feed(text: Seq<char>) -> int
    decreases text.len(),
{
    if text.len() == 0 || text[0] == '\n' {
        0
    } else {
        1 + first_line_feed(text.skip(1))
    }
}

/// `line` without one carriage return at its end, if it has one there.
pub open spec fn without_trailing_cr(line: Seq<char>) -> Seq<char> {
    if line.len() > 0 && line.last() == '\r' {
        line.drop_last()
    } else {
        line
    }
}

/// The lines of `text`. A line ends at a line feed, or at a carriage return
/// directly followed by a line feed; neither belongs to the line. The last
/// line needs no line ending, and a text that ends with one has no further,
/// empty line after it.
pub open spec fn lines(text: Seq<char>) -> Seq<Seq<char>>
    decreases text.len(),
{
    if text.len() == 0 {
        Seq::empty()
    } else {
        let end = first_line_feed(text);
        if 0 <= end < text.len() {
            seq![without_trailing_cr(text.take(end))] + lines(text.skip(end + 1))
        } else {
            seq![text]
        }
    }
}

/// Those of `all` that hold at least one character, in their order.
pub open spec fn nonempty(all: Seq<Seq<char>>) -> Seq<Seq<char>> {
    all.filter(|line: Seq<char>| line.len() > 0)
}

/// The lines of `text` that are not empty.
pub open spec fn nonempty_lines(text: Seq<char>) -> Seq<Seq<char>> {
    nonempty(lines(text))
}

/// `first_line_feed` is the least position of a line feed.
pub proof fn lemma_first_line_feed(text: Seq<char>)
    ensures
        0 <= first_line_feed(text) <= text.len(),
        forall|j: int| 0 <= j < first_line_feed(text) ==> text[j] != '\n',
        first_line_feed(text) < text.len() ==> text[first_line_feed(text)] == '\n',
    decreases text.len(),
{
    if text.len() == 0 || text[0] == '\n' {
    } else {
        let tail = text.skip(1);
        lemma_first_line_feed(tail);
        assert forall|j: int| 0 <= j < first_line_feed(text) implies text[j] != '\n' by {
            if j > 0 {
                assert(text[j] == tail[j - 1]);
            }
        }
        if first_line_feed(tail) < tail.len() {
            assert(tail[first_line_feed(tail)] == text[first_line_feed(tail) + 1]);
        }
    }
}

/// A text that holds no line feed is, unless empty, its own single line.
pub proof fn lemma_lines_of_unbroken(line: Seq<char>)
    requires
        forall|j: int| 0 <= j < line.len() ==> line[j] != '\n',
    ensures
        lines(line) == if line.len() == 0 {
            Seq::<Seq<char>>::empty()
        } else {
            seq![line]
        },
{
    lemma_first_line_feed(line);
}

/// The lines of a text whose first line feed follows `line`: the first of
/// them is `line` without its trailing carriage return, the others are the
/// lines of what follows the line feed.
pub proof fn lemma_lines_of_terminated(line: Seq<char>, rest: Seq<char>)
    requires
        forall|j: int| 0 <= j < line.len() ==> line[j] != '\n',
    ensures
        lines(line.push('\n') + rest) == seq![without_trailing_cr(line)] + lines(rest),
{
    let text = line.push('\n') + rest;
    lemma_first_line_feed(text);
    let end = first_line_feed(text);
    assert(text[line.len() as int] == '\n');
    assert(end == line.len()) by {
        if end < line.len() {
            assert(text[end] == line[end]);
        }
    }
    assert(text.take(end) =~= line);
    assert(text.skip(end + 1) =~= rest);
}

/// Splits `text` into its lines and keeps those that are not empty.
pub fn nonempty_lines_of(text: &str) -> (found: Vec<String>)
    ensures
        found.deep_view() == nonempty_lines(text@),
{
    let mut found: Vec<String> = Vec::new();
    let mut current = String::new();
    let mut held_cr = false;
    let ghost keep = |line: Seq<char>| line.len() > 0;
    assert(found.deep_view() =~= Seq::<Seq<char>>::empty());
    assert(Seq::<char>::empty() + text@.skip(0) =~= text@);
    for c in it: text.chars()
        invariant
            it.seq() == text@,
            keep == |line: Seq<char>| line.len() > 0,
            forall|j: int| 0 <= j < current@.len() ==> current@[j] != '\n',
            !held_cr ==> (current@.len() == 0 || current@.last() != '\r'),
            nonempty_lines(text@) == found.deep_view() + nonempty(
                lines(
                    (if held_cr {
                        current@.push('\r')
                    } else {
                        current@
                    }) + text@.skip(it.index() as int),
                ),
            ),
    {
        let ghost line = if held_cr {
            current@.push('\r')
        } else {
            current@
        };
        let ghost rest = text@.skip(it.index() + 1);
        let ghost old_found = found.deep_view();
        assert(text@.skip(it.index() as int) =~= seq![c] + rest);
        if c == '\n' {
            proof {
                lemma_lines_of_terminated(line, rest);
                assert(line + text@.skip(it.index() as int) =~= line.push('\n') + rest);
                assert(without_trailing_cr(line) =~= current@);
                lines(rest).lemma_filter_prepend(current@, keep);
            }
            if current.as_str().unicode_len() > 0 {
                found.push(current);
                assert(found.deep_view() =~= old_found.push(without_trailing_cr(line)));
                current = String::new();
            }
            held_cr = false;
            assert(current@ + rest =~= rest);
        } else if c == '\r' {
            if held_cr {
                current.push('\r');
            }
            held_cr = true;
            assert(current@.push('\r') + rest =~= line + text@.skip(it.index() as int));
        } else {
            if held_cr {
                current.push('\r');
            }
            current.push(c);
            held_cr = false;
            assert(current@ + rest =~= line + text@.skip(it.index() as int));
        }
    }
    let ghost line = if held_cr {
        current@.push('\r')
    } else {
        current@
    };
    let ghost old_found = found.deep_view();
    proof {
        assert(line + text@.skip(text@.len() as int) =~= line);
        lemma_lines_of_unbroken(line);
        Seq::<Seq<char>>::empty().lemma_filter_prepend(line, keep);
        reveal(Seq::filter);
        assert(seq![line] + Seq::<Seq<char>>::empty() =~= seq![line]);
    }
    if held_cr {
        current.push('\r');
        found.push(current);
        assert(found.deep_view() =~= old_found.push(line));
    } else if current.as_str().unicode_len() > 0 {
        found.push(current);
        assert(found.deep_view() =~= old_found.push(line));
    }
    found
}

/// The characters of an optional string.
pub open spec fn text_of(value: Option<String>) -> Option<Seq<char>> {
    match value {
        Some(text) => Some(text@),
        None => None,
    }
}

/// A copy of `texts`.
pub fn copy_texts(texts: &Vec<String>) -> (copy: Vec<String>)
    ensures
        copy.deep_view() == texts.deep_view(),
{
    let mut copy: Vec<String> = Vec::new();
    let mut i: usize = 0;
    while i < texts.len()
        invariant
            i <= texts.len(),
            copy.len() == i,
            forall|j: int| 0 <= j < i ==> copy[j]@ == texts[j]@,
        decreases texts.len() - i,
    {
        copy.push(texts[i].clone());
        i += 1;
    }
    assert(copy.deep_view() =~= texts.deep_view());
    copy
}

/// A copy of an optional string.
pub fn copy_optional(value: &Option<String>) -> (copy: Option<String>)
    ensures
        text_of(copy) == text_of(*value),
{
    match value {
        Some(text) => Some(text.clone()),
        None => None,
    }
}

/// `head` followed by `tail`.
pub fn followed_by(head: &str, tail: &str) -> (text: String)
    ensures
        text@ == head@ + tail@,
{
    let mut text = String::from_str(head);
    text.append(tail);
    text
}

} // verus!
