//! Texts of numbers, as they stand in messages.

use vstd::prelude::*;
use vstd::string::*;

verus! {

/// The digit of value `n`, for `n` below 16, in lower case.
pub open spec fn digit(n: nat) -> Seq<char> {
    seq!["0123456789abcdef"@[n as int]]
}

/// `n` in decimal notation, without leading zeros.
pub open spec fn decimal(n: nat) -> Seq<char>
    decreases n,
{
    if n < 10 {
        digit(n)
    } else {
        decimal(n / 10) + digit(n % 10)
    }
}

/// The byte `n` as two hexadecimal digits.
pub open spec fn hex_byte(n: u8) -> Seq<char> {
    digit((n / 16) as nat) + digit((n % 16) as nat)
}

/// The digit of value `n`.
fn digit_text(n: u8) -> (text: &'static str)
    requires
        n < 16,
    ensures
        text@ == digit(n as nat),
{
    proof {
        reveal_strlit("0123456789abcdef");
        reveal_strlit("0");
        reveal_strlit("1");
        reveal_strlit("2");
        reveal_strlit("3");
        reveal_strlit("4");
        reveal_strlit("5");
        reveal_strlit("6");
        reveal_strlit("7");
        reveal_strlit("8");
        reveal_strlit("9");
        reveal_strlit("a");
        reveal_strlit("b");
        reveal_strlit("c");
        reveal_strlit("d");
        reveal_strlit("e");
        reveal_strlit("f");
    }
    let text: &'static str = match n {
        0 => "0",
        1 => "1",
        2 => "2",
        3 => "3",
        4 => "4",
        5 => "5",
        6 => "6",
        7 => "7",
        8 => "8",
        9 => "9",
        10 => "a",
        11 => "b",
        12 => "c",
        13 => "d",
        14 => "e",
        _ => "f",
    };
    assert(text@ =~= digit(n as nat));
    text
}

/// `n` in decimal notation.
pub fn decimal_text(n: u16) -> (text: String)
    ensures
        text@ == decimal(n as nat),
    decreases n,
{
    if n < 10 {
        digit_text(n as u8).to_string()
    } else {
        decimal_text(n / 10).concat(digit_text((n % 10) as u8))
    }
}

/// The byte `n` as two hexadecimal digits.
pub fn hex_byte_text(n: u8) -> (text: String)
    ensures
        text@ == hex_byte(n),
{
    digit_text(n / 16).to_string().concat(digit_text(n % 16))
}

/// Whether the character is white space: it has the Unicode property `White_Space`.
pub open spec fn is_space(c: char) -> bool {
    ||| '\t' <= c <= '\r'
    ||| c == ' '
    ||| c == '\u{85}'
    ||| c == '\u{a0}'
    ||| c == '\u{1680}'
    ||| '\u{2000}' <= c <= '\u{200a}'
    ||| c == '\u{2028}'
    ||| c == '\u{2029}'
    ||| c == '\u{202f}'
    ||| c == '\u{205f}'
    ||| c == '\u{3000}'
}

/// The text without white space at its start and at its end.
pub open spec fn trimmed(text: Seq<char>) -> Seq<char>
    decreases text.len(),
{
    if text.len() == 0 {
        text
    } else if is_space(text.first()) {
        trimmed(text.drop_first())
    } else if is_space(text.last()) {
        trimmed(text.drop_last())
    } else {
        text
    }
}

/// The text with an arrow in place of every line break.
pub open spec fn lines_joined(text: Seq<char>) -> Seq<char>
    decreases text.len(),
{
    if text.len() == 0 {
        seq![]
    } else if text.last() == '\n' {
        lines_joined(text.drop_last()) + " -> "@
    } else {
        lines_joined(text.drop_last()).push(text.last())
    }
}

/// The text in one line: without white space around it, and with an arrow in place of every
/// line break.
pub open spec fn one_line(text: Seq<char>) -> Seq<char> {
    lines_joined(trimmed(text))
}

/// Whether the character is white space.
fn space(c: char) -> (r: bool)
    ensures
        r == is_space(c),
{
    ('\t' <= c && c <= '\r') || c == ' ' || c == '\u{85}' || c == '\u{a0}' || c == '\u{1680}' || (
    '\u{2000}' <= c && c <= '\u{200a}') || c == '\u{2028}' || c == '\u{2029}' || c == '\u{202f}' || c
        == '\u{205f}' || c == '\u{3000}'
}

/// The text in one line.
pub fn one_line_text(text: &str) -> (line: String)
    ensures
        line@ == one_line(text@),
{
    let len: usize = text.unicode_len();
    let mut start: usize = 0;
    assert(text@.subrange(0, len as int) =~= text@);
    while start < len && space(text.get_char(start))
        invariant
            start <= len == text@.len(),
            trimmed(text@) == trimmed(text@.subrange(start as int, len as int)),
        decreases len - start,
    {
        assert(text@.subrange(start as int, len as int).drop_first() =~= text@.subrange(
            start + 1,
            len as int,
        ));
        start = start + 1;
    }
    let mut end: usize = len;
    while start < end && space(text.get_char(end - 1))
        invariant
            start <= end <= len == text@.len(),
            start < len ==> !is_space(text@[start as int]),
            trimmed(text@) == trimmed(text@.subrange(start as int, end as int)),
        decreases end - start,
    {
        assert(text@.subrange(start as int, end as int).drop_last() =~= text@.subrange(
            start as int,
            end - 1,
        ));
        end = end - 1;
    }
    let ghost middle = text@.subrange(start as int, end as int);
    assert(trimmed(text@) == middle);
    let mut line = String::new();
    let mut i: usize = start;
    assert(middle.take(0) =~= Seq::<char>::empty());
    while i < end
        invariant
            start <= i <= end <= len == text@.len(),
            middle == text@.subrange(start as int, end as int),
            line@ == lines_joined(middle.take(i - start)),
        decreases end - i,
    {
        proof {
            let taken = middle.take(i + 1 - start);
            assert(taken.drop_last() =~= middle.take(i - start));
            assert(taken.last() == text@[i as int]);
            assert(text@.subrange(i as int, i + 1) =~= seq![text@[i as int]]);
            assert(line@ + seq![text@[i as int]] =~= line@.push(text@[i as int]));
        }
        if text.get_char(i) == '\n' {
            line = line.concat(" -> ");
        } else {
            line = line.concat(text.substring_char(i, i + 1));
        }
        i = i + 1;
    }
    assert(middle.take(end - start) =~= middle);
    line
}

/// A text in one line has no line break.
pub proof fn one_line_has_no_line_break(text: Seq<char>, i: int)
    requires
        0 <= i < one_line(text).len(),
    ensures
        one_line(text)[i] != '\n',
{
    joined_lines_have_no_line_break(trimmed(text), i);
}

/// A text whose lines are joined has no line break.
proof fn joined_lines_have_no_line_break(text: Seq<char>, i: int)
    requires
        0 <= i < lines_joined(text).len(),
    ensures
        lines_joined(text)[i] != '\n',
    decreases text.len(),
{
    reveal_strlit(" -> ");
    let before = lines_joined(text.drop_last());
    if i < before.len() {
        joined_lines_have_no_line_break(text.drop_last(), i);
    }
}

/// The value of a digit, in lower case.
pub open spec fn digit_value(c: char) -> int {
    if '0' <= c <= '9' {
        c as int - '0' as int
    } else if 'a' <= c <= 'f' {
        c as int - 'a' as int + 10
    } else {
        -1
    }
}

/// The number that the text is, in the given base.
pub open spec fn number_read(text: Seq<char>, base: int) -> int
    decreases text.len(),
{
    if text.len() == 0 {
        0
    } else {
        number_read(text.drop_last(), base) * base + digit_value(text.last())
    }
}

/// A digit is one character, and its value is the number it was made for.
pub proof fn digit_reads_back(n: nat)
    requires
        n < 16,
    ensures
        digit(n).len() == 1,
        digit_value(digit(n)[0]) == n,
{
    reveal_strlit("0123456789abcdef");
}

/// A number in decimal notation reads back as itself. It consists of decimal digits and does
/// not start with a zero, unless it is zero.
pub proof fn decimal_reads_back(n: nat)
    ensures
        number_read(decimal(n), 10) == n,
        decimal(n).len() > 0,
        forall|i: int| 0 <= i < decimal(n).len() ==> '0' <= #[trigger] decimal(n)[i] <= '9',
        n > 0 ==> decimal(n)[0] != '0',
        n == 0 ==> decimal(n).len() == 1,
    decreases n,
{
    reveal_strlit("0123456789abcdef");
    if n < 10 {
        digit_reads_back(n);
        assert(digit(n).drop_last() =~= Seq::<char>::empty());
        assert(number_read(digit(n).drop_last(), 10) == 0);
    } else {
        decimal_reads_back(n / 10);
        digit_reads_back(n % 10);
        let text = decimal(n / 10) + digit(n % 10);
        assert(text.drop_last() =~= decimal(n / 10));
        assert(text.last() == digit(n % 10)[0]);
    }
}

/// A byte as two hexadecimal digits reads back as itself.
pub proof fn hex_byte_reads_back(n: u8)
    ensures
        hex_byte(n).len() == 2,
        digit_value(hex_byte(n)[0]) >= 0,
        digit_value(hex_byte(n)[1]) >= 0,
        digit_value(hex_byte(n)[0]) * 16 + digit_value(hex_byte(n)[1]) == n,
{
    digit_reads_back((n / 16) as nat);
    digit_reads_back((n % 16) as nat);
}

/// White space is what Unicode says it is.
pub proof fn white_space_is_known(c: char)
    ensures
        is_space(c) <==> {
            ||| 9 <= c as u32 <= 13
            ||| c as u32 == 0x20
            ||| c as u32 == 0x85
            ||| c as u32 == 0xa0
            ||| c as u32 == 0x1680
            ||| 0x2000 <= c as u32 <= 0x200a
            ||| c as u32 == 0x2028
            ||| c as u32 == 0x2029
            ||| c as u32 == 0x202f
            ||| c as u32 == 0x205f
            ||| c as u32 == 0x3000
        },
{
}

/// Trimming takes away white space around a text, all of it, and nothing else: what is put
/// around a text that neither starts nor ends with white space goes away again.
pub proof fn trimming_takes_white_space_away(before: Seq<char>, text: Seq<char>, after: Seq<char>)
    requires
        forall|i: int| 0 <= i < before.len() ==> is_space(#[trigger] before[i]),
        forall|i: int| 0 <= i < after.len() ==> is_space(#[trigger] after[i]),
        text.len() > 0 ==> !is_space(text.first()) && !is_space(text.last()),
    ensures
        trimmed(before + text + after) == text,
    decreases before.len() + after.len(),
{
    let whole = before + text + after;
    if before.len() > 0 {
        assert(whole.first() == before[0]);
        assert(whole.drop_first() =~= before.drop_first() + text + after);
        trimming_takes_white_space_away(before.drop_first(), text, after);
    } else if text.len() > 0 {
        assert(whole.first() == text.first());
        if after.len() > 0 {
            assert(whole.last() == after.last());
            assert(whole.drop_last() =~= before + text + after.drop_last());
            trimming_takes_white_space_away(before, text, after.drop_last());
        } else {
            assert(whole =~= text);
        }
    } else if after.len() > 0 {
        assert(whole.first() == after.first());
        assert(whole.drop_first() =~= before + text + after.drop_first());
        trimming_takes_white_space_away(before, text, after.drop_first());
    }
}

/// A text without line breaks is left as it is by joining lines.
pub proof fn joining_leaves_one_line(text: Seq<char>)
    requires
        forall|i: int| 0 <= i < text.len() ==> #[trigger] text[i] != '\n',
    ensures
        lines_joined(text) == text,
    decreases text.len(),
{
    if text.len() > 0 {
        joining_leaves_one_line(text.drop_last());
        assert(text.drop_last().push(text.last()) =~= text);
    }
}

/// Joining lines puts an arrow between them.
pub proof fn joining_puts_arrows(first: Seq<char>, rest: Seq<char>)
    ensures
        lines_joined(first + seq!['\n'] + rest) == lines_joined(first) + " -> "@ + lines_joined(
            rest,
        ),
    decreases rest.len(),
{
    let whole = first + seq!['\n'] + rest;
    if rest.len() == 0 {
        assert(whole.drop_last() =~= first);
        assert(lines_joined(first) + " -> "@ + lines_joined(rest) =~= lines_joined(first)
            + " -> "@);
    } else {
        assert(whole.drop_last() =~= first + seq!['\n'] + rest.drop_last());
        assert(whole.last() == rest.last());
        joining_puts_arrows(first, rest.drop_last());
        let start = lines_joined(first) + " -> "@;
        if rest.last() == '\n' {
            assert(start + lines_joined(rest.drop_last()) + " -> "@ =~= start + (lines_joined(
                rest.drop_last(),
            ) + " -> "@));
        } else {
            assert((start + lines_joined(rest.drop_last())).push(rest.last()) =~= start
                + lines_joined(rest.drop_last()).push(rest.last()));
        }
    }
}

/// A text is told in one line by trimming it and then joining its lines.
pub proof fn one_line_is_trimmed_and_joined(before: Seq<char>, text: Seq<char>, after: Seq<char>)
    requires
        forall|i: int| 0 <= i < before.len() ==> is_space(#[trigger] before[i]),
        forall|i: int| 0 <= i < after.len() ==> is_space(#[trigger] after[i]),
        text.len() > 0 ==> !is_space(text.first()) && !is_space(text.last()),
    ensures
        one_line(before + text + after) == lines_joined(text),
{
    trimming_takes_white_space_away(before, text, after);
}

} // verus!
