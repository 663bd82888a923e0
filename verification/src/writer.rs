//! Text primitives shared by the emitters: indentation, decimal numbers,
//! and the rendering of lines as one text.

use vstd::prelude::*;

verus! {

/// `String::push` of the standard library: the character is appended to the
/// end of the string and nothing else changes.
pub assume_specification[ String::push ](s: &mut String, c: char)
    ensures
        final(s)@ == old(s)@.push(c),
;

/// The character that one level of indentation consists of.
pub open spec fn indent_unit() -> char {
    '\t'
}

/// `num` levels of indentation.
pub open spec fn tabs_text(num: nat) -> Seq<char> {
    Seq::new(num, |i: int| indent_unit())
}

/// Renders `num` levels of indentation.
pub fn tabs(num: usize) -> (text: String)
    ensures
        text@ == tabs_text(num as nat),
{
    let mut text = String::new();
    let mut i: usize = 0;
    while i < num
        invariant
            i <= num,
            text@ == tabs_text(i as nat),
        decreases num - i,
    {
        text.push('\t');
        i += 1;
    }
    text
}

/// The character of a single decimal digit.
pub open spec fn digit_char(d: nat) -> char
    recommends
        d < 10,
{
    (('0' as u8) + d) as char
}

/// The decimal notation of `n`, without sign or leading zeros.
pub open spec fn decimal_text(n: nat) -> Seq<char>
    decreases n,
{
    if n < 10 {
        seq![digit_char(n)]
    } else {
        decimal_text(n / 10).push(digit_char(n % 10))
    }
}

/// Appends the decimal notation of `n` to `text`.
pub fn push_decimal(text: &mut String, n: u16)
    ensures
        final(text)@ == old(text)@ + decimal_text(n as nat),
    decreases n,
{
    if n >= 10 {
        push_decimal(text, n / 10);
    }
    let d: u8 = (n % 10) as u8;
    text.push((48u8 + d) as char);
    proof {
        let prefix = old(text)@;
        if n >= 10 {
            assert(prefix + decimal_text(n as nat / 10).push(digit_char(n as nat % 10)) =~= (prefix
                + decimal_text(n as nat / 10)).push(digit_char(n as nat % 10)));
        } else {
            assert(prefix + seq![digit_char(n as nat)] =~= prefix.push(digit_char(n as nat)));
        }
    }
}

/// The text that a sequence of lines makes: each line followed by a line
/// break.
pub open spec fn lines_text(lines: Seq<Seq<char>>) -> Seq<char>
    decreases lines.len(),
{
    if lines.len() == 0 {
        Seq::empty()
    } else {
        lines_text(lines.drop_last()) + lines.last().push('\n')
    }
}

/// Renders lines as one text, each line followed by a line break.
pub fn lines_to_text(lines: &[String]) -> (text: String)
    ensures
        text@ == lines_text(lines.deep_view()),
{
    let mut text = String::new();
    let mut i: usize = 0;
    assert(lines.deep_view().take(0) =~= Seq::<Seq<char>>::empty());
    while i < lines.len()
        invariant
            i <= lines.len(),
            text@ == lines_text(lines.deep_view().take(i as int)),
        decreases lines.len() - i,
    {
        let ghost before = text@;
        text.append(lines[i].as_str());
        text.push('\n');
        proof {
            let all = lines.deep_view();
            let next = all.take(i + 1);
            assert(next.drop_last() =~= all.take(i as int));
            assert(next.last() == lines[i as int]@);
            assert(text@ =~= before + lines[i as int]@.push('\n'));
        }
        i += 1;
    }
    assert(lines.deep_view().take(i as int) =~= lines.deep_view());
    text
}

} // verus!
