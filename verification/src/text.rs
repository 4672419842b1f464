//! Text primitives: how numbers are written, what counts as white space,
//! and how a line is cut at a separator.

use vstd::prelude::*;

verus! {

/// The characters that carry Unicode's `White_Space` property.
pub open spec fn is_white_space(c: char) -> bool {
    let n = c as u32;
    ||| 0x09 <= n <= 0x0D
    ||| n == 0x20
    ||| n == 0x85
    ||| n == 0xA0
    ||| n == 0x1680
    ||| 0x2000 <= n <= 0x200A
    ||| n == 0x2028
    ||| n == 0x2029
    ||| n == 0x202F
    ||| n == 0x205F
    ||| n == 0x3000
}

/// `s` without its leading white space.
pub open spec fn without_leading_space(s: Seq<char>) -> Seq<char>
    decreases s.len(),
{
    if s.len() > 0 && is_white_space(s[0]) {
        without_leading_space(s.drop_first())
    } else {
        s
    }
}

/// `s` without its trailing white space.
pub open spec fn without_trailing_space(s: Seq<char>) -> Seq<char>
    decreases s.len(),
{
    if s.len() > 0 && is_white_space(s.last()) {
        without_trailing_space(s.drop_last())
    } else {
        s
    }
}

/// `s` with the white space at both ends removed.
pub open spec fn trimmed(s: Seq<char>) -> Seq<char> {
    without_trailing_space(without_leading_space(s))
}

/// One of the ten ASCII digits.
pub open spec fn is_digit(c: char) -> bool {
    '0' <= c <= '9'
}

/// The digit that stands for `n`, for `n` below ten.
pub open spec fn digit_char(n: nat) -> char {
    (('0' as u32) + n) as char
}

/// The number that a string of digits denotes in base ten.
pub open spec fn decimal_value(digits: Seq<char>) -> nat
    decreases digits.len(),
{
    if digits.len() == 0 {
        0
    } else {
        (decimal_value(digits.drop_last()) * 10 + (digits.last() as u32 - '0' as u32)) as nat
    }
}

/// The shortest string of digits that denotes `n` in base ten.
pub open spec fn decimal_digits(n: nat) -> Seq<char>
    decreases n,
{
    if n < 10 {
        seq![digit_char(n)]
    } else {
        decimal_digits(n / 10).push(digit_char(n % 10))
    }
}

/// An integer written in base ten, with a minus sign when it is negative.
pub open spec fn decimal(i: int) -> Seq<char> {
    if i < 0 {
        seq!['-'] + decimal_digits((-i) as nat)
    } else {
        decimal_digits(i as nat)
    }
}

/// What a string denotes as an index of at most eight bits: an optional `+`,
/// then one or more digits whose value is at most 255. Anything else denotes
/// nothing.
pub open spec fn parsed_u8(s: Seq<char>) -> Option<u8> {
    let digits = if s.len() > 0 && s[0] == '+' {
        s.drop_first()
    } else {
        s
    };
    if digits.len() > 0 && (forall|i: int| 0 <= i < digits.len() ==> is_digit(#[trigger] digits[i]))
        && decimal_value(digits) <= 255 {
        Some(decimal_value(digits) as u8)
    } else {
        None
    }
}

/// A truth value written out.
pub open spec fn truth(flag: bool) -> Seq<char> {
    if flag {
        "true"@
    } else {
        "false"@
    }
}

/// Whether `needle` occurs in `hay` as a run of consecutive characters.
pub open spec fn has_substring(hay: Seq<char>, needle: Seq<char>) -> bool {
    exists|i: int|
        0 <= i && i + needle.len() <= hay.len() && #[trigger] hay.subrange(
            i,
            i + needle.len(),
        ) == needle
}

/// The pieces of `s` between the occurrences of `separator`, from left to
/// right. A string without the separator is its own single piece, so the
/// result is never empty.
pub open spec fn split_on(s: Seq<char>, separator: char) -> Seq<Seq<char>>
    decreases s.len(),
{
    if s.len() == 0 {
        seq![Seq::<char>::empty()]
    } else {
        let before = split_on(s.drop_last(), separator);
        if s.last() == separator {
            before.push(Seq::<char>::empty())
        } else {
            before.update(before.len() - 1, before.last().push(s.last()))
        }
    }
}

/// The pieces joined again, with `separator` between neighbours.
pub open spec fn joined(pieces: Seq<Seq<char>>, separator: Seq<char>) -> Seq<char>
    decreases pieces.len(),
{
    if pieces.len() == 0 {
        Seq::<char>::empty()
    } else if pieces.len() == 1 {
        pieces[0]
    } else {
        joined(pieces.drop_last(), separator) + separator + pieces.last()
    }
}

/// Calls `str::trim`. It is taken to give the string without its leading
/// and trailing characters of Unicode's `White_Space` property, whose code
/// points `is_white_space` writes out.
#[verifier::external_body]
pub(crate) fn trim(s: &str) -> (r: &str)
    ensures
        r@ == trimmed(s@),
{
    s.trim()
}

/// Calls `str::parse::<u8>` and drops what it tells of a failure. It is
/// taken to succeed on an optional `+` followed by one or more ASCII
/// digits whose value in base ten is at most 255, to give that value, and
/// to fail on every other string.
#[verifier::external_body]
pub(crate) fn parse_u8(s: &str) -> (r: Option<u8>)
    ensures
        r == parsed_u8(s@),
{
    s.parse::<u8>().ok()
}

/// Calls `i128::to_string`. It is taken to write the integer in base ten
/// with the fewest digits, behind a `-` when it is negative.
#[verifier::external_body]
pub(crate) fn decimal_string(i: i128) -> (r: String)
    ensures
        r@ == decimal(i as int),
{
    i.to_string()
}

/// Calls `str::contains` with a string for the pattern. It is taken to
/// tell whether the pattern occurs in the string as a run of consecutive
/// characters.
#[verifier::external_body]
pub(crate) fn contains(hay: &str, needle: &str) -> (r: bool)
    ensures
        r == has_substring(hay@, needle@),
{
    hay.contains(needle)
}

/// Cuts `s` at every occurrence of `separator`.
pub fn split(s: &str, separator: char) -> (pieces: Vec<String>)
    ensures
        pieces.deep_view() == split_on(s@, separator),
{
    let n: usize = s.unicode_len();
    let mut pieces: Vec<String> = Vec::new();
    let mut start: usize = 0;
    let mut i: usize = 0;
    proof {
        assert(s@.take(0) =~= Seq::<char>::empty());
    }
    while i < n
        invariant
            n == s@.len(),
            start <= i <= n,
            split_on(s@.take(i as int), separator) == pieces.deep_view().push(
                s@.subrange(start as int, i as int),
            ),
        decreases n - i,
    {
        let c = s.get_char(i);
        proof {
            let prefix = s@.take(i as int + 1);
            assert(prefix.drop_last() =~= s@.take(i as int));
        }
        if c == separator {
            let piece = s.substring_char(start, i);
            pieces.push(piece.to_owned());
            proof {
                assert(s@.subrange(i as int + 1, i as int + 1) =~= Seq::<char>::empty());
            }
            start = i + 1;
        } else {
            proof {
                assert(s@.subrange(start as int, i as int).push(c) =~= s@.subrange(
                    start as int,
                    i as int + 1,
                ));
            }
        }
        i = i + 1;
    }
    let piece = s.substring_char(start, n);
    pieces.push(piece.to_owned());
    proof {
        assert(s@.take(n as int) =~= s@);
    }
    pieces
}

/// Writes a truth value out.
pub fn truth_string(flag: bool) -> (text: String)
    ensures
        text@ == truth(flag),
{
    if flag {
        String::from_str("true")
    } else {
        String::from_str("false")
    }
}

/// Whether two strings hold the same characters.
pub fn same_text(a: &str, b: &str) -> (same: bool)
    ensures
        same == (a@ == b@),
{
    a.to_owned() == b.to_owned()
}

/// Joins the pieces, with `separator` between neighbours.
pub fn join(pieces: &Vec<String>, separator: &str) -> (text: String)
    ensures
        text@ == joined(pieces.deep_view(), separator@),
{
    let mut text = String::new();
    let mut i: usize = 0;
    while i < pieces.len()
        invariant
            i <= pieces.len(),
            text@ == joined(pieces.deep_view().take(i as int), separator@),
        decreases pieces.len() - i,
    {
        proof {
            let next = pieces.deep_view().take(i as int + 1);
            assert(next.drop_last() =~= pieces.deep_view().take(i as int));
        }
        if i > 0 {
            text.append(separator);
        }
        text.append(pieces[i].as_str());
        i = i + 1;
    }
    proof {
        assert(pieces.deep_view().take(pieces.len() as int) =~= pieces.deep_view());
    }
    text
}

/// A string is cut into one piece at least, no piece holds the separator,
/// and the pieces joined with the separator are the string again.
pub proof fn lemma_split_joins_back(s: Seq<char>, separator: char)
    ensures
        split_on(s, separator).len() > 0,
        forall|k: int, i: int|
            0 <= k < split_on(s, separator).len() && 0 <= i < split_on(s, separator)[k].len()
                ==> #[trigger] split_on(s, separator)[k][i] != separator,
        joined(split_on(s, separator), seq![separator]) == s,
    decreases s.len(),
{
    let pieces = split_on(s, separator);
    if s.len() > 0 {
        let front = s.drop_last();
        let before = split_on(front, separator);
        lemma_split_joins_back(front, separator);
        assert(front.push(s.last()) =~= s);
        if s.last() == separator {
            assert(pieces.drop_last() =~= before);
        } else if before.len() > 1 {
            assert(pieces.drop_last() =~= before.drop_last());
        }
    }
}

/// A string that does not hold the separator is its own single piece.
pub proof fn lemma_split_without_separator(s: Seq<char>, separator: char)
    requires
        forall|i: int| 0 <= i < s.len() ==> s[i] != separator,
    ensures
        split_on(s, separator) == seq![s],
    decreases s.len(),
{
    if s.len() == 0 {
        assert(s =~= Seq::<char>::empty());
    } else {
        let front = s.drop_last();
        lemma_split_without_separator(front, separator);
        assert(front.push(s.last()) =~= s);
    }
}

/// A number written in base ten is one digit at least and digits only,
/// and denotes the number again.
pub proof fn lemma_decimal_reads_back(n: nat)
    ensures
        decimal_digits(n).len() > 0,
        forall|i: int| 0 <= i < decimal_digits(n).len() ==> is_digit(#[trigger] decimal_digits(n)[i]),
        decimal_value(decimal_digits(n)) == n,
    decreases n,
{
    let digits = decimal_digits(n);
    if n < 10 {
        assert(decimal_value(digits.drop_last()) == 0);
    } else {
        lemma_decimal_reads_back(n / 10);
        assert(digits.drop_last() =~= decimal_digits(n / 10));
    }
}

/// A string that begins and ends with a digit has no white space to lose.
pub proof fn lemma_digits_are_trimmed(s: Seq<char>)
    requires
        s.len() > 0,
        is_digit(s[0]),
        is_digit(s.last()),
    ensures
        trimmed(s) == s,
{
}

/// The line that a user enters for an index: the index in base ten, and a
/// line break.
pub open spec fn entered(index: u8) -> Seq<char> {
    decimal(index as int) + seq!['\n']
}

/// A line entered for an index is read as that index, and holds no comma.
pub proof fn lemma_entered_reads_back(index: u8)
    ensures
        parsed_u8(trimmed(entered(index))) == Some(index),
        forall|i: int| 0 <= i < entered(index).len() ==> entered(index)[i] != ',',
{
    let digits = decimal_digits(index as nat);
    let line = entered(index);
    lemma_decimal_reads_back(index as nat);
    lemma_digits_are_trimmed(digits);
    assert(line.drop_last() =~= digits);
}

} // verus!
