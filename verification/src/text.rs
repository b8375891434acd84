//! Text building blocks: decimal numbers, padding, and the few string
//! operations of the standard library that the rest of the crate relies on.

use vstd::prelude::*;
use vstd::string::StringExecFns;

verus! {

/// The character that writes the digit `d`.
pub open spec fn digit_char(d: nat) -> char {
    if d == 0 {
        '0'
    } else if d == 1 {
        '1'
    } else if d == 2 {
        '2'
    } else if d == 3 {
        '3'
    } else if d == 4 {
        '4'
    } else if d == 5 {
        '5'
    } else if d == 6 {
        '6'
    } else if d == 7 {
        '7'
    } else if d == 8 {
        '8'
    } else {
        '9'
    }
}

/// `n` written in base ten, without sign or leading zeros.
pub open spec fn decimal(n: nat) -> Seq<char>
    decreases n,
{
    if n < 10 {
        seq![digit_char(n)]
    } else {
        decimal(n / 10).push(digit_char(n % 10))
    }
}

/// `n` in base ten, with a leading zero where it has a single digit.
pub open spec fn two_digits(n: nat) -> Seq<char> {
    if n < 10 {
        seq!['0', digit_char(n)]
    } else {
        decimal(n)
    }
}

/// `n` in base ten, right-aligned with spaces to a width of three.
pub open spec fn padded_three(n: nat) -> Seq<char> {
    if n < 10 {
        seq![' ', ' ', digit_char(n)]
    } else if n < 100 {
        seq![' '] + decimal(n)
    } else {
        decimal(n)
    }
}

fn digit_text(d: u64) -> (s: &'static str)
    requires
        d < 10,
    ensures
        s@ == seq![digit_char(d as nat)],
{
    proof {
        reveal_strlit("0");
        reveal_strlit("1");
        reveal_strlit("2");
        reveal_strlit("3");
        reveal_strlit("4");
        reveal_strlit("5");
        reveal_strlit("6");
        reveal_strlit("7");
        reveal_strlit("8");
        reveal_strlit("9");
    }
    let s = if d == 0 {
        "0"
    } else if d == 1 {
        "1"
    } else if d == 2 {
        "2"
    } else if d == 3 {
        "3"
    } else if d == 4 {
        "4"
    } else if d == 5 {
        "5"
    } else if d == 6 {
        "6"
    } else if d == 7 {
        "7"
    } else if d == 8 {
        "8"
    } else {
        "9"
    };
    assert(s@ =~= seq![digit_char(d as nat)]);
    s
}

/// Appends `n` in base ten to `out`.
pub fn append_decimal(out: &mut String, n: u64)
    ensures
        final(out)@ == old(out)@ + decimal(n as nat),
    decreases n,
{
    if n >= 10 {
        append_decimal(out, n / 10);
    }
    out.append(digit_text(n % 10));
    proof {
        if n >= 10 {
            assert(final(out)@ =~= old(out)@ + decimal(n as nat));
        } else {
            assert(final(out)@ =~= old(out)@ + decimal(n as nat));
        }
    }
}

/// Appends `n` in base ten to `out`, padded with a zero to two digits.
pub fn append_two_digits(out: &mut String, n: u64)
    ensures
        final(out)@ == old(out)@ + two_digits(n as nat),
{
    if n < 10 {
        proof {
            reveal_strlit("0");
        }
        out.append("0");
    }
    append_decimal(out, n);
    proof {
        assert(final(out)@ =~= old(out)@ + two_digits(n as nat));
    }
}

/// Appends `n` in base ten to `out`, padded with spaces to three characters.
pub fn append_padded_three(out: &mut String, n: u64)
    ensures
        final(out)@ == old(out)@ + padded_three(n as nat),
{
    proof {
        reveal_strlit(" ");
        reveal_strlit("  ");
    }
    if n < 10 {
        out.append("  ");
    } else if n < 100 {
        out.append(" ");
    }
    append_decimal(out, n);
    proof {
        assert(final(out)@ =~= old(out)@ + padded_three(n as nat));
    }
}

/// `n` in base ten as a fresh string.
pub fn decimal_string(n: u64) -> (s: String)
    ensures
        s@ == decimal(n as nat),
{
    let mut s = String::new();
    append_decimal(&mut s, n);
    proof {
        assert(s@ =~= decimal(n as nat));
    }
    s
}

/// The text of `a` followed by the text of `b`.
pub fn joined(a: &str, b: &str) -> (s: String)
    ensures
        s@ == a@ + b@,
{
    let mut s = String::from_str(a);
    s.append(b);
    s
}

/// The text of `a`, `b` and `c` in a row.
pub fn joined3(a: &str, b: &str, c: &str) -> (s: String)
    ensures
        s@ == a@ + b@ + c@,
{
    let mut s = String::from_str(a);
    s.append(b);
    s.append(c);
    s
}

/// The lowercase form of a text, as the standard library computes it for
/// Unicode text.
pub uninterp spec fn lowercased(text: Seq<char>) -> Seq<char>;

/// The lowercase form of `s`. Calls `str::to_lowercase`, whose result is a
/// function of the text alone; the contract names that result `lowercased`.
#[verifier::external_body]
pub(crate) fn to_lowercase(s: &str) -> (lower: String)
    ensures
        lower@ == lowercased(s@),
{
    s.to_lowercase()
}

/// The part of `hay` that starts at `start` and is `len` characters long.
pub open spec fn window(hay: Seq<char>, start: int, len: int) -> Seq<char> {
    hay.subrange(start, start + len)
}

/// Whether `needle` occurs in `hay` as a run of consecutive characters.
pub open spec fn occurs_in(needle: Seq<char>, hay: Seq<char>) -> bool {
    exists|start: int|
        0 <= start && start + needle.len() <= hay.len() && #[trigger] window(
            hay,
            start,
            needle.len() as int,
        ) == needle
}

/// Whether `needle` occurs in `hay`. Calls `str::contains` with a string
/// pattern, which is documented to tell whether the pattern matches a
/// sub-slice of the string.
#[verifier::external_body]
pub(crate) fn contains(hay: &str, needle: &str) -> (found: bool)
    ensures
        found == occurs_in(needle@, hay@),
{
    hay.contains(needle)
}

/// The file name of a path without its extension, where the path has a file
/// name, as `std::path::Path::file_stem` gives it.
pub uninterp spec fn file_stem_of(path: Seq<char>) -> Option<Seq<char>>;

/// The stem of the file name of `path`. Calls `Path::file_stem`; the contract
/// names its result `file_stem_of`.
#[verifier::external_body]
pub(crate) fn path_file_stem(path: &str) -> (stem: Option<String>)
    ensures
        stem.deep_view() == file_stem_of(path@),
{
    std::path::Path::new(path).file_stem().and_then(|s| s.to_str()).map(|s| s.to_string())
}

/// The extension of the file name of a path, where it has one, as
/// `std::path::Path::extension` gives it.
pub uninterp spec fn extension_of(path: Seq<char>) -> Option<Seq<char>>;

/// The extension of the file name of `path`. Calls `Path::extension`; the
/// contract names its result `extension_of`.
#[verifier::external_body]
pub(crate) fn path_extension(path: &str) -> (extension: Option<String>)
    ensures
        extension.deep_view() == extension_of(path@),
{
    std::path::Path::new(path).extension().and_then(|s| s.to_str()).map(|s| s.to_string())
}

/// A path as the standard library prints it for debugging: in double quotes,
/// with the characters that need it escaped.
pub uninterp spec fn debug_text_of(path: Seq<char>) -> Seq<char>;

/// The debugging text of `path`. Formats a `std::path::Path` with `{:?}`;
/// the contract names the result `debug_text_of`.
#[verifier::external_body]
pub(crate) fn path_debug_text(path: &str) -> (text: String)
    ensures
        text@ == debug_text_of(path@),
{
    format!("{:?}", std::path::Path::new(path))
}

/// Appends `c` to `text`. Calls `String::push`.
#[verifier::external_body]
pub(crate) fn push_char(text: &mut String, c: char)
    ensures
        final(text)@ == old(text)@.push(c),
{
    text.push(c);
}

/// Takes the last character off `text`, where it has one.
pub(crate) fn pop_char(text: &mut String) -> (last: Option<char>)
    ensures
        old(text)@.len() == 0 ==> last is None && final(text)@ == old(text)@,
        old(text)@.len() > 0 ==> last == Some(old(text)@.last()) && final(text)@ == old(
            text,
        )@.drop_last(),
{
    let len = text.as_str().unicode_len();
    if len == 0 {
        return None;
    }
    let last = text.as_str().get_char(len - 1);
    let kept = String::from_str(text.as_str().substring_char(0, len - 1));
    *text = kept;
    proof {
        assert(text@ =~= old(text)@.drop_last());
    }
    Some(last)
}

/// A path with the extension of its file name replaced, as
/// `std::path::Path::with_extension` gives it.
pub uninterp spec fn with_extension_of(path: Seq<char>, extension: Seq<char>) -> Seq<char>;

/// Whether `text` holds no character that separates the parts of a path.
pub open spec fn has_no_separator(text: Seq<char>) -> bool {
    forall|i: int| 0 <= i < text.len() ==> text[i] != '/' && text[i] != '\\'
}

/// `path` with the extension of its file name replaced by `extension`. Calls
/// `Path::with_extension`, which panics on an extension that holds a path
/// separator; the contract names its result `with_extension_of`.
#[verifier::external_body]
pub(crate) fn path_with_extension(path: &str, extension: &str) -> (replaced: String)
    requires
        has_no_separator(extension@),
    ensures
        replaced@ == with_extension_of(path@, extension@),
{
    std::path::Path::new(path).with_extension(extension).to_string_lossy().into_owned()
}

/// The value of a digit; nothing for any other character.
pub open spec fn digit_value_of(c: char) -> Option<nat> {
    if c == '0' {
        Some(0nat)
    } else if c == '1' {
        Some(1nat)
    } else if c == '2' {
        Some(2nat)
    } else if c == '3' {
        Some(3nat)
    } else if c == '4' {
        Some(4nat)
    } else if c == '5' {
        Some(5nat)
    } else if c == '6' {
        Some(6nat)
    } else if c == '7' {
        Some(7nat)
    } else if c == '8' {
        Some(8nat)
    } else if c == '9' {
        Some(9nat)
    } else {
        None
    }
}

/// Whether every character of `text` is a digit.
pub open spec fn all_digits(text: Seq<char>) -> bool {
    forall|i: int| 0 <= i < text.len() ==> digit_value_of(#[trigger] text[i]) is Some
}

/// The number that a run of digits writes in base ten; zero for no digits
/// at all. Leading zeros do not count.
pub open spec fn digits_value(text: Seq<char>) -> nat
    decreases text.len(),
{
    if text.len() == 0 {
        0
    } else {
        digits_value(text.drop_last()) * 10 + match digit_value_of(text.last()) {
            Some(d) => d,
            None => 0,
        }
    }
}

/// The number that `text` writes in base ten, where it is one digit or more
/// and nothing else.
pub open spec fn parse_decimal(text: Seq<char>) -> Option<nat> {
    if text.len() > 0 && all_digits(text) {
        Some(digits_value(text))
    } else {
        None
    }
}

/// `n` in base ten in exactly `width` digits, with zeros in front; the
/// digits beyond the width are left off.
pub open spec fn fixed_digits(n: nat, width: nat) -> Seq<char>
    decreases width,
{
    if width == 0 {
        Seq::empty()
    } else {
        fixed_digits(n / 10, (width - 1) as nat).push(digit_char(n % 10))
    }
}

/// Ten to the power of `width`.
pub open spec fn power_of_ten(width: nat) -> nat
    decreases width,
{
    if width == 0 {
        1
    } else {
        10 * power_of_ten((width - 1) as nat)
    }
}

/// A digit character writes its digit.
pub proof fn lemma_digit_char_value(d: nat)
    requires
        d < 10,
    ensures
        digit_value_of(digit_char(d)) == Some(d),
{
}

/// What is written in base ten reads back as the number that was written.
pub proof fn lemma_decimal_reads_back(n: nat)
    ensures
        parse_decimal(decimal(n)) == Some(n),
        decimal(n).len() > 0,
        all_digits(decimal(n)),
        digits_value(decimal(n)) == n,
    decreases n,
{
    let text = decimal(n);
    if n < 10 {
        lemma_digit_char_value(n);
        assert(text.drop_last() =~= Seq::<char>::empty());
        assert(digits_value(text.drop_last()) == 0);
    } else {
        lemma_decimal_reads_back(n / 10);
        lemma_digit_char_value(n % 10);
        assert(text.drop_last() =~= decimal(n / 10));
        assert forall|i: int| 0 <= i < text.len() implies digit_value_of(
            #[trigger] text[i],
        ) is Some by {
            if i < text.len() - 1 {
                assert(text[i] == decimal(n / 10)[i]);
            }
        }
    }
}

/// What is written in a fixed number of digits reads back as the number
/// that was written, as long as the number fits into the digits.
pub proof fn lemma_fixed_digits_read_back(n: nat, width: nat)
    requires
        n < power_of_ten(width),
    ensures
        fixed_digits(n, width).len() == width,
        all_digits(fixed_digits(n, width)),
        digits_value(fixed_digits(n, width)) == n,
    decreases width,
{
    let text = fixed_digits(n, width);
    if width > 0 {
        assert(n / 10 < power_of_ten((width - 1) as nat)) by (nonlinear_arith)
            requires
                n < 10 * power_of_ten((width - 1) as nat),
        ;
        lemma_fixed_digits_read_back(n / 10, (width - 1) as nat);
        lemma_digit_char_value(n % 10);
        assert(text.drop_last() =~= fixed_digits(n / 10, (width - 1) as nat));
        assert forall|i: int| 0 <= i < text.len() implies digit_value_of(
            #[trigger] text[i],
        ) is Some by {
            if i < text.len() - 1 {
                assert(text[i] == fixed_digits(n / 10, (width - 1) as nat)[i]);
            }
        }
    }
}

/// The value of the digit `c`, where it is one.
pub fn digit_of_char(c: char) -> (digit: Option<u64>)
    ensures
        match digit_value_of(c) {
            Some(d) => digit == Some(d as u64),
            None => digit is None,
        },
{
    if c == '0' {
        Some(0)
    } else if c == '1' {
        Some(1)
    } else if c == '2' {
        Some(2)
    } else if c == '3' {
        Some(3)
    } else if c == '4' {
        Some(4)
    } else if c == '5' {
        Some(5)
    } else if c == '6' {
        Some(6)
    } else if c == '7' {
        Some(7)
    } else if c == '8' {
        Some(8)
    } else if c == '9' {
        Some(9)
    } else {
        None
    }
}

/// The number that `text` writes in base ten, where it is digits and nothing
/// else and the number is not beyond the largest that 64 bits hold.
pub fn parse_u64(text: &str) -> (value: Option<u64>)
    ensures
        value == match parse_decimal(text@) {
            Some(n) => if n <= u64::MAX {
                Some(n as u64)
            } else {
                None
            },
            None => None,
        },
{
    let len = text.unicode_len();
    if len == 0 {
        return None;
    }
    let mut value: u64 = 0;
    let mut i: usize = 0;
    proof {
        assert(text@.take(0) =~= Seq::<char>::empty());
    }
    while i < len
        invariant
            i <= len,
            len == text@.len(),
            all_digits(text@.take(i as int)),
            value == digits_value(text@.take(i as int)),
        decreases len - i,
    {
        let c = text.get_char(i);
        proof {
            let longer = text@.take(i + 1);
            assert(longer.drop_last() =~= text@.take(i as int));
            assert(longer.last() == c);
            lemma_digits_value_grows(text@, i as int + 1, len as int);
        }
        match digit_of_char(c) {
            Some(digit) => {
                if value > (u64::MAX - digit) / 10 {
                    proof {
                        assert(text@.take(len as int) =~= text@);
                        assert(digits_value(text@.take(i + 1)) > u64::MAX) by (nonlinear_arith)
                            requires
                                digits_value(text@.take(i + 1)) == value * 10 + digit,
                                value > (u64::MAX - digit) / 10,
                                digit < 10,
                        ;
                    }
                    return None;
                }
                value = value * 10 + digit;
                proof {
                    assert forall|k: int| 0 <= k < i + 1 implies digit_value_of(
                        #[trigger] text@.take(i + 1)[k],
                    ) is Some by {
                        if k < i {
                            assert(text@.take(i + 1)[k] == text@.take(i as int)[k]);
                        }
                    }
                }
            },
            None => {
                proof {
                    assert(digit_value_of(text@[i as int]) is None);
                }
                return None;
            },
        }
        i += 1;
    }
    proof {
        assert(text@.take(len as int) =~= text@);
    }
    Some(value)
}

/// The value of a run of digits is no less than the value of any of its
/// beginnings.
proof fn lemma_digits_value_grows(text: Seq<char>, shorter: int, longer: int)
    requires
        0 <= shorter <= longer <= text.len(),
    ensures
        digits_value(text.take(shorter)) <= digits_value(text.take(longer)),
    decreases longer - shorter,
{
    if shorter < longer {
        lemma_digits_value_grows(text, shorter, longer - 1);
        assert(text.take(longer).drop_last() =~= text.take(longer - 1));
    }
}

/// Appends `n` in exactly `width` digits to `out`.
pub fn append_fixed_digits(out: &mut String, n: u64, width: usize)
    ensures
        final(out)@ == old(out)@ + fixed_digits(n as nat, width as nat),
    decreases width,
{
    if width > 0 {
        append_fixed_digits(out, n / 10, width - 1);
        out.append(digit_text(n % 10));
        proof {
            assert(final(out)@ =~= old(out)@ + fixed_digits(n as nat, width as nat));
        }
    } else {
        proof {
            assert(final(out)@ =~= old(out)@ + fixed_digits(n as nat, width as nat));
        }
    }
}

} // verus!
