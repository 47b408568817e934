//! What the overrides need of text: trimming, ASCII case folding, and the
//! decimal form of integers.
//!
//! Strings are modelled as the sequence of their characters.
use vstd::prelude::*;

verus! {

/// The characters with the Unicode property `White_Space`.
pub open spec fn is_white_space(c: char) -> bool {
    let code = c as int;
    ||| 0x9 <= code <= 0xd
    ||| code == 0x20
    ||| code == 0x85
    ||| code == 0xa0
    ||| code == 0x1680
    ||| 0x2000 <= code <= 0x200a
    ||| code == 0x2028
    ||| code == 0x2029
    ||| code == 0x202f
    ||| code == 0x205f
    ||| code == 0x3000
}

/// `s` without the white space at its two ends.
pub open spec fn trimmed(s: Seq<char>) -> Seq<char>
    decreases s.len(),
{
    if s.len() == 0 {
        s
    } else if is_white_space(s.first()) {
        trimmed(s.drop_first())
    } else if is_white_space(s.last()) {
        trimmed(s.drop_last())
    } else {
        s
    }
}

/// `c`, with `'A'` to `'Z'` mapped to `'a'` to `'z'`.
pub open spec fn ascii_lowercase_char(c: char) -> char {
    if 'A' <= c <= 'Z' {
        (c as int + 32) as char
    } else {
        c
    }
}

/// `s` with each ASCII capital letter replaced by the small one.
pub open spec fn ascii_lowercase(s: Seq<char>) -> Seq<char> {
    s.map_values(|c: char| ascii_lowercase_char(c))
}

pub open spec fn is_digit(c: char) -> bool {
    '0' <= c <= '9'
}

pub open spec fn all_digits(s: Seq<char>) -> bool {
    forall|i: int| 0 <= i < s.len() ==> is_digit(#[trigger] s[i])
}

/// The number that the digits of `s` spell in base ten.
pub open spec fn digits_value(s: Seq<char>) -> int
    decreases s.len(),
{
    if s.len() == 0 {
        0
    } else {
        digits_value(s.drop_last()) * 10 + (s.last() as int - '0' as int)
    }
}

/// The integer that `s` spells: an optional sign, then one or more digits and
/// nothing else.
pub open spec fn integer_value(s: Seq<char>) -> Option<int> {
    let signed = s.len() > 0 && (s[0] == '+' || s[0] == '-');
    let digits = if signed {
        s.drop_first()
    } else {
        s
    };
    if digits.len() == 0 || !all_digits(digits) {
        None
    } else if s[0] == '-' {
        Some(-digits_value(digits))
    } else {
        Some(digits_value(digits))
    }
}

/// The `i64` that `s` spells, if it spells an integer in that range.
pub open spec fn i64_value(s: Seq<char>) -> Option<i64> {
    match integer_value(s) {
        Some(n) => if i64::MIN <= n <= i64::MAX {
            Some(n as i64)
        } else {
            None
        },
        None => None,
    }
}

/// The digit character for `d`.
pub open spec fn digit_char(d: int) -> char {
    ('0' as int + d) as char
}

/// The digits of `n` in base ten, without leading zeros.
pub open spec fn digits_of(n: nat) -> Seq<char>
    decreases n,
{
    if n < 10 {
        seq![digit_char(n as int)]
    } else {
        digits_of(n / 10).push(digit_char((n % 10) as int))
    }
}

/// `n` in base ten: a minus sign where it is negative, then its digits.
pub open spec fn decimal(n: int) -> Seq<char> {
    if n < 0 {
        seq!['-'] + digits_of((-n) as nat)
    } else {
        digits_of(n as nat)
    }
}

/// `str::trim` removes leading and trailing white space, where white space is
/// what has the Unicode property `White_Space`.
pub assume_specification[ str::trim ](s: &str) -> (res: &str)
    ensures
        res@ == trimmed(s@),
;

/// `str::to_ascii_lowercase` maps `'A'` to `'Z'` to `'a'` to `'z'` and leaves
/// every other character as it is.
pub assume_specification[ str::to_ascii_lowercase ](s: &str) -> (res: String)
    ensures
        res@ == ascii_lowercase(s@),
;

/// `str::parse::<i64>` accepts an optional `+` or `-` followed by one or more
/// digits and nothing else, and fails where the number is out of range.
#[verifier::external_body]
pub(crate) fn parse_i64(s: &str) -> (res: Option<i64>)
    ensures
        res == i64_value(s@),
{
    s.parse::<i64>().ok()
}

/// `i64::to_string` writes the number in base ten, with a minus sign where it
/// is negative and without leading zeros.
#[verifier::external_body]
pub(crate) fn i64_to_string(value: i64) -> (res: String)
    ensures
        res@ == decimal(value as int),
{
    value.to_string()
}

/// Whether `s` reads `text`.
pub(crate) fn reads(s: &String, text: &str) -> (res: bool)
    ensures
        res == (s@ == text@),
{
    *s == text.to_owned()
}

/// Trimmed text neither starts nor ends with white space, and trimming it again
/// changes nothing.
pub proof fn lemma_trimmed_of_trimmed(s: Seq<char>)
    ensures
        trimmed(trimmed(s)) == trimmed(s),
        trimmed(s).len() > 0 ==> !is_white_space(trimmed(s).first()) && !is_white_space(
            trimmed(s).last(),
        ),
    decreases s.len(),
{
    if s.len() == 0 {
    } else if is_white_space(s.first()) {
        lemma_trimmed_of_trimmed(s.drop_first());
    } else if is_white_space(s.last()) {
        lemma_trimmed_of_trimmed(s.drop_last());
    }
}

/// Text is some white space, then its trimmed form, then some white space, and
/// the trimmed form has none at its ends: nothing else is taken away, and
/// nothing is put in.
pub proof fn law_trimming_removes_white_space_at_the_ends(s: Seq<char>) -> (ends: (int, int))
    ensures
        0 <= ends.0 <= ends.1 <= s.len(),
        trimmed(s) == s.subrange(ends.0, ends.1),
        forall|i: int| 0 <= i < ends.0 || ends.1 <= i < s.len() ==> is_white_space(#[trigger] s[i]),
        ends.0 < ends.1 ==> !is_white_space(s[ends.0]) && !is_white_space(s[ends.1 - 1]),
    decreases s.len(),
{
    if s.len() == 0 {
        assert(s.subrange(0, 0) =~= s);
        (0, 0)
    } else if is_white_space(s.first()) {
        let rest = s.drop_first();
        let (from, to) = law_trimming_removes_white_space_at_the_ends(rest);
        assert forall|i: int| 0 <= i < from + 1 || to + 1 <= i < s.len() implies is_white_space(
            #[trigger] s[i],
        ) by {
            if i > 0 {
                assert(s[i] == rest[i - 1]);
            }
        }
        assert(rest.subrange(from, to) =~= s.subrange(from + 1, to + 1));
        (from + 1, to + 1)
    } else if is_white_space(s.last()) {
        let rest = s.drop_last();
        let (from, to) = law_trimming_removes_white_space_at_the_ends(rest);
        assert forall|i: int| 0 <= i < from || to <= i < s.len() implies is_white_space(
            #[trigger] s[i],
        ) by {
            if i < rest.len() {
                assert(s[i] == rest[i]);
            }
        }
        assert(rest.subrange(from, to) =~= s.subrange(from, to));
        (from, to)
    } else {
        assert(s.subrange(0, s.len() as int) =~= s);
        (0, s.len() as int)
    }
}

/// Digits spell a number, a sign before them is that of the number, and one more
/// digit behind them counts for one while they count for ten.
pub proof fn law_digits_spell_numbers(digits: Seq<char>, digit: char)
    requires
        digits.len() > 0,
        forall|i: int| 0 <= i < digits.len() ==> '0' <= #[trigger] digits[i] <= '9',
        '0' <= digit <= '9',
    ensures
        integer_value(seq![digit]) == Some(digit as int - '0' as int),
        integer_value(digits) is Some,
        integer_value(digits.push(digit)) == Some(
            integer_value(digits)->0 * 10 + (digit as int - '0' as int),
        ),
        integer_value(seq!['+'] + digits) == integer_value(digits),
        integer_value(seq!['-'] + digits) == Some(-(integer_value(digits)->0)),
{
    assert(seq![digit].drop_last() =~= Seq::<char>::empty());
    assert(digits_value(seq![digit].drop_last()) == 0);
    assert(is_digit(digits[0]));
    assert(digits.push(digit).drop_last() =~= digits);
    assert(is_digit(digits.push(digit)[0]));
    assert((seq!['+'] + digits).drop_first() =~= digits);
    assert((seq!['-'] + digits).drop_first() =~= digits);
}

/// Text without a digit, or with anything but digits behind an optional sign,
/// spells no number.
pub proof fn law_other_text_spells_no_number(s: Seq<char>, i: int)
    requires
        s.len() == 0 || (s.len() == 1 && (s[0] == '+' || s[0] == '-')) || (0 <= i < s.len() && !(
        '0' <= s[i] <= '9') && (i > 0 || (s[0] != '+' && s[0] != '-'))),
    ensures
        integer_value(s) is None,
{
    if s.len() > 0 && (s[0] == '+' || s[0] == '-') {
        if 0 < i < s.len() {
            assert(s.drop_first()[i - 1] == s[i]);
        }
    } else if s.len() > 0 {
        assert(!is_digit(s[i]));
    }
}

/// An `i64` is read just where the number that the text spells is in its range.
pub proof fn law_i64_is_read_in_range(s: Seq<char>)
    ensures
        i64_value(s) is Some <==> integer_value(s) is Some && -0x8000_0000_0000_0000
            <= integer_value(s)->0 <= 0x7fff_ffff_ffff_ffff,
        i64_value(s) is Some ==> i64_value(s)->0 == integer_value(s)->0,
{
}

/// Folding keeps the length of a text and every character of it but the ASCII
/// capital letters, each of which becomes the small letter at its place in the
/// alphabet.
pub proof fn law_folding_changes_capital_letters_alone(s: Seq<char>)
    ensures
        ascii_lowercase(s).len() == s.len(),
        forall|i: int|
            0 <= i < s.len() ==> {
                let folded = #[trigger] ascii_lowercase(s)[i];
                if 'A' <= s[i] <= 'Z' {
                    'a' <= folded <= 'z' && folded as int - 'a' as int == s[i] as int - 'A' as int
                } else {
                    folded == s[i]
                }
            },
{
}

/// A character is white space just where its folded form is.
proof fn lemma_lowercase_keeps_white_space(c: char)
    ensures
        is_white_space(ascii_lowercase_char(c)) == is_white_space(c),
{
}

/// Trimming and case folding may be done in either order.
pub proof fn lemma_trimmed_of_lowercase(s: Seq<char>)
    ensures
        trimmed(ascii_lowercase(s)) == ascii_lowercase(trimmed(s)),
    decreases s.len(),
{
    if s.len() == 0 {
        assert(ascii_lowercase(s) =~= s);
    } else {
        lemma_lowercase_keeps_white_space(s.first());
        lemma_lowercase_keeps_white_space(s.last());
        if is_white_space(s.first()) {
            assert(ascii_lowercase(s).drop_first() =~= ascii_lowercase(s.drop_first()));
            lemma_trimmed_of_lowercase(s.drop_first());
        } else if is_white_space(s.last()) {
            assert(ascii_lowercase(s).drop_last() =~= ascii_lowercase(s.drop_last()));
            lemma_trimmed_of_lowercase(s.drop_last());
        }
    }
}

/// The digits of a number are digits, at least one, and spell that number.
proof fn lemma_digits_of(n: nat)
    ensures
        digits_of(n).len() > 0,
        all_digits(digits_of(n)),
        digits_value(digits_of(n)) == n,
    decreases n,
{
    if n < 10 {
        let digits = digits_of(n);
        assert(digits.drop_last() =~= Seq::<char>::empty());
        assert(digits_value(digits.drop_last()) == 0);
    } else {
        lemma_digits_of(n / 10);
        assert(digits_of(n).drop_last() =~= digits_of(n / 10));
    }
}

/// The decimal form of an `i64` reads back as that `i64`, and holds no white
/// space to trim.
pub proof fn lemma_decimal_reads_back(n: i64)
    ensures
        i64_value(decimal(n as int)) == Some(n),
        trimmed(decimal(n as int)) == decimal(n as int),
{
    let text = decimal(n as int);
    if n < 0 {
        lemma_digits_of((-n) as nat);
        assert(text.drop_first() =~= digits_of((-n) as nat));
        assert(text.last() == digits_of((-n) as nat).last());
    } else {
        lemma_digits_of(n as nat);
        assert(is_digit(text[0]));
    }
    assert(!is_white_space(text.first()));
    assert(!is_white_space(text.last()));
}

} // verus!
