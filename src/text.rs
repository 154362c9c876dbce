use vstd::prelude::*;

verus! {

/// Relies on `String::push`: appends one character.
#[verifier::external_body]
pub(crate) fn push_char(s: &mut String, c: char)
    ensures
        final(s)@ == old(s)@.push(c),
{
    s.push(c)
}

/// Relies on `String::push_str`: appends the characters of `t`.
#[verifier::external_body]
pub(crate) fn push_str(s: &mut String, t: &str)
    ensures
        final(s)@ == old(s)@ + t@,
{
    s.push_str(t)
}

/// The character of a decimal digit
pub open spec fn digit_char(d: nat) -> char {
    if d == 0 { '0' }
    else if d == 1 { '1' }
    else if d == 2 { '2' }
    else if d == 3 { '3' }
    else if d == 4 { '4' }
    else if d == 5 { '5' }
    else if d == 6 { '6' }
    else if d == 7 { '7' }
    else if d == 8 { '8' }
    else { '9' }
}

/// Whether `c` is one of `0` to `9`
pub open spec fn is_digit(c: char) -> bool {
    '0' <= c && c <= '9'
}

/// The value of a decimal digit character
pub open spec fn digit_value(c: char) -> nat {
    (c as u32 - '0' as u32) as nat
}

/// The decimal text of a number, without sign or leading zeros
pub open spec fn decimal(n: nat) -> Seq<char>
    decreases n,
{
    if n < 10 {
        seq![digit_char(n)]
    } else {
        decimal(n / 10).push(digit_char(n % 10))
    }
}

/// The number that a sequence of decimal digits denotes
pub open spec fn digits_value(s: Seq<char>) -> nat
    decreases s.len(),
{
    if s.len() == 0 {
        0
    } else {
        digits_value(s.drop_last()) * 10 + digit_value(s.last())
    }
}

/// Whether `s` is a non-empty run of decimal digits
pub open spec fn all_digits(s: Seq<char>) -> bool {
    s.len() > 0 && forall|i: int| 0 <= i < s.len() ==> is_digit(#[trigger] s[i])
}

/// The light id that a key of a light listing denotes: its decimal value, where
/// the key is all digits and the value fits a `usize`
pub open spec fn light_id_of(s: Seq<char>) -> Option<usize> {
    if all_digits(s) && digits_value(s) <= usize::MAX {
        Some(digits_value(s) as usize)
    } else {
        None
    }
}

proof fn lemma_digit_char(d: nat)
    requires
        d < 10,
    ensures
        is_digit(digit_char(d)),
        digit_value(digit_char(d)) == d,
{
}

/// A decimal number reads back as itself, and its text is all digits.
pub proof fn lemma_decimal_reads_back(n: nat)
    ensures
        all_digits(decimal(n)),
        digits_value(decimal(n)) == n,
    decreases n,
{
    lemma_digit_char(n % 10);
    if n < 10 {
        assert(decimal(n).drop_last() =~= Seq::<char>::empty());
        assert(digits_value(Seq::<char>::empty()) == 0);
    } else {
        lemma_decimal_reads_back(n / 10);
        assert(decimal(n).drop_last() =~= decimal(n / 10));
        assert(digits_value(decimal(n)) == digits_value(decimal(n / 10)) * 10 + n % 10);
        assert((n / 10) * 10 + n % 10 == n) by (nonlinear_arith);
        let s = decimal(n);
        assert forall|i: int| 0 <= i < s.len() implies is_digit(#[trigger] s[i]) by {
            if i < s.len() - 1 {
                assert(s[i] == decimal(n / 10)[i]);
            }
        }
    }
}

/// Digits appended to a run of digits never lower its value.
proof fn lemma_digits_value_grows(s: Seq<char>, i: int)
    requires
        0 <= i <= s.len(),
    ensures
        digits_value(s.take(i)) <= digits_value(s),
    decreases s.len() - i,
{
    if i < s.len() {
        lemma_digits_value_grows(s, i + 1);
        assert(s.take(i + 1).drop_last() =~= s.take(i));
    } else {
        assert(s.take(i) =~= s);
    }
}

/// Appends the decimal text of `n`.
pub fn push_decimal(out: &mut String, n: u64)
    ensures
        final(out)@ == old(out)@ + decimal(n as nat),
    decreases n,
{
    if n >= 10 {
        push_decimal(out, n / 10);
    }
    let d = n % 10;
    let c = if d == 0 { '0' }
        else if d == 1 { '1' }
        else if d == 2 { '2' }
        else if d == 3 { '3' }
        else if d == 4 { '4' }
        else if d == 5 { '5' }
        else if d == 6 { '6' }
        else if d == 7 { '7' }
        else if d == 8 { '8' }
        else { '9' };
    push_char(out, c);
}

/// Reads a key of a light listing as a light id.
pub fn parse_light_id(key: &str) -> (r: Option<usize>)
    ensures
        r == light_id_of(key@),
{
    let len = key.unicode_len();
    if len == 0 {
        return None;
    }
    let mut value: usize = 0;
    let mut i: usize = 0;
    while i < len
        invariant
            len == key@.len(),
            i <= len,
            value == digits_value(key@.take(i as int)),
            forall|j: int| 0 <= j < i ==> is_digit(#[trigger] key@[j]),
        decreases len - i,
    {
        let c = key.get_char(i);
        if !('0' <= c && c <= '9') {
            return None;
        }
        let d = (c as u32 - '0' as u32) as usize;
        proof {
            assert(key@.take(i + 1).drop_last() =~= key@.take(i as int));
        }
        if value > (usize::MAX - d) / 10 {
            proof {
                assert(digits_value(key@.take(i + 1)) > usize::MAX) by (nonlinear_arith)
                    requires
                        value > (usize::MAX - d) / 10,
                        digits_value(key@.take(i + 1)) == value * 10 + d,
                        d <= 9,
                ;
                lemma_digits_value_grows(key@, i + 1);
            }
            return None;
        }
        value = value * 10 + d;
        i = i + 1;
    }
    proof {
        assert(key@.take(len as int) =~= key@);
    }
    Some(value)
}

/// The hexadecimal digit of a value below 16, in lower case
pub open spec fn hex_char(d: nat) -> char {
    if d < 10 {
        digit_char(d)
    } else if d == 10 { 'a' }
    else if d == 11 { 'b' }
    else if d == 12 { 'c' }
    else if d == 13 { 'd' }
    else if d == 14 { 'e' }
    else { 'f' }
}

/// How one character stands inside a JSON string literal: quote and backslash
/// are escaped, control characters written as `\u00XX`, all others as they are
pub open spec fn escape_char(c: char) -> Seq<char> {
    if c == '"' {
        seq!['\\', '"']
    } else if c == '\\' {
        seq!['\\', '\\']
    } else if (c as u32) < 0x20 {
        seq!['\\', 'u', '0', '0', hex_char((c as u32 / 16) as nat), hex_char((c as u32 % 16) as nat)]
    } else {
        seq![c]
    }
}

/// The escaped characters of a string, without the enclosing quotes
pub open spec fn escape(s: Seq<char>) -> Seq<char>
    decreases s.len(),
{
    if s.len() == 0 {
        seq![]
    } else {
        escape(s.drop_last()) + escape_char(s.last())
    }
}

/// A string as a JSON string literal
pub open spec fn json_string(s: Seq<char>) -> Seq<char> {
    seq!['"'] + escape(s) + seq!['"']
}

fn hex_digit(d: u32) -> (c: char)
    requires
        d < 16,
    ensures
        c == hex_char(d as nat),
{
    if d == 0 { '0' }
    else if d == 1 { '1' }
    else if d == 2 { '2' }
    else if d == 3 { '3' }
    else if d == 4 { '4' }
    else if d == 5 { '5' }
    else if d == 6 { '6' }
    else if d == 7 { '7' }
    else if d == 8 { '8' }
    else if d == 9 { '9' }
    else if d == 10 { 'a' }
    else if d == 11 { 'b' }
    else if d == 12 { 'c' }
    else if d == 13 { 'd' }
    else if d == 14 { 'e' }
    else { 'f' }
}

/// Appends `s` as a JSON string literal.
pub fn push_json_string(out: &mut String, s: &str)
    ensures
        final(out)@ == old(out)@ + json_string(s@),
{
    let ghost start = out@;
    push_char(out, '"');
    let len = s.unicode_len();
    let mut i: usize = 0;
    while i < len
        invariant
            len == s@.len(),
            i <= len,
            out@ == start + seq!['"'] + escape(s@.take(i as int)),
        decreases len - i,
    {
        let c = s.get_char(i);
        let ghost before = out@;
        if c == '"' {
            push_char(out, '\\');
            push_char(out, '"');
        } else if c == '\\' {
            push_char(out, '\\');
            push_char(out, '\\');
        } else if (c as u32) < 0x20 {
            push_char(out, '\\');
            push_char(out, 'u');
            push_char(out, '0');
            push_char(out, '0');
            push_char(out, hex_digit(c as u32 / 16));
            push_char(out, hex_digit(c as u32 % 16));
        } else {
            push_char(out, c);
        }
        proof {
            assert(out@ =~= before + escape_char(c));
            assert(s@.take(i + 1).drop_last() =~= s@.take(i as int));
            assert(s@.take(i + 1).last() == c);
        }
        i = i + 1;
    }
    push_char(out, '"');
    proof {
        assert(s@.take(len as int) =~= s@);
        assert(out@ =~= old(out)@ + json_string(s@));
    }
}

} // verus!
