//! Numbers as text, and text as numbers.

use vstd::prelude::*;
use vstd::string::StringExecFns;
use vstd::std_specs::iter::IteratorSpec;

verus! {

/// The character for a digit below sixteen, in lower case.
pub open spec fn digit_char(digit: int) -> char {
    if digit == 0 {
        '0'
    } else if digit == 1 {
        '1'
    } else if digit == 2 {
        '2'
    } else if digit == 3 {
        '3'
    } else if digit == 4 {
        '4'
    } else if digit == 5 {
        '5'
    } else if digit == 6 {
        '6'
    } else if digit == 7 {
        '7'
    } else if digit == 8 {
        '8'
    } else if digit == 9 {
        '9'
    } else if digit == 10 {
        'a'
    } else if digit == 11 {
        'b'
    } else if digit == 12 {
        'c'
    } else if digit == 13 {
        'd'
    } else if digit == 14 {
        'e'
    } else {
        'f'
    }
}

/// A number in decimal, without leading zeros.
pub open spec fn decimal_text(value: nat) -> Seq<char>
    decreases value,
{
    if value < 10 {
        seq![digit_char(value as int)]
    } else {
        decimal_text(value / 10).push(digit_char((value % 10) as int))
    }
}

/// A number in hexadecimal, in lower case and without leading zeros.
pub open spec fn hex_text(value: nat) -> Seq<char>
    decreases value,
{
    if value < 16 {
        seq![digit_char(value as int)]
    } else {
        hex_text(value / 16).push(digit_char((value % 16) as int))
    }
}

/// A number with its sign in decimal: a minus before a negative number, and
/// nothing before any other.
pub open spec fn signed_decimal_text(value: int) -> Seq<char> {
    if value < 0 {
        seq!['-'] + decimal_text((-value) as nat)
    } else {
        decimal_text(value as nat)
    }
}

/// Bytes in hexadecimal: two digits in lower case for each byte.
pub open spec fn hex_bytes_text(bytes: Seq<u8>) -> Seq<char>
    decreases bytes.len(),
{
    if bytes.len() == 0 {
        Seq::empty()
    } else {
        hex_bytes_text(bytes.drop_last()).push(digit_char(bytes.last() as int / 16)).push(
            digit_char(bytes.last() as int % 16),
        )
    }
}

/// The text of one digit.
pub fn digit_str(digit: u8) -> (text: &'static str)
    requires
        digit < 16,
    ensures
        text@ == seq![digit_char(digit as int)],
{
    proof {
        reveal_strlit("0");
        reveal_strlit("1");
        reveal_strlit("2");
        reveal_strlit("3");
        reveal_strlit("4");
        reveal_strlit("5");
        reveal_strlit("6");
        reveal_strlit("7");
        reveal_strlit("8");
        reveal_strlit("9");
        reveal_strlit("a");
        reveal_strlit("b");
        reveal_strlit("c");
        reveal_strlit("d");
        reveal_strlit("e");
        reveal_strlit("f");
    }
    let text = if digit == 0 {
        "0"
    } else if digit == 1 {
        "1"
    } else if digit == 2 {
        "2"
    } else if digit == 3 {
        "3"
    } else if digit == 4 {
        "4"
    } else if digit == 5 {
        "5"
    } else if digit == 6 {
        "6"
    } else if digit == 7 {
        "7"
    } else if digit == 8 {
        "8"
    } else if digit == 9 {
        "9"
    } else if digit == 10 {
        "a"
    } else if digit == 11 {
        "b"
    } else if digit == 12 {
        "c"
    } else if digit == 13 {
        "d"
    } else if digit == 14 {
        "e"
    } else {
        "f"
    };
    assert(text@ =~= seq![digit_char(digit as int)]);
    text
}

/// Appends a number in decimal.
pub fn push_decimal(out: &mut String, value: u64)
    ensures
        final(out)@ == old(out)@ + decimal_text(value as nat),
    decreases value,
{
    if value >= 10 {
        push_decimal(out, value / 10);
    }
    out.append(digit_str((value % 10) as u8));
    assert(out@ =~= old(out)@ + decimal_text(value as nat));
}

/// Appends a number with its sign in decimal.
pub fn push_signed_decimal(out: &mut String, value: i64)
    requires
        value > i64::MIN,
    ensures
        final(out)@ == old(out)@ + signed_decimal_text(value as int),
{
    if value < 0 {
        proof {
            reveal_strlit("-");
        }
        out.append("-");
        push_decimal(out, (-value) as u64);
        assert(out@ =~= old(out)@ + signed_decimal_text(value as int));
    } else {
        push_decimal(out, value as u64);
    }
}

/// Appends a number in hexadecimal.
pub fn push_hex(out: &mut String, value: u64)
    ensures
        final(out)@ == old(out)@ + hex_text(value as nat),
    decreases value,
{
    if value >= 16 {
        push_hex(out, value / 16);
    }
    out.append(digit_str((value % 16) as u8));
    assert(out@ =~= old(out)@ + hex_text(value as nat));
}

/// Appends bytes in hexadecimal.
pub fn push_hex_bytes(out: &mut String, bytes: &[u8])
    ensures
        final(out)@ == old(out)@ + hex_bytes_text(bytes@),
{
    let mut i: usize = 0;
    assert(bytes@.take(0) =~= Seq::<u8>::empty());
    assert(out@ =~= old(out)@ + hex_bytes_text(bytes@.take(0)));
    while i < bytes.len()
        invariant
            i <= bytes.len(),
            out@ == old(out)@ + hex_bytes_text(bytes@.take(i as int)),
        decreases bytes.len() - i,
    {
        let byte: u8 = bytes[i];
        let ghost before = out@;
        out.append(digit_str(byte / 16));
        out.append(digit_str(byte % 16));
        proof {
            let next = bytes@.take(i as int + 1);
            assert(next.drop_last() =~= bytes@.take(i as int));
            assert(next.last() == byte);
            assert(out@ =~= old(out)@ + hex_bytes_text(next));
        }
        i += 1;
    }
    assert(bytes@.take(bytes.len() as int) =~= bytes@);
}

/// The characters of a text, one by one.
pub fn chars_of(text: &str) -> (chars: Vec<char>)
    ensures
        chars@ == text@,
{
    let mut chars: Vec<char> = Vec::new();
    let mut rest = text.chars();
    loop
        invariant
            chars@ + rest.remaining() == text@,
            rest.decrease() is Some,
        ensures
            chars@ == text@,
        decreases rest.decrease()->0,
    {
        match rest.next() {
            Some(c) => {
                chars.push(c);
                assert(chars@ + rest.remaining() =~= text@);
            },
            None => {
                assert(chars@ =~= text@);
                break ;
            },
        }
    }
    chars
}

/// The value of a character as a digit: decimal digits, and in hexadecimal also
/// the letters `a` to `f` in either case.
pub open spec fn digit_value(c: char, hex: bool) -> Option<int> {
    if '0' <= c <= '9' {
        Some(c as int - '0' as int)
    } else if hex && 'a' <= c <= 'f' {
        Some(c as int - 'a' as int + 10)
    } else if hex && 'A' <= c <= 'F' {
        Some(c as int - 'A' as int + 10)
    } else {
        None
    }
}

/// Whether every character is a digit.
pub open spec fn all_digits(digits: Seq<char>, hex: bool) -> bool {
    forall|i: int| 0 <= i < digits.len() ==> (#[trigger] digit_value(digits[i], hex)) is Some
}

/// The number that digits stand for, the most significant first.
pub open spec fn digits_value(digits: Seq<char>, hex: bool) -> nat
    decreases digits.len(),
{
    if digits.len() == 0 {
        0
    } else {
        let high = digits_value(digits.drop_last(), hex);
        let low = match digit_value(digits.last(), hex) {
            Some(d) => d as nat,
            None => 0,
        };
        if hex {
            high * 16 + low
        } else {
            high * 10 + low
        }
    }
}

/// The number that a text stands for: an optional `+` and then at least one
/// digit, with a value that 32 bits can hold. Any other text stands for none.
pub open spec fn parse_u32(text: Seq<char>, hex: bool) -> Option<u32> {
    let digits = if text.len() > 0 && text[0] == '+' {
        text.drop_first()
    } else {
        text
    };
    if digits.len() > 0 && all_digits(digits, hex) && digits_value(digits, hex) <= u32::MAX {
        Some(digits_value(digits, hex) as u32)
    } else {
        None
    }
}

/// The characters for digits are digits, of the value that they were written
/// for.
proof fn lemma_digit_char(digit: int, hex: bool)
    requires
        0 <= digit < (if hex { 16int } else { 10int }),
    ensures
        digit_value(digit_char(digit), hex) == Some(digit),
{
}

/// A number written in decimal reads as the number: its text is digits only,
/// and their value is the number.
pub proof fn lemma_decimal_reads_back(value: nat)
    ensures
        decimal_text(value).len() > 0,
        all_digits(decimal_text(value), false),
        digits_value(decimal_text(value), false) == value,
        value < 10 || decimal_text(value)[0] != '0',
    decreases value,
{
    let text = decimal_text(value);
    lemma_digit_char((value % 10) as int, false);
    assert(text.last() == digit_char((value % 10) as int));
    if value >= 10 {
        lemma_decimal_reads_back(value / 10);
        assert(text.drop_last() =~= decimal_text(value / 10));
        assert(text[0] == decimal_text(value / 10)[0]);
        if value / 10 < 10 {
            lemma_digit_char((value / 10) as int, false);
        }
    } else {
        assert(text.drop_last() =~= Seq::<char>::empty());
        assert(digits_value(text.drop_last(), false) == 0);
    }
    assert forall|i: int| 0 <= i < text.len() implies (#[trigger] digit_value(text[i], false))
        is Some by {
        if i < text.len() - 1 {
            assert(text[i] == text.drop_last()[i]);
        }
    }
}

/// A number written in hexadecimal reads as the number.
pub proof fn lemma_hex_reads_back(value: nat)
    ensures
        hex_text(value).len() > 0,
        all_digits(hex_text(value), true),
        digits_value(hex_text(value), true) == value,
    decreases value,
{
    let text = hex_text(value);
    lemma_digit_char((value % 16) as int, true);
    assert(text.last() == digit_char((value % 16) as int));
    if value >= 16 {
        lemma_hex_reads_back(value / 16);
        assert(text.drop_last() =~= hex_text(value / 16));
    } else {
        assert(text.drop_last() =~= Seq::<char>::empty());
        assert(digits_value(text.drop_last(), true) == 0);
    }
    assert forall|i: int| 0 <= i < text.len() implies (#[trigger] digit_value(text[i], true))
        is Some by {
        if i < text.len() - 1 {
            assert(text[i] == text.drop_last()[i]);
        }
    }
}

/// What is written as a number of 32 bits is read as that number, in decimal
/// and in hexadecimal.
pub proof fn lemma_numbers_round_trip(value: u32)
    ensures
        parse_u32(decimal_text(value as nat), false) == Some(value),
        parse_u32(hex_text(value as nat), true) == Some(value),
{
    lemma_decimal_reads_back(value as nat);
    lemma_hex_reads_back(value as nat);
    lemma_digit_char((value as nat % 10) as int, false);
    lemma_digit_char((value as nat % 16) as int, true);
    let decimal = decimal_text(value as nat);
    let hex = hex_text(value as nat);
    assert(digit_value(decimal[0], false) is Some);
    assert(digit_value(hex[0], true) is Some);
}

/// Bytes in hexadecimal take two characters each.
pub proof fn lemma_hex_bytes_length(bytes: Seq<u8>)
    ensures
        hex_bytes_text(bytes).len() == 2 * bytes.len(),
        all_digits(hex_bytes_text(bytes), true),
    decreases bytes.len(),
{
    if bytes.len() > 0 {
        lemma_hex_bytes_length(bytes.drop_last());
        lemma_digit_char(bytes.last() as int / 16, true);
        lemma_digit_char(bytes.last() as int % 16, true);
        let text = hex_bytes_text(bytes);
        let before = hex_bytes_text(bytes.drop_last());
        assert forall|i: int| 0 <= i < text.len() implies (#[trigger] digit_value(text[i], true))
            is Some by {
            if i < before.len() {
                assert(text[i] == before[i]);
            }
        }
    }
}

/// The value of a character as a digit.
pub fn digit_of(c: char, hex: bool) -> (digit: Option<u32>)
    ensures
        digit matches Some(d) ==> digit_value(c, hex) == Some(d as int) && d < 16,
        digit is None ==> digit_value(c, hex) is None,
{
    if '0' <= c && c <= '9' {
        Some(c as u32 - '0' as u32)
    } else if hex && 'a' <= c && c <= 'f' {
        Some(c as u32 - 'a' as u32 + 10)
    } else if hex && 'A' <= c && c <= 'F' {
        Some(c as u32 - 'A' as u32 + 10)
    } else {
        None
    }
}

/// Reads the characters from `from` up to `to` as a number.
pub fn parse_number(chars: &Vec<char>, from: usize, to: usize, hex: bool) -> (number: Option<u32>)
    requires
        from <= to <= chars.len(),
    ensures
        number == parse_u32(chars@.subrange(from as int, to as int), hex),
{
    let ghost text = chars@.subrange(from as int, to as int);
    let start: usize = if from < to && chars[from] == '+' {
        from + 1
    } else {
        from
    };
    let ghost digits = chars@.subrange(start as int, to as int);
    assert(digits =~= if text.len() > 0 && text[0] == '+' {
        text.drop_first()
    } else {
        text
    });
    if start == to {
        return None;
    }
    let mut value: u64 = 0;
    let mut over: bool = false;
    let mut i: usize = start;
    assert(digits.take(0) =~= Seq::<char>::empty());
    while i < to
        invariant
            from <= start <= i <= to <= chars.len(),
            text == chars@.subrange(from as int, to as int),
            digits == chars@.subrange(start as int, to as int),
            digits == if text.len() > 0 && text[0] == '+' {
                text.drop_first()
            } else {
                text
            },
            all_digits(digits.take(i - start), hex),
            !over ==> value == digits_value(digits.take(i - start), hex) && value <= u32::MAX,
            over ==> digits_value(digits.take(i - start), hex) > u32::MAX,
        decreases to - i,
    {
        let ghost seen = digits.take(i - start);
        let ghost next = digits.take(i - start + 1);
        assert(next.drop_last() =~= seen);
        assert(next.last() == chars[i as int]);
        match digit_of(chars[i], hex) {
            None => {
                assert(digit_value(digits[i - start], hex) is None);
                return None;
            },
            Some(d) => {
                assert forall|j: int| 0 <= j < next.len() implies (#[trigger] digit_value(
                    next[j],
                    hex,
                )) is Some by {
                    if j < seen.len() {
                        assert(next[j] == seen[j]);
                    }
                }
                if !over {
                    value = if hex {
                        value * 16 + d as u64
                    } else {
                        value * 10 + d as u64
                    };
                    if value > 0xffff_ffff {
                        over = true;
                    }
                }
            },
        }
        i += 1;
    }
    assert(digits.take(to - start) =~= digits);
    if over {
        None
    } else {
        Some(value as u32)
    }
}

} // verus!
