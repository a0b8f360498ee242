//! Bytes as base58 text.
use vstd::prelude::*;

verus! {

/// The character that stands for the base58 digit `d`: the digits without `0`,
/// then the capitals without `I` and `O`, then the small letters without `l`.
pub open spec fn base58_digit(d: nat) -> char
    recommends
        d < 58,
{
    if d < 9 {
        ('1' as int + d) as char
    } else if d < 17 {
        ('A' as int + (d - 9)) as char
    } else if d < 22 {
        ('J' as int + (d - 17)) as char
    } else if d < 33 {
        ('P' as int + (d - 22)) as char
    } else if d < 44 {
        ('a' as int + (d - 33)) as char
    } else {
        ('m' as int + (d - 44)) as char
    }
}

/// `n` in base58, without leading zeros: nothing at all for zero.
pub open spec fn base58_number(n: nat) -> Seq<char>
    decreases n,
{
    if n == 0 {
        Seq::empty()
    } else {
        base58_number(n / 58).push(base58_digit(n % 58))
    }
}

/// The number that `bytes` write with the highest byte first.
pub open spec fn big_endian(bytes: Seq<u8>) -> nat
    decreases bytes.len(),
{
    if bytes.len() == 0 {
        0
    } else {
        big_endian(bytes.drop_last()) * 256 + bytes.last() as nat
    }
}

/// How many zeros `bytes` begin with.
pub open spec fn leading_zeros(bytes: Seq<u8>) -> nat
    decreases bytes.len(),
{
    if bytes.len() == 0 || bytes[0] != 0 {
        0
    } else {
        1 + leading_zeros(bytes.drop_first())
    }
}

/// `bytes` in base58: a `1` for each leading zero byte, then the digits of the
/// number that the bytes write.
pub open spec fn base58(bytes: Seq<u8>) -> Seq<char> {
    Seq::new(leading_zeros(bytes), |i: int| '1') + base58_number(big_endian(bytes))
}

/// As many bytes with the same base58 text are the same bytes.
pub proof fn base58_injective(a: Seq<u8>, b: Seq<u8>)
    requires
        a.len() == b.len(),
        base58(a) == base58(b),
    ensures
        a == b,
{
    number_of_text(leading_zeros(a), big_endian(a));
    number_of_text(leading_zeros(b), big_endian(b));
    big_endian_injective(a, b);
}

/// The text of bytes is a base58 numeral of the number that the bytes write: its
/// characters are digits, and they read as that number. It begins with as many
/// `1`s as the bytes with zeros.
pub proof fn base58_writes_the_number(bytes: Seq<u8>)
    ensures
        ({
            let text = base58(bytes);
            let zeros = leading_zeros(bytes);
            &&& text_number(text) == big_endian(bytes)
            &&& forall|i: int| 0 <= i < text.len() ==> is_base58_digit(#[trigger] text[i])
            &&& zeros <= text.len()
            &&& forall|i: int| 0 <= i < zeros ==> #[trigger] text[i] == '1'
            &&& zeros < text.len() ==> text[zeros as int] != '1'
        }),
{
    number_of_text(leading_zeros(bytes), big_endian(bytes));
    number_shape(big_endian(bytes));
    let number = base58_number(big_endian(bytes));
    let zeros = leading_zeros(bytes);
    let text = base58(bytes);
    assert forall|i: int| 0 <= i < text.len() implies is_base58_digit(#[trigger] text[i]) by {
        if i >= zeros {
            assert(text[i] == number[i - zeros]);
        }
    }
    if zeros < text.len() {
        assert(text[zeros as int] == number[0]);
    }
}

/// Bytes write the sum of their values, each 256 times what it would be worth
/// one place further right.
pub proof fn big_endian_places(front: Seq<u8>, last: u8)
    ensures
        big_endian(front.push(last)) == 256 * big_endian(front) + last,
        big_endian(Seq::empty()) == 0,
{
    assert(front.push(last).drop_last() =~= front);
}

/// The zeros in front are all that bytes begin with: a zero in front is one
/// more, anything else ends them.
pub proof fn leading_zeros_stop(bytes: Seq<u8>)
    ensures
        ({
            let zeros = leading_zeros(bytes);
            &&& zeros <= bytes.len()
            &&& forall|i: int| 0 <= i < zeros ==> #[trigger] bytes[i] == 0
            &&& zeros < bytes.len() ==> bytes[zeros as int] != 0
        }),
    decreases bytes.len(),
{
    if bytes.len() > 0 && bytes[0] == 0 {
        let rest = bytes.drop_first();
        leading_zeros_stop(rest);
        assert forall|i: int| 0 <= i < leading_zeros(bytes) implies #[trigger] bytes[i] == 0 by {
            if i > 0 {
                assert(bytes[i] == rest[i - 1]);
            }
        }
        if leading_zeros(bytes) < bytes.len() {
            assert(bytes[leading_zeros(bytes) as int] == rest[leading_zeros(rest) as int]);
        }
    }
}

proof fn number_shape(n: nat)
    ensures
        n > 0 ==> base58_number(n).len() > 0 && base58_number(n)[0] != '1',
        forall|i: int|
            0 <= i < base58_number(n).len() ==> is_base58_digit(#[trigger] base58_number(n)[i]),
    decreases n,
{
    if n > 0 {
        number_shape(n / 58);
        let front = base58_number(n / 58);
        let number = base58_number(n);
        assert(number == front.push(base58_digit(n % 58)));
        assert forall|i: int| 0 <= i < number.len() implies is_base58_digit(#[trigger] number[i]) by {
            if i < front.len() {
                assert(number[i] == front[i]);
            }
        }
        if n >= 58 {
            assert(number[0] == front[0]);
        }
    }
}

/// Zero bytes are as many `1`s.
pub proof fn zeros_are_ones(bytes: Seq<u8>)
    requires
        forall|i: int| 0 <= i < bytes.len() ==> bytes[i] == 0,
    ensures
        base58(bytes) == Seq::new(bytes.len(), |i: int| '1'),
{
    all_zeros(bytes);
    assert(base58(bytes) =~= Seq::new(bytes.len(), |i: int| '1'));
}

/// Whether a character is a base58 digit: a letter or digit, but none of those
/// that are easily taken for one another.
pub open spec fn is_base58_digit(c: char) -> bool {
    &&& '1' as int <= c as int <= '9' as int || 'A' as int <= c as int <= 'Z' as int || 'a' as int
        <= c as int <= 'z' as int
    &&& c != 'I' && c != 'O' && c != 'l'
}

/// The digit that a character stands for.
pub open spec fn digit_of(c: char) -> nat {
    let code = c as int;
    (if code <= '9' as int {
        code - '1' as int
    } else if code <= 'H' as int {
        code - 'A' as int + 9
    } else if code <= 'N' as int {
        code - 'J' as int + 17
    } else if code <= 'Z' as int {
        code - 'P' as int + 22
    } else if code <= 'k' as int {
        code - 'a' as int + 33
    } else {
        code - 'm' as int + 44
    }) as nat
}

/// The number that a base58 text writes.
pub open spec fn text_number(text: Seq<char>) -> nat
    decreases text.len(),
{
    if text.len() == 0 {
        0
    } else {
        text_number(text.drop_last()) * 58 + digit_of(text.last())
    }
}

proof fn number_of_text(ones: nat, n: nat)
    ensures
        text_number(Seq::new(ones, |i: int| '1') + base58_number(n)) == n,
    decreases ones, n,
{
    let text = Seq::new(ones, |i: int| '1') + base58_number(n);
    if n > 0 {
        number_of_text(ones, n / 58);
        assert(text.drop_last() =~= Seq::new(ones, |i: int| '1') + base58_number(n / 58));
        assert(text.last() == base58_digit(n % 58));
    } else if ones > 0 {
        number_of_text((ones - 1) as nat, 0);
        assert(text.drop_last() =~= Seq::new((ones - 1) as nat, |i: int| '1') + base58_number(0));
        assert(text.last() == '1');
    }
}

proof fn big_endian_injective(a: Seq<u8>, b: Seq<u8>)
    requires
        a.len() == b.len(),
        big_endian(a) == big_endian(b),
    ensures
        a == b,
    decreases a.len(),
{
    if a.len() > 0 {
        big_endian_injective(a.drop_last(), b.drop_last());
        assert(a =~= a.drop_last().push(a.last()));
        assert(b =~= b.drop_last().push(b.last()));
    } else {
        assert(a =~= b);
    }
}

proof fn all_zeros(bytes: Seq<u8>)
    requires
        forall|i: int| 0 <= i < bytes.len() ==> bytes[i] == 0,
    ensures
        leading_zeros(bytes) == bytes.len(),
        big_endian(bytes) == 0,
    decreases bytes.len(),
{
    if bytes.len() > 0 {
        all_zeros(bytes.drop_first());
        all_zeros(bytes.drop_last());
    }
}

/// The digits go up in the order of the characters: the next digit is the next
/// character that is one.
pub proof fn digits_go_up(d: nat, c: char)
    requires
        d < 57,
    ensures
        base58_digit(0) == '1',
        base58_digit(57) == 'z',
        is_base58_digit(base58_digit(d)),
        (base58_digit(d) as int) < (base58_digit(d + 1) as int),
        (base58_digit(d) as int) < (c as int) < (base58_digit(d + 1) as int) ==> !is_base58_digit(c),
        digit_of(base58_digit(d)) == d,
{
}

} // verus!
