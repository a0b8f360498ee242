//! Numbers as text.
use vstd::prelude::*;

verus! {

/// The character that stands for the digit `d`.
pub open spec fn digit(d: nat) -> char
    recommends
        d < 10,
{
    ('0' as int + d) as char
}

/// `n` in decimal, without leading zeros.
pub open spec fn decimal(n: nat) -> Seq<char>
    decreases n,
{
    if n < 10 {
        seq![digit(n)]
    } else {
        decimal(n / 10).push(digit(n % 10))
    }
}

/// Two numbers with the same decimal text are the same number.
pub proof fn decimal_injective(a: nat, b: nat)
    requires
        decimal(a) == decimal(b),
    ensures
        a == b,
    decreases a,
{
    assert(decimal(a).last() == digit(a % 10));
    assert(decimal(b).last() == digit(b % 10));
    assert(a % 10 == b % 10);
    if a >= 10 {
        decimal_non_empty(a / 10);
        assert(b >= 10);
        assert(decimal(a).drop_last() == decimal(a / 10));
        assert(decimal(b).drop_last() == decimal(b / 10));
        decimal_injective(a / 10, b / 10);
    } else if b >= 10 {
        decimal_non_empty(b / 10);
    }
}

/// The number that a text of decimal digits reads as.
pub open spec fn number_in(text: Seq<char>) -> int
    decreases text.len(),
{
    if text.len() == 0 {
        0
    } else {
        number_in(text.drop_last()) * 10 + (text.last() as int - '0' as int)
    }
}

/// Whether `text` is a numeral: decimal digits only, at least one, and no zero
/// in front of others.
pub open spec fn is_numeral(text: Seq<char>) -> bool {
    &&& text.len() > 0
    &&& forall|i: int| 0 <= i < text.len() ==> '0' as int <= (#[trigger] text[i]) as int <= '9' as int
    &&& text.len() > 1 ==> text[0] != '0'
}

/// The decimal text of a number is a numeral, and it reads as that number.
pub proof fn decimal_reads_back(n: nat)
    ensures
        is_numeral(decimal(n)),
        number_in(decimal(n)) == n,
        decimal(n)[0] == '0' <==> n == 0,
    decreases n,
{
    let text = decimal(n);
    if n < 10 {
        assert(text.drop_last() =~= Seq::empty());
        assert(number_in(Seq::empty()) == 0);
    } else {
        decimal_reads_back(n / 10);
        assert(text.drop_last() =~= decimal(n / 10));
        assert(text[0] == decimal(n / 10)[0]);
        assert forall|i: int| 0 <= i < text.len() implies '0' as int <= (#[trigger] text[i]) as int
            <= '9' as int by {
            if i < text.len() - 1 {
                assert(text[i] == decimal(n / 10)[i]);
            }
        }
    }
}

proof fn decimal_non_empty(n: nat)
    ensures
        decimal(n).len() > 0,
    decreases n,
{
    if n >= 10 {
        decimal_non_empty(n / 10);
    }
}

/// `n` in decimal.
pub(crate) fn write_decimal(n: u64) -> (r: String)
    ensures
        r@ == decimal(n as nat),
    decreases n,
{
    let digits = "0123456789";
    proof {
        reveal_strlit("0123456789");
    }
    let place: usize = (n % 10) as usize;
    let last = digits.substring_ascii(place, place + 1);
    assert(last@ =~= seq![digit((n % 10) as nat)]);
    if n < 10 {
        last.to_owned()
    } else {
        let text = write_decimal(n / 10).concat(last);
        assert(text@ =~= decimal(n as nat));
        text
    }
}

/// Texts that are the same between the same prefix and suffix are the same.
pub proof fn affixes_cancel(prefix: Seq<char>, a: Seq<char>, b: Seq<char>, suffix: Seq<char>)
    requires
        prefix + a + suffix == prefix + b + suffix,
    ensures
        a == b,
{
    let x = prefix + a + suffix;
    let y = prefix + b + suffix;
    assert(x.len() == y.len());
    assert(a =~= x.subrange(prefix.len() as int, (prefix.len() + a.len()) as int));
    assert(b =~= y.subrange(prefix.len() as int, (prefix.len() + b.len()) as int));
}

} // verus!
