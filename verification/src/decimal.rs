use vstd::prelude::*;

verus! {

/// An ASCII decimal digit.
pub open spec fn is_digit(b: u8) -> bool {
    48 <= b <= 57
}

/// Every byte of `s` is an ASCII decimal digit.
pub open spec fn all_digits(s: Seq<u8>) -> bool {
    forall|i: int| 0 <= i < s.len() ==> is_digit(#[trigger] s[i])
}

/// The number that the ASCII digits `s` write in base ten (0 for no digits).
pub open spec fn digits_value(s: Seq<u8>) -> int
    decreases s.len(),
{
    if s.len() == 0 {
        0
    } else {
        digits_value(s.drop_last()) * 10 + (s.last() - 48)
    }
}

/// What parsing `s` as an `i32` gives: an optional `+` or `-`, then one or
/// more ASCII digits, whose value must fit in an `i32`.
pub open spec fn parse_i32_spec(s: Seq<u8>) -> Option<i32> {
    let signed = s.len() > 0 && (s[0] == 45u8 || s[0] == 43u8);
    let digits = if signed { s.skip(1) } else { s };
    let magnitude = digits_value(digits);
    let value = if s.len() > 0 && s[0] == 45u8 { -magnitude } else { magnitude };
    if digits.len() > 0 && all_digits(digits) && i32::MIN <= value <= i32::MAX {
        Some(value as i32)
    } else {
        None
    }
}

/// The shortest base-ten ASCII digits of `n`.
pub open spec fn nat_digits(n: nat) -> Seq<u8>
    decreases n,
{
    if n < 10 {
        seq![(48 + n) as u8]
    } else {
        nat_digits(n / 10).push((48 + n % 10) as u8)
    }
}

/// `n` written in base ten, with a leading `-` when it is negative.
pub open spec fn decimal_spec(n: int) -> Seq<u8> {
    if n < 0 {
        seq![45u8] + nat_digits((-n) as nat)
    } else {
        nat_digits(n as nat)
    }
}

proof fn lemma_digits_value_nonneg(s: Seq<u8>)
    requires
        all_digits(s),
    ensures
        digits_value(s) >= 0,
    decreases s.len(),
{
    if s.len() > 0 {
        lemma_digits_value_nonneg(s.drop_last());
    }
}

/// A prefix of a run of digits never writes a larger number than the run.
proof fn lemma_prefix_value_le(s: Seq<u8>, k: int)
    requires
        all_digits(s),
        0 <= k <= s.len(),
    ensures
        digits_value(s.take(k)) <= digits_value(s),
    decreases s.len(),
{
    if k == s.len() {
        assert(s.take(k) =~= s);
    } else {
        let t = s.drop_last();
        assert(s.take(k) =~= t.take(k));
        lemma_prefix_value_le(t, k);
        lemma_digits_value_nonneg(t);
    }
}

proof fn lemma_nat_digits(n: nat)
    ensures
        nat_digits(n).len() >= 1,
        all_digits(nat_digits(n)),
        digits_value(nat_digits(n)) == n,
    decreases n,
{
    if n >= 10 {
        lemma_nat_digits(n / 10);
        let d = nat_digits(n / 10);
        assert(nat_digits(n).drop_last() =~= d);
        let s = nat_digits(n);
        assert(s.last() == (48 + n % 10) as u8);
        assert(((48 + n % 10) as u8) - 48 == n % 10);
        assert((n / 10) * 10 + n % 10 == n);
        assert(digits_value(s) == digits_value(d) * 10 + (s.last() - 48));
    } else {
        assert(nat_digits(n).drop_last() =~= Seq::<u8>::empty());
        let s = nat_digits(n);
        assert(((48 + n) as u8) - 48 == n);
        assert(digits_value(s.drop_last()) == 0);
        assert(digits_value(s) == digits_value(s.drop_last()) * 10 + (s.last() - 48));
    }
}

/// `decimal` writes at least one byte, and never a `.`.
pub proof fn lemma_decimal_nonempty(n: int)
    ensures
        decimal_spec(n).len() >= 1,
        forall|i: int| 0 <= i < decimal_spec(n).len() ==> #[trigger] decimal_spec(n)[i] != 46u8,
{
    if n < 0 {
        lemma_nat_digits((-n) as nat);
        let s = decimal_spec(n);
        assert forall|i: int| 0 <= i < s.len() implies #[trigger] s[i] != 46u8 by {
            if i > 0 {
                assert(s[i] == nat_digits((-n) as nat)[i - 1]);
                assert(is_digit(nat_digits((-n) as nat)[i - 1]));
            }
        }
    } else {
        lemma_nat_digits(n as nat);
        let s = decimal_spec(n);
        assert forall|i: int| 0 <= i < s.len() implies #[trigger] s[i] != 46u8 by {
            assert(is_digit(s[i]));
        }
    }
}

/// Reading back what `decimal` writes gives the number that was written.
pub proof fn lemma_parse_decimal_roundtrip(n: i32)
    ensures
        parse_i32_spec(decimal_spec(n as int)) == Some(n),
{
    if n < 0 {
        let m = (-n) as nat;
        lemma_nat_digits(m);
        let s = decimal_spec(n as int);
        assert(s.skip(1) =~= nat_digits(m));
        assert(s[0] == 45u8);
    } else {
        lemma_nat_digits(n as nat);
        let s = nat_digits(n as nat);
        assert(is_digit(s[0]));
    }
}

proof fn lemma_canonical_digits(s: Seq<u8>)
    requires
        all_digits(s),
        s.len() >= 1,
        s[0] != 48u8 || s.len() == 1,
    ensures
        digits_value(s) >= 0,
        s == nat_digits(digits_value(s) as nat),
    decreases s.len(),
{
    lemma_digits_value_nonneg(s);
    if s.len() == 1 {
        assert(s.drop_last() =~= Seq::<u8>::empty());
        assert(digits_value(s.drop_last()) == 0);
        let v = digits_value(s);
        assert(v == s[0] - 48);
        assert(nat_digits(v as nat) =~= s);
    } else {
        let t = s.drop_last();
        assert(t[0] == s[0]);
        lemma_canonical_digits(t);
        let vt = digits_value(t);
        assert(t.take(1) =~= seq![t[0]]);
        lemma_prefix_value_le(t, 1);
        assert(t.take(1).drop_last() =~= Seq::<u8>::empty());
        assert(digits_value(t.take(1).drop_last()) == 0);
        assert(digits_value(t.take(1)) == t[0] - 48);
        assert(vt >= 1);
        let m = digits_value(s);
        let d = s.last() - 48;
        assert(is_digit(s[s.len() - 1]));
        assert(m == vt * 10 + d);
        assert(m / 10 == vt);
        assert(m % 10 == d);
        assert(nat_digits(m as nat) == nat_digits((m / 10) as nat).push((48 + m % 10) as u8));
        assert(nat_digits(m as nat) =~= t.push(s.last()));
        assert(t.push(s.last()) =~= s);
    }
}

/// What parsing accepts: at least one byte; an optional `+` or `-` first;
/// digits everywhere else; a negative number only after a `-`. A plain run
/// of digits without a superfluous leading zero reads as the number that
/// `decimal` writes.
pub proof fn lemma_parse_i32_shape(s: Seq<u8>, n: i32)
    requires
        parse_i32_spec(s) == Some(n),
    ensures
        s.len() >= 1,
        48u8 <= s[0] <= 57u8 || s[0] == 43u8 || s[0] == 45u8,
        forall|i: int| 1 <= i < s.len() ==> 48u8 <= #[trigger] s[i] <= 57u8,
        n < 0 ==> s[0] == 45u8,
        (48u8 <= s[0] <= 57u8) && (s[0] != 48u8 || s.len() == 1) ==> s == decimal_spec(n as int),
{
    let signed = s[0] == 45u8 || s[0] == 43u8;
    let digits = if signed { s.skip(1) } else { s };
    lemma_digits_value_nonneg(digits);
    assert forall|i: int| 1 <= i < s.len() implies 48u8 <= #[trigger] s[i] <= 57u8 by {
        if signed {
            assert(s[i] == digits[i - 1]);
        } else {
            assert(s[i] == digits[i]);
        }
        assert(is_digit(s[i]));
    }
    if !signed {
        assert(is_digit(digits[0]));
        if s[0] != 48u8 || s.len() == 1 {
            lemma_canonical_digits(s);
        }
    }
}

/// Parses `s` as an `i32` the way `str::parse::<i32>` reads ASCII text:
/// an optional sign, then at least one digit, and nothing else.
pub fn parse_i32(s: &[u8]) -> (r: Option<i32>)
    ensures
        r == parse_i32_spec(s@),
{
    let len = s.len();
    let mut start: usize = 0;
    let mut negative = false;
    if len > 0 && (s[0] == 45u8 || s[0] == 43u8) {
        negative = s[0] == 45u8;
        start = 1;
    }
    let ghost digits = s@.skip(start as int);
    assert(s@.skip(0) =~= s@);
    if start >= len {
        assert(digits.len() == 0);
        return None;
    }
    let mut acc: i64 = 0;
    let mut i: usize = start;
    while i < len
        invariant
            start <= i <= len,
            len == s@.len(),
            start < len,
            digits == s@.skip(start as int),
            digits == (if start == 1 { s@.skip(1) } else { s@ }),
            negative == (s@[0] == 45u8),
            start == 1 <==> (s@[0] == 45u8 || s@[0] == 43u8),
            start <= 1,
            all_digits(s@.subrange(start as int, i as int)),
            acc == digits_value(s@.subrange(start as int, i as int)),
            0 <= acc <= 2147483648,
        decreases len - i,
    {
        let b = s[i];
        if b < 48u8 || b > 57u8 {
            assert(digits[i - start] == b);
            return None;
        }
        let next: i64 = acc * 10 + (b - 48u8) as i64;
        let ghost pre = s@.subrange(start as int, i as int);
        let ghost cur = s@.subrange(start as int, i + 1);
        assert(cur.drop_last() =~= pre);
        assert(all_digits(cur));
        if next > 2147483648 {
            proof {
                if all_digits(digits) {
                    assert(cur =~= digits.take(i + 1 - start));
                    lemma_prefix_value_le(digits, i + 1 - start);
                    assert(digits_value(digits) > 2147483648);
                    assert(digits.len() > 0);
                }
            }
            return None;
        }
        acc = next;
        i = i + 1;
    }
    assert(s@.subrange(start as int, len as int) =~= digits);
    let value: i64 = if negative { -acc } else { acc };
    if value > 2147483647 {
        None
    } else {
        Some(value as i32)
    }
}

/// Appends the base-ten digits of `n` to `out`.
fn push_nat_digits(n: u64, out: &mut Vec<u8>)
    ensures
        final(out)@ == old(out)@ + nat_digits(n as nat),
    decreases n,
{
    if n >= 10 {
        push_nat_digits(n / 10, out);
    }
    out.push((48 + n % 10) as u8);
    proof {
        if n >= 10 {
            assert(nat_digits(n as nat) == nat_digits((n / 10) as nat).push((48 + n % 10) as u8));
        }
        assert(out@ =~= old(out)@ + nat_digits(n as nat));
    }
}

/// Appends `n` written in base ten to `out`, as `format!("{}", n)` writes it.
pub fn push_decimal(n: i32, out: &mut Vec<u8>)
    ensures
        final(out)@ == old(out)@ + decimal_spec(n as int),
{
    if n < 0 {
        out.push(45u8);
        let m: u64 = (-(n as i64)) as u64;
        push_nat_digits(m, out);
        assert(out@ =~= old(out)@ + decimal_spec(n as int));
    } else {
        push_nat_digits(n as u64, out);
    }
}

} // verus!
