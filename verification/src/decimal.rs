use vstd::arithmetic::div_mod::lemma_fundamental_div_mod;
use vstd::prelude::*;

verus! {

/// ASCII decimal digit.
pub open spec fn is_digit(b: u8) -> bool {
    48 <= b && b <= 57
}

pub open spec fn digit_val(b: u8) -> int {
    b - 48
}

/// The shortest decimal spelling of `n`, most significant digit first.
pub open spec fn dec_digits(n: int) -> Seq<u8>
    recommends
        0 <= n,
    decreases n,
{
    if n < 10 {
        seq![(48 + n) as u8]
    } else {
        dec_digits(n / 10).push((48 + n % 10) as u8)
    }
}

/// The number a digit string spells, most significant digit first.
pub open spec fn dec_val(s: Seq<u8>) -> int
    decreases s.len(),
{
    if s.len() == 0 {
        0
    } else {
        dec_val(s.drop_last()) * 10 + digit_val(s.last())
    }
}

/// First index at or after `i` that does not hold a digit (or the end).
pub open spec fn digit_run_end(s: Seq<u8>, i: int) -> int
    recommends
        0 <= i <= s.len(),
    decreases s.len() - i,
{
    if i < s.len() && is_digit(s[i]) {
        digit_run_end(s, i + 1)
    } else {
        i
    }
}

/// What reading one decimal number at `i` yields: `None` when no digit
/// stands at `i` or the spelled value does not fit in `u16`, otherwise the
/// value together with the index just past the digit run.
pub open spec fn spec_parse_u16(s: Seq<u8>, i: int) -> Option<(int, int)> {
    let j = digit_run_end(s, i);
    if j == i {
        None
    } else if dec_val(s.subrange(i, j)) > u16::MAX {
        None
    } else {
        Some((dec_val(s.subrange(i, j)), j))
    }
}

/// `dec_digits(n)` is a nonempty all-digit string that spells `n` back.
pub(crate) proof fn lemma_dec_digits_props(n: int)
    requires
        0 <= n,
    ensures
        dec_digits(n).len() >= 1,
        forall|i: int| 0 <= i < dec_digits(n).len() ==> is_digit(#[trigger] dec_digits(n)[i]),
        dec_val(dec_digits(n)) == n,
    decreases n,
{
    lemma_fundamental_div_mod(n, 10);
    if n < 10 {
        let s = dec_digits(n);
        let e = s.drop_last();
        assert(e.len() == 0);
        assert(dec_val(e) == 0);
        assert(s.last() == (48 + n) as u8);
        assert(dec_val(s) == dec_val(e) * 10 + digit_val(s.last()));
    } else {
        lemma_dec_digits_props(n / 10);
        let prev = dec_digits(n / 10);
        let d = (48 + n % 10) as u8;
        let s = dec_digits(n);
        assert(s == prev.push(d));
        assert(s.drop_last() =~= prev);
        assert(s.last() == d);
        assert(dec_val(s) == dec_val(prev) * 10 + digit_val(d));
    }
}

/// Everything in `[i, digit_run_end(s, i))` is a digit, and the run end
/// stays within the string.
proof fn lemma_digit_run_all_digits(s: Seq<u8>, i: int)
    requires
        0 <= i <= s.len(),
    ensures
        i <= digit_run_end(s, i) <= s.len(),
        forall|t: int| i <= t < digit_run_end(s, i) ==> is_digit(s[t]),
    decreases s.len() - i,
{
    if i < s.len() && is_digit(s[i]) {
        lemma_digit_run_all_digits(s, i + 1);
    }
}

/// The digit run starting at `i` ends exactly at `j` when `[i, j)` holds
/// digits and `j` holds none (or is the end).
pub(crate) proof fn lemma_digit_run_end_at(s: Seq<u8>, i: int, j: int)
    requires
        0 <= i <= j <= s.len(),
        forall|t: int| i <= t < j ==> is_digit(s[t]),
        j == s.len() || !is_digit(s[j]),
    ensures
        digit_run_end(s, i) == j,
    decreases j - i,
{
    if i < j {
        lemma_digit_run_end_at(s, i + 1, j);
    }
}

/// A digit string's value is non-negative.
proof fn lemma_dec_val_nonneg(s: Seq<u8>, i: int, k: int)
    requires
        0 <= i <= k <= s.len(),
        forall|t: int| i <= t < k ==> is_digit(s[t]),
    ensures
        dec_val(s.subrange(i, k)) >= 0,
    decreases k - i,
{
    if i == k {
        assert(s.subrange(i, k).len() == 0);
    } else {
        lemma_dec_val_nonneg(s, i, k - 1);
        assert(s.subrange(i, k).drop_last() =~= s.subrange(i, k - 1));
        assert(s.subrange(i, k).last() == s[k - 1]);
    }
}

/// Reading more digits never shrinks the value: the value of a digit-run
/// prefix bounds the value of the whole run from below.
proof fn lemma_dec_val_grows(s: Seq<u8>, i: int, k: int, j: int)
    requires
        0 <= i <= k <= j <= s.len(),
        forall|t: int| i <= t < j ==> is_digit(s[t]),
    ensures
        dec_val(s.subrange(i, k)) <= dec_val(s.subrange(i, j)),
    decreases j - k,
{
    if k == j {
    } else {
        lemma_dec_val_grows(s, i, k, j - 1);
        lemma_dec_val_nonneg(s, i, j - 1);
        assert(s.subrange(i, j).drop_last() =~= s.subrange(i, j - 1));
        assert(s.subrange(i, j).last() == s[j - 1]);
        assert(dec_val(s.subrange(i, j)) == dec_val(s.subrange(i, j - 1)) * 10 + digit_val(
            s[j - 1],
        ));
    }
}

pub fn is_digit_byte(b: u8) -> (r: bool)
    ensures
        r == is_digit(b),
{
    48 <= b && b <= 57
}

/// Append the decimal spelling of `n`.
pub fn push_u16_dec(out: &mut Vec<u8>, n: u16)
    ensures
        final(out)@ == old(out)@ + dec_digits(n as int),
    decreases n,
{
    if n < 10 {
        out.push(48 + n as u8);
        assert(out@ =~= old(out)@ + dec_digits(n as int));
    } else {
        push_u16_dec(out, n / 10);
        out.push(48 + (n % 10) as u8);
        assert(out@ =~= old(out)@ + dec_digits(n as int));
    }
}

/// The decimal spelling of `n`, on its own.
pub fn u16_dec_bytes(n: u16) -> (r: Vec<u8>)
    ensures
        r@ == dec_digits(n as int),
{
    let mut out: Vec<u8> = Vec::new();
    push_u16_dec(&mut out, n);
    assert(out@ =~= dec_digits(n as int));
    out
}

/// Read one decimal number at `start`, exactly as `spec_parse_u16` states
/// it: the maximal digit run, rejected when empty or past `u16`.
pub fn parse_u16_dec(buf: &Vec<u8>, start: usize) -> (r: Option<(u16, usize)>)
    requires
        start <= buf@.len(),
    ensures
        match r {
            Some(p) => {
                &&& spec_parse_u16(buf@, start as int) == Some((p.0 as int, p.1 as int))
                &&& start < p.1
                &&& p.1 <= buf@.len()
            },
            None => spec_parse_u16(buf@, start as int) is None,
        },
{
    let ghost s = buf@;
    let len: usize = buf.len();
    let mut k: usize = start;
    let mut acc: u32 = 0;
    while k < len && is_digit_byte(buf[k])
        invariant
            start <= k <= len,
            len == s.len(),
            s == buf@,
            digit_run_end(s, start as int) == digit_run_end(s, k as int),
            forall|t: int| start <= t < k ==> is_digit(s[t]),
            acc as int == dec_val(s.subrange(start as int, k as int)),
            acc <= u16::MAX,
        decreases len - k,
    {
        let d: u8 = buf[k] - 48;
        let next: u32 = acc * 10 + d as u32;
        proof {
            assert(s.subrange(start as int, k + 1).drop_last() =~= s.subrange(
                start as int,
                k as int,
            ));
            assert(s.subrange(start as int, k + 1).last() == s[k as int]);
            assert(next as int == dec_val(s.subrange(start as int, k + 1)));
        }
        if next > 65535 {
            proof {
                let j = digit_run_end(s, start as int);
                assert(digit_run_end(s, k as int) == digit_run_end(s, k + 1));
                lemma_digit_run_all_digits(s, k + 1);
                assert(k + 1 <= j <= s.len());
                lemma_digit_run_all_digits(s, start as int);
                lemma_dec_val_grows(s, start as int, k + 1, j);
                assert(dec_val(s.subrange(start as int, j)) > u16::MAX);
            }
            return None;
        }
        acc = next;
        proof {
            assert(digit_run_end(s, k as int) == digit_run_end(s, k + 1));
        }
        k = k + 1;
    }
    proof {
        assert(digit_run_end(s, k as int) == k as int);
    }
    if k == start {
        return None;
    }
    Some((acc as u16, k))
}

} // verus!
