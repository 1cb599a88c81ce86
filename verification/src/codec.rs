use vstd::prelude::*;

use crate::decimal::{
    dec_digits, dec_val, is_digit, lemma_dec_digits_props, lemma_digit_run_end_at, parse_u16_dec,
    spec_parse_u16, u16_dec_bytes,
};
use crate::snapshot::GameDataJSON;

verus! {

/// Decode failure: the payload does not spell the expected field set.
#[derive(Clone, Copy, Debug, PartialEq, Eq, Structural)]
pub struct MalformedSnapshot;

/// A byte the transport may append to a payload: NUL fill of the receive
/// buffer, or trailing whitespace.
pub open spec fn is_pad(b: u8) -> bool {
    b == 0 || b == 32 || b == 9 || b == 10 || b == 13
}

/// Index just past the payload once trailing pad bytes are ignored.
pub open spec fn content_end(s: Seq<u8>) -> int
    decreases s.len(),
{
    if s.len() == 0 {
        0
    } else if is_pad(s.last()) {
        content_end(s.drop_last())
    } else {
        s.len() as int
    }
}

/// `lit` stands verbatim at index `i` of `s`.
pub open spec fn match_at(s: Seq<u8>, i: int, lit: Seq<u8>) -> bool {
    &&& 0 <= i
    &&& i + lit.len() <= s.len()
    &&& s.subrange(i, i + lit.len()) == lit
}

/// Index just past `lit` when it stands at `i`, and `None` otherwise.
pub open spec fn after_lit(s: Seq<u8>, i: int, lit: Seq<u8>) -> Option<int> {
    if match_at(s, i, lit) {
        Some(i + lit.len())
    } else {
        None
    }
}

/// `{"player_one_pos":[`
pub open spec fn lit_head() -> Seq<u8> {
    seq![123u8, 34, 112, 108, 97, 121, 101, 114, 95, 111, 110, 101, 95, 112, 111, 115, 34, 58, 91]
}

/// `,`
pub open spec fn lit_comma() -> Seq<u8> {
    seq![44u8]
}

/// `],"player_two_pos":[`
pub open spec fn lit_two() -> Seq<u8> {
    seq![93u8, 44, 34, 112, 108, 97, 121, 101, 114, 95, 116, 119, 111, 95, 112, 111, 115, 34, 58, 91]
}

/// `],"pong_pos":[`
pub open spec fn lit_pong() -> Seq<u8> {
    seq![93u8, 44, 34, 112, 111, 110, 103, 95, 112, 111, 115, 34, 58, 91]
}

/// `],"player_one_score":`
pub open spec fn lit_score_one() -> Seq<u8> {
    seq![93u8, 44, 34, 112, 108, 97, 121, 101, 114, 95, 111, 110, 101, 95, 115, 99, 111, 114, 101, 34, 58]
}

/// `,"player_two_score":`
pub open spec fn lit_score_two() -> Seq<u8> {
    seq![44u8, 34, 112, 108, 97, 121, 101, 114, 95, 116, 119, 111, 95, 115, 99, 111, 114, 101, 34, 58]
}

/// `}`
pub open spec fn lit_close() -> Seq<u8> {
    seq![125u8]
}

/// The wire spelling of a snapshot: a flat, field-named structured text,
/// `{"player_one_pos":[x,y],"player_two_pos":[x,y],"pong_pos":[x,y],
/// "player_one_score":n,"player_two_score":n}` with decimal numbers.
pub open spec fn spec_encode(d: GameDataJSON) -> Seq<u8> {
    lit_head() + (dec_digits(d.player_one_x as int) + (lit_comma() + (dec_digits(
        d.player_one_y as int,
    ) + (lit_two() + (dec_digits(d.player_two_x as int) + (lit_comma() + (dec_digits(
        d.player_two_y as int,
    ) + (lit_pong() + (dec_digits(d.pong_x as int) + (lit_comma() + (dec_digits(d.pong_y as int)
        + (lit_score_one() + (dec_digits(d.player_one_score as int) + (lit_score_two() + (
    dec_digits(d.player_two_score as int) + lit_close())))))))))))))))
}

/// Read the whole field set from an already-trimmed payload: each field
/// literal verbatim, each number a decimal `u16`, nothing after the closing
/// brace.
pub open spec fn parse_fields(t: Seq<u8>) -> Option<GameDataJSON> {
    match after_lit(t, 0, lit_head()) {
        None => None,
        Some(i1) => match spec_parse_u16(t, i1) {
            None => None,
            Some((p1x, i2)) => match after_lit(t, i2, lit_comma()) {
                None => None,
                Some(i3) => match spec_parse_u16(t, i3) {
                    None => None,
                    Some((p1y, i4)) => match after_lit(t, i4, lit_two()) {
                        None => None,
                        Some(i5) => match spec_parse_u16(t, i5) {
                            None => None,
                            Some((p2x, i6)) => match after_lit(t, i6, lit_comma()) {
                                None => None,
                                Some(i7) => match spec_parse_u16(t, i7) {
                                    None => None,
                                    Some((p2y, i8)) => match after_lit(t, i8, lit_pong()) {
                                        None => None,
                                        Some(i9) => match spec_parse_u16(t, i9) {
                                            None => None,
                                            Some((px, i10)) => match after_lit(
                                                t,
                                                i10,
                                                lit_comma(),
                                            ) {
                                                None => None,
                                                Some(i11) => match spec_parse_u16(t, i11) {
                                                    None => None,
                                                    Some((py, i12)) => match after_lit(
                                                        t,
                                                        i12,
                                                        lit_score_one(),
                                                    ) {
                                                        None => None,
                                                        Some(i13) => match spec_parse_u16(
                                                            t,
                                                            i13,
                                                        ) {
                                                            None => None,
                                                            Some((s1, i14)) => match after_lit(
                                                                t,
                                                                i14,
                                                                lit_score_two(),
                                                            ) {
                                                                None => None,
                                                                Some(i15) => match spec_parse_u16(
                                                                    t,
                                                                    i15,
                                                                ) {
                                                                    None => None,
                                                                    Some(
                                                                        (s2, i16),
                                                                    ) => match after_lit(
                                                                        t,
                                                                        i16,
                                                                        lit_close(),
                                                                    ) {
                                                                        None => None,
                                                                        Some(i17) => if i17
                                                                            == t.len() {
                                                                            Some(
                                                                                GameDataJSON {
                                                                                    player_one_x:
                                                                                        p1x as u16,
                                                                                    player_one_y:
                                                                                        p1y as u16,
                                                                                    player_two_x:
                                                                                        p2x as u16,
                                                                                    player_two_y:
                                                                                        p2y as u16,
                                                                                    pong_x:
                                                                                        px as u16,
                                                                                    pong_y:
                                                                                        py as u16,
                                                                                    player_one_score:
                                                                                        s1 as u16,
                                                                                    player_two_score:
                                                                                        s2 as u16,
                                                                                },
                                                                            )
                                                                        } else {
                                                                            None
                                                                        },
                                                                    },
                                                                },
                                                            },
                                                        },
                                                    },
                                                },
                                            },
                                        },
                                    },
                                },
                            },
                        },
                    },
                },
            },
        },
    }
}

/// What a received buffer means: trim the transport's trailing padding, then
/// the payload must spell the full field set and nothing else.
pub open spec fn spec_decode(s: Seq<u8>) -> Option<GameDataJSON> {
    parse_fields(s.subrange(0, content_end(s)))
}

fn is_pad_byte(b: u8) -> (r: bool)
    ensures
        r == is_pad(b),
{
    b == 0 || b == 32 || b == 9 || b == 10 || b == 13
}

fn lit_head_vec() -> (r: Vec<u8>)
    ensures
        r@ == lit_head(),
{
    let mut v: Vec<u8> = Vec::new();
    v.push(123);
    v.push(34);
    v.push(112);
    v.push(108);
    v.push(97);
    v.push(121);
    v.push(101);
    v.push(114);
    v.push(95);
    v.push(111);
    v.push(110);
    v.push(101);
    v.push(95);
    v.push(112);
    v.push(111);
    v.push(115);
    v.push(34);
    v.push(58);
    v.push(91);
    assert(v@ =~= lit_head());
    v
}

fn lit_comma_vec() -> (r: Vec<u8>)
    ensures
        r@ == lit_comma(),
{
    let mut v: Vec<u8> = Vec::new();
    v.push(44);
    assert(v@ =~= lit_comma());
    v
}

fn lit_two_vec() -> (r: Vec<u8>)
    ensures
        r@ == lit_two(),
{
    let mut v: Vec<u8> = Vec::new();
    v.push(93);
    v.push(44);
    v.push(34);
    v.push(112);
    v.push(108);
    v.push(97);
    v.push(121);
    v.push(101);
    v.push(114);
    v.push(95);
    v.push(116);
    v.push(119);
    v.push(111);
    v.push(95);
    v.push(112);
    v.push(111);
    v.push(115);
    v.push(34);
    v.push(58);
    v.push(91);
    assert(v@ =~= lit_two());
    v
}

fn lit_pong_vec() -> (r: Vec<u8>)
    ensures
        r@ == lit_pong(),
{
    let mut v: Vec<u8> = Vec::new();
    v.push(93);
    v.push(44);
    v.push(34);
    v.push(112);
    v.push(111);
    v.push(110);
    v.push(103);
    v.push(95);
    v.push(112);
    v.push(111);
    v.push(115);
    v.push(34);
    v.push(58);
    v.push(91);
    assert(v@ =~= lit_pong());
    v
}

fn lit_score_one_vec() -> (r: Vec<u8>)
    ensures
        r@ == lit_score_one(),
{
    let mut v: Vec<u8> = Vec::new();
    v.push(93);
    v.push(44);
    v.push(34);
    v.push(112);
    v.push(108);
    v.push(97);
    v.push(121);
    v.push(101);
    v.push(114);
    v.push(95);
    v.push(111);
    v.push(110);
    v.push(101);
    v.push(95);
    v.push(115);
    v.push(99);
    v.push(111);
    v.push(114);
    v.push(101);
    v.push(34);
    v.push(58);
    assert(v@ =~= lit_score_one());
    v
}

fn lit_score_two_vec() -> (r: Vec<u8>)
    ensures
        r@ == lit_score_two(),
{
    let mut v: Vec<u8> = Vec::new();
    v.push(44);
    v.push(34);
    v.push(112);
    v.push(108);
    v.push(97);
    v.push(121);
    v.push(101);
    v.push(114);
    v.push(95);
    v.push(116);
    v.push(119);
    v.push(111);
    v.push(95);
    v.push(115);
    v.push(99);
    v.push(111);
    v.push(114);
    v.push(101);
    v.push(34);
    v.push(58);
    assert(v@ =~= lit_score_two());
    v
}

fn lit_close_vec() -> (r: Vec<u8>)
    ensures
        r@ == lit_close(),
{
    let mut v: Vec<u8> = Vec::new();
    v.push(125);
    assert(v@ =~= lit_close());
    v
}

/// Append every byte of `lit` to `out`.
fn push_all(out: &mut Vec<u8>, lit: &Vec<u8>)
    ensures
        final(out)@ == old(out)@ + lit@,
{
    let mut i: usize = 0;
    while i < lit.len()
        invariant
            i <= lit@.len(),
            out@ == old(out)@ + lit@.subrange(0, i as int),
        decreases lit@.len() - i,
    {
        out.push(lit[i]);
        proof {
            assert(out@ =~= old(out)@ + lit@.subrange(0, i + 1));
        }
        i = i + 1;
    }
    proof {
        assert(lit@.subrange(0, lit@.len() as int) =~= lit@);
    }
}

/// Check that `lit` stands verbatim at `start`, exactly as `after_lit`
/// states it, and step past it.
fn expect_bytes(buf: &Vec<u8>, start: usize, lit: &Vec<u8>) -> (r: Option<usize>)
    requires
        start <= buf@.len(),
    ensures
        match r {
            Some(j) => {
                &&& after_lit(buf@, start as int, lit@) == Some(j as int)
                &&& j == start + lit@.len()
                &&& j <= buf@.len()
            },
            None => after_lit(buf@, start as int, lit@) is None,
        },
{
    if buf.len() - start < lit.len() {
        return None;
    }
    let mut i: usize = 0;
    while i < lit.len()
        invariant
            i <= lit@.len(),
            start + lit@.len() <= buf@.len(),
            buf@.len() <= usize::MAX,
            forall|t: int| 0 <= t < i ==> buf@[start + t] == lit@[t],
        decreases lit@.len() - i,
    {
        if buf[start + i] != lit[i] {
            proof {
                if match_at(buf@, start as int, lit@) {
                    assert(buf@.subrange(start as int, start + lit@.len())[i as int] == buf@[start
                        + i]);
                }
            }
            return None;
        }
        i = i + 1;
    }
    proof {
        assert(buf@.subrange(start as int, start + lit@.len()) =~= lit@);
    }
    Some(start + lit.len())
}

/// Serialize a snapshot to its wire text, exactly as `spec_encode` states
/// it.
pub fn encode(d: &GameDataJSON) -> (r: Vec<u8>)
    ensures
        r@ == spec_encode(*d),
{
    let t17: Vec<u8> = lit_close_vec();
    let mut t16: Vec<u8> = u16_dec_bytes(d.player_two_score);
    push_all(&mut t16, &t17);
    let mut t15: Vec<u8> = lit_score_two_vec();
    push_all(&mut t15, &t16);
    let mut t14: Vec<u8> = u16_dec_bytes(d.player_one_score);
    push_all(&mut t14, &t15);
    let mut t13: Vec<u8> = lit_score_one_vec();
    push_all(&mut t13, &t14);
    let mut t12: Vec<u8> = u16_dec_bytes(d.pong_y);
    push_all(&mut t12, &t13);
    let mut t11: Vec<u8> = lit_comma_vec();
    push_all(&mut t11, &t12);
    let mut t10: Vec<u8> = u16_dec_bytes(d.pong_x);
    push_all(&mut t10, &t11);
    let mut t9: Vec<u8> = lit_pong_vec();
    push_all(&mut t9, &t10);
    let mut t8: Vec<u8> = u16_dec_bytes(d.player_two_y);
    push_all(&mut t8, &t9);
    let mut t7: Vec<u8> = lit_comma_vec();
    push_all(&mut t7, &t8);
    let mut t6: Vec<u8> = u16_dec_bytes(d.player_two_x);
    push_all(&mut t6, &t7);
    let mut t5: Vec<u8> = lit_two_vec();
    push_all(&mut t5, &t6);
    let mut t4: Vec<u8> = u16_dec_bytes(d.player_one_y);
    push_all(&mut t4, &t5);
    let mut t3: Vec<u8> = lit_comma_vec();
    push_all(&mut t3, &t4);
    let mut t2: Vec<u8> = u16_dec_bytes(d.player_one_x);
    push_all(&mut t2, &t3);
    let mut out: Vec<u8> = lit_head_vec();
    push_all(&mut out, &t2);
    out
}

/// Deserialize a received buffer, exactly as `spec_decode` states it: trim
/// the transport's trailing padding, then demand the full field set and
/// nothing else.
#[verifier::rlimit(100)]
pub fn decode(buf: &Vec<u8>) -> (r: Result<GameDataJSON, MalformedSnapshot>)
    ensures
        match r {
            Ok(d) => spec_decode(buf@) == Some(d),
            Err(_) => spec_decode(buf@) is None,
        },
{
    let mut end: usize = buf.len();
    proof {
        assert(buf@.subrange(0, buf@.len() as int) =~= buf@);
    }
    while end > 0 && is_pad_byte(buf[end - 1])
        invariant
            end <= buf@.len(),
            content_end(buf@) == content_end(buf@.subrange(0, end as int)),
        decreases end,
    {
        proof {
            let t = buf@.subrange(0, end as int);
            assert(t.last() == buf@[end - 1]);
            assert(t.drop_last() =~= buf@.subrange(0, end - 1));
        }
        end = end - 1;
    }
    proof {
        let t = buf@.subrange(0, end as int);
        if end == 0 {
            assert(content_end(t) == 0);
        } else {
            assert(t.last() == buf@[end - 1]);
            assert(content_end(t) == end);
        }
        assert(content_end(buf@) == end as int);
    }
    let mut content: Vec<u8> = Vec::new();
    let mut i: usize = 0;
    while i < end
        invariant
            i <= end,
            end <= buf@.len(),
            content@ == buf@.subrange(0, i as int),
        decreases end - i,
    {
        content.push(buf[i]);
        proof {
            assert(content@ =~= buf@.subrange(0, i + 1));
        }
        i = i + 1;
    }
    let ghost t = buf@.subrange(0, content_end(buf@));
    proof {
        assert(content@ == t);
    }
    let i1: usize = match expect_bytes(&content, 0, &lit_head_vec()) {
        Some(j) => j,
        None => { return Err(MalformedSnapshot); },
    };
    let (p1x, i2): (u16, usize) = match parse_u16_dec(&content, i1) {
        Some(p) => p,
        None => { return Err(MalformedSnapshot); },
    };
    let i3: usize = match expect_bytes(&content, i2, &lit_comma_vec()) {
        Some(j) => j,
        None => { return Err(MalformedSnapshot); },
    };
    let (p1y, i4): (u16, usize) = match parse_u16_dec(&content, i3) {
        Some(p) => p,
        None => { return Err(MalformedSnapshot); },
    };
    let i5: usize = match expect_bytes(&content, i4, &lit_two_vec()) {
        Some(j) => j,
        None => { return Err(MalformedSnapshot); },
    };
    let (p2x, i6): (u16, usize) = match parse_u16_dec(&content, i5) {
        Some(p) => p,
        None => { return Err(MalformedSnapshot); },
    };
    let i7: usize = match expect_bytes(&content, i6, &lit_comma_vec()) {
        Some(j) => j,
        None => { return Err(MalformedSnapshot); },
    };
    let (p2y, i8): (u16, usize) = match parse_u16_dec(&content, i7) {
        Some(p) => p,
        None => { return Err(MalformedSnapshot); },
    };
    let i9: usize = match expect_bytes(&content, i8, &lit_pong_vec()) {
        Some(j) => j,
        None => { return Err(MalformedSnapshot); },
    };
    let (px, i10): (u16, usize) = match parse_u16_dec(&content, i9) {
        Some(p) => p,
        None => { return Err(MalformedSnapshot); },
    };
    let i11: usize = match expect_bytes(&content, i10, &lit_comma_vec()) {
        Some(j) => j,
        None => { return Err(MalformedSnapshot); },
    };
    let (py, i12): (u16, usize) = match parse_u16_dec(&content, i11) {
        Some(p) => p,
        None => { return Err(MalformedSnapshot); },
    };
    let i13: usize = match expect_bytes(&content, i12, &lit_score_one_vec()) {
        Some(j) => j,
        None => { return Err(MalformedSnapshot); },
    };
    let (s1, i14): (u16, usize) = match parse_u16_dec(&content, i13) {
        Some(p) => p,
        None => { return Err(MalformedSnapshot); },
    };
    let i15: usize = match expect_bytes(&content, i14, &lit_score_two_vec()) {
        Some(j) => j,
        None => { return Err(MalformedSnapshot); },
    };
    let (s2, i16): (u16, usize) = match parse_u16_dec(&content, i15) {
        Some(p) => p,
        None => { return Err(MalformedSnapshot); },
    };
    let i17: usize = match expect_bytes(&content, i16, &lit_close_vec()) {
        Some(j) => j,
        None => { return Err(MalformedSnapshot); },
    };
    if i17 != content.len() {
        return Err(MalformedSnapshot);
    }
    Ok(
        GameDataJSON {
            player_one_x: p1x,
            player_one_y: p1y,
            player_two_x: p2x,
            player_two_y: p2y,
            pong_x: px,
            pong_y: py,
            player_one_score: s1,
            player_two_score: s2,
        },
    )
}

/// Peeling a literal: when the suffix of `s` at `i` splits as `lit + rest`,
/// the literal matches at `i` and `rest` is the suffix past it.
proof fn lemma_after_lit_concat(s: Seq<u8>, i: int, lit: Seq<u8>, rest: Seq<u8>)
    requires
        0 <= i <= s.len(),
        s.subrange(i, s.len() as int) == lit + rest,
    ensures
        after_lit(s, i, lit) == Some(i + lit.len()),
        i + lit.len() <= s.len(),
        s.subrange(i + lit.len(), s.len() as int) == rest,
{
    let suf = s.subrange(i, s.len() as int);
    assert(suf.len() == s.len() - i);
    assert(s.subrange(i, i + lit.len()) =~= lit) by {
        assert forall|k: int| 0 <= k < lit.len() implies s.subrange(i, i + lit.len())[k]
            == lit[k] by {
            assert(s.subrange(i, i + lit.len())[k] == s[i + k]);
            assert(suf[k] == s[i + k]);
            assert(suf[k] == (lit + rest)[k]);
        }
    }
    assert(s.subrange(i + lit.len(), s.len() as int) =~= rest) by {
        assert forall|k: int| 0 <= k < rest.len() implies s.subrange(
            i + lit.len(),
            s.len() as int,
        )[k] == rest[k] by {
            assert(s.subrange(i + lit.len(), s.len() as int)[k] == s[i + lit.len() + k]);
            assert(suf[lit.len() + k] == s[i + lit.len() + k]);
            assert(suf[lit.len() + k] == (lit + rest)[lit.len() + k]);
        }
    }
}

/// Peeling a number: when the suffix of `s` at `i` splits as the decimal
/// spelling of `n` followed by `rest` whose first byte is no digit, reading
/// a number at `i` yields exactly `n`.
proof fn lemma_parse_num_concat(s: Seq<u8>, i: int, n: u16, rest: Seq<u8>)
    requires
        0 <= i <= s.len(),
        s.subrange(i, s.len() as int) == dec_digits(n as int) + rest,
        rest.len() > 0 ==> !is_digit(rest[0]),
    ensures
        spec_parse_u16(s, i) == Some((n as int, i + dec_digits(n as int).len())),
        i + dec_digits(n as int).len() <= s.len(),
        s.subrange(i + dec_digits(n as int).len(), s.len() as int) == rest,
{
    let dd = dec_digits(n as int);
    lemma_dec_digits_props(n as int);
    let suf = s.subrange(i, s.len() as int);
    assert(suf.len() == s.len() - i);
    let j = i + dd.len();
    assert forall|t: int| i <= t < j implies is_digit(s[t]) by {
        assert(suf[t - i] == s[t]);
        assert(suf[t - i] == (dd + rest)[t - i]);
        assert((dd + rest)[t - i] == dd[t - i]);
    }
    if rest.len() == 0 {
        assert(j == s.len());
    } else {
        assert(suf[dd.len() as int] == s[j]);
        assert(suf[dd.len() as int] == (dd + rest)[dd.len() as int]);
        assert((dd + rest)[dd.len() as int] == rest[0]);
    }
    lemma_digit_run_end_at(s, i, j);
    assert(s.subrange(i, j) =~= dd) by {
        assert forall|k: int| 0 <= k < dd.len() implies s.subrange(i, j)[k] == dd[k] by {
            assert(s.subrange(i, j)[k] == s[i + k]);
            assert(suf[k] == s[i + k]);
            assert(suf[k] == (dd + rest)[k]);
        }
    }
    assert(dec_val(s.subrange(i, j)) == n);
    assert(s.subrange(j, s.len() as int) =~= rest) by {
        assert forall|k: int| 0 <= k < rest.len() implies s.subrange(j, s.len() as int)[k]
            == rest[k] by {
            assert(s.subrange(j, s.len() as int)[k] == s[j + k]);
            assert(suf[dd.len() + k] == s[j + k]);
            assert(suf[dd.len() + k] == (dd + rest)[dd.len() + k]);
        }
    }
}

/// Trailing padding is invisible to trimming: appending pad bytes to a
/// payload that does not end in one moves `content_end` not at all.
proof fn lemma_content_end_ignores_pad(s: Seq<u8>, pad: Seq<u8>)
    requires
        s.len() > 0,
        !is_pad(s.last()),
        forall|i: int| 0 <= i < pad.len() ==> is_pad(#[trigger] pad[i]),
    ensures
        content_end(s + pad) == s.len(),
    decreases pad.len(),
{
    if pad.len() == 0 {
        assert(s + pad =~= s);
        assert(content_end(s) == s.len());
    } else {
        assert((s + pad).last() == pad.last());
        assert((s + pad).drop_last() =~= s + pad.drop_last());
        lemma_content_end_ignores_pad(s, pad.drop_last());
    }
}

/// Index just past the opening literal in an encoded snapshot.
spec fn ix1(d: GameDataJSON) -> int {
    lit_head().len() as int
}

spec fn ix2(d: GameDataJSON) -> int {
    ix1(d) + dec_digits(d.player_one_x as int).len()
}

spec fn ix3(d: GameDataJSON) -> int {
    ix2(d) + lit_comma().len()
}

spec fn ix4(d: GameDataJSON) -> int {
    ix3(d) + dec_digits(d.player_one_y as int).len()
}

spec fn ix5(d: GameDataJSON) -> int {
    ix4(d) + lit_two().len()
}

spec fn ix6(d: GameDataJSON) -> int {
    ix5(d) + dec_digits(d.player_two_x as int).len()
}

spec fn ix7(d: GameDataJSON) -> int {
    ix6(d) + lit_comma().len()
}

spec fn ix8(d: GameDataJSON) -> int {
    ix7(d) + dec_digits(d.player_two_y as int).len()
}

spec fn ix9(d: GameDataJSON) -> int {
    ix8(d) + lit_pong().len()
}

spec fn ix10(d: GameDataJSON) -> int {
    ix9(d) + dec_digits(d.pong_x as int).len()
}

spec fn ix11(d: GameDataJSON) -> int {
    ix10(d) + lit_comma().len()
}

spec fn ix12(d: GameDataJSON) -> int {
    ix11(d) + dec_digits(d.pong_y as int).len()
}

spec fn ix13(d: GameDataJSON) -> int {
    ix12(d) + lit_score_one().len()
}

spec fn ix14(d: GameDataJSON) -> int {
    ix13(d) + dec_digits(d.player_one_score as int).len()
}

spec fn ix15(d: GameDataJSON) -> int {
    ix14(d) + lit_score_two().len()
}

spec fn ix16(d: GameDataJSON) -> int {
    ix15(d) + dec_digits(d.player_two_score as int).len()
}

spec fn ix17(d: GameDataJSON) -> int {
    ix16(d) + lit_close().len()
}

/// The tail of an encoded snapshot from the ball-position literal on.
spec fn enc_tail(d: GameDataJSON) -> Seq<u8> {
    lit_pong() + (dec_digits(d.pong_x as int) + (lit_comma() + (dec_digits(d.pong_y as int) + (
    lit_score_one() + (dec_digits(d.player_one_score as int) + (lit_score_two() + (dec_digits(
        d.player_two_score as int,
    ) + lit_close())))))))
}

/// Peels the first half of an encoded snapshot: both paddle positions read
/// back exactly, leaving `enc_tail` as the unread suffix.
#[verifier::rlimit(100)]
proof fn lemma_parse_encoded_front(d: GameDataJSON)
    ensures
        after_lit(spec_encode(d), 0, lit_head()) == Some(ix1(d)),
        spec_parse_u16(spec_encode(d), ix1(d)) == Some((d.player_one_x as int, ix2(d))),
        after_lit(spec_encode(d), ix2(d), lit_comma()) == Some(ix3(d)),
        spec_parse_u16(spec_encode(d), ix3(d)) == Some((d.player_one_y as int, ix4(d))),
        after_lit(spec_encode(d), ix4(d), lit_two()) == Some(ix5(d)),
        spec_parse_u16(spec_encode(d), ix5(d)) == Some((d.player_two_x as int, ix6(d))),
        after_lit(spec_encode(d), ix6(d), lit_comma()) == Some(ix7(d)),
        spec_parse_u16(spec_encode(d), ix7(d)) == Some((d.player_two_y as int, ix8(d))),
        0 <= ix8(d) <= spec_encode(d).len(),
        spec_encode(d).subrange(ix8(d), spec_encode(d).len() as int) == enc_tail(d),
{
    let e1 = dec_digits(d.player_one_x as int);
    let e2 = dec_digits(d.player_one_y as int);
    let e3 = dec_digits(d.player_two_x as int);
    let e4 = dec_digits(d.player_two_y as int);
    let r9 = enc_tail(d);
    let r8 = e4 + r9;
    let r7 = lit_comma() + r8;
    let r6 = e3 + r7;
    let r5 = lit_two() + r6;
    let r4 = e2 + r5;
    let r3 = lit_comma() + r4;
    let r2 = e1 + r3;
    let s = spec_encode(d);
    assert(s == lit_head() + r2);
    assert(s.subrange(0, s.len() as int) =~= s);
    lemma_after_lit_concat(s, 0, lit_head(), r2);
    assert(r3[0] == 44);
    lemma_parse_num_concat(s, ix1(d), d.player_one_x, r3);
    lemma_after_lit_concat(s, ix2(d), lit_comma(), r4);
    assert(r5[0] == 93);
    lemma_parse_num_concat(s, ix3(d), d.player_one_y, r5);
    lemma_after_lit_concat(s, ix4(d), lit_two(), r6);
    assert(r7[0] == 44);
    lemma_parse_num_concat(s, ix5(d), d.player_two_x, r7);
    lemma_after_lit_concat(s, ix6(d), lit_comma(), r8);
    assert(r9[0] == 93);
    lemma_parse_num_concat(s, ix7(d), d.player_two_y, r9);
}

/// The tail of an encoded snapshot from the home-score literal on.
spec fn enc_tail2(d: GameDataJSON) -> Seq<u8> {
    lit_score_one() + (dec_digits(d.player_one_score as int) + (lit_score_two() + (dec_digits(
        d.player_two_score as int,
    ) + lit_close())))
}

/// Peels the ball position out of an encoded snapshot, leaving `enc_tail2`
/// as the unread suffix.
#[verifier::rlimit(100)]
proof fn lemma_parse_encoded_mid(d: GameDataJSON)
    requires
        0 <= ix8(d) <= spec_encode(d).len(),
        spec_encode(d).subrange(ix8(d), spec_encode(d).len() as int) == enc_tail(d),
    ensures
        after_lit(spec_encode(d), ix8(d), lit_pong()) == Some(ix9(d)),
        spec_parse_u16(spec_encode(d), ix9(d)) == Some((d.pong_x as int, ix10(d))),
        after_lit(spec_encode(d), ix10(d), lit_comma()) == Some(ix11(d)),
        spec_parse_u16(spec_encode(d), ix11(d)) == Some((d.pong_y as int, ix12(d))),
        0 <= ix12(d) <= spec_encode(d).len(),
        spec_encode(d).subrange(ix12(d), spec_encode(d).len() as int) == enc_tail2(d),
{
    let e5 = dec_digits(d.pong_x as int);
    let e6 = dec_digits(d.pong_y as int);
    let r13 = enc_tail2(d);
    let r12 = e6 + r13;
    let r11 = lit_comma() + r12;
    let r10 = e5 + r11;
    let s = spec_encode(d);
    assert(enc_tail(d) == lit_pong() + r10);
    lemma_after_lit_concat(s, ix8(d), lit_pong(), r10);
    assert(r11[0] == 44);
    lemma_parse_num_concat(s, ix9(d), d.pong_x, r11);
    lemma_after_lit_concat(s, ix10(d), lit_comma(), r12);
    assert(r13[0] == 93);
    lemma_parse_num_concat(s, ix11(d), d.pong_y, r13);
}

/// Peels both scores and the closing brace: the payload ends exactly at the
/// brace, which is no pad byte.
#[verifier::rlimit(100)]
proof fn lemma_parse_encoded_end(d: GameDataJSON)
    requires
        0 <= ix12(d) <= spec_encode(d).len(),
        spec_encode(d).subrange(ix12(d), spec_encode(d).len() as int) == enc_tail2(d),
    ensures
        after_lit(spec_encode(d), ix12(d), lit_score_one()) == Some(ix13(d)),
        spec_parse_u16(spec_encode(d), ix13(d)) == Some((d.player_one_score as int, ix14(d))),
        after_lit(spec_encode(d), ix14(d), lit_score_two()) == Some(ix15(d)),
        spec_parse_u16(spec_encode(d), ix15(d)) == Some((d.player_two_score as int, ix16(d))),
        after_lit(spec_encode(d), ix16(d), lit_close()) == Some(ix17(d)),
        ix17(d) == spec_encode(d).len(),
        spec_encode(d).len() > 0,
        !is_pad(spec_encode(d).last()),
{
    let e7 = dec_digits(d.player_one_score as int);
    let e8 = dec_digits(d.player_two_score as int);
    let r17 = lit_close();
    let r16 = e8 + r17;
    let r15 = lit_score_two() + r16;
    let r14 = e7 + r15;
    let s = spec_encode(d);
    assert(enc_tail2(d) == lit_score_one() + r14);
    lemma_after_lit_concat(s, ix12(d), lit_score_one(), r14);
    assert(r15[0] == 44);
    lemma_parse_num_concat(s, ix13(d), d.player_one_score, r15);
    lemma_after_lit_concat(s, ix14(d), lit_score_two(), r16);
    assert(r17[0] == 125);
    lemma_parse_num_concat(s, ix15(d), d.player_two_score, r17);
    assert(lit_close() + Seq::<u8>::empty() =~= lit_close());
    lemma_after_lit_concat(s, ix16(d), lit_close(), Seq::<u8>::empty());
    assert(s.subrange(ix17(d), s.len() as int).len() == 0);
    assert(ix17(d) == s.len());
    assert(s[ix16(d)] == s.subrange(ix16(d), ix16(d) + 1)[0]);
    assert(s.last() == 125);
}

/// An encoded snapshot reads back field for field: the whole parse chain
/// succeeds on `spec_encode(d)` and rebuilds `d` exactly.
#[verifier::rlimit(100)]
proof fn lemma_parse_fields_encoded(d: GameDataJSON)
    ensures
        parse_fields(spec_encode(d)) == Some(d),
        spec_encode(d).len() > 0,
        !is_pad(spec_encode(d).last()),
{
    lemma_parse_encoded_front(d);
    lemma_parse_encoded_mid(d);
    lemma_parse_encoded_end(d);
    assert(parse_fields(spec_encode(d)) == Some(d));
}

/// Round-trip law: decoding an encoded snapshot yields that snapshot back.
pub proof fn lemma_decode_encode(d: GameDataJSON)
    ensures
        spec_decode(spec_encode(d)) == Some(d),
{
    lemma_parse_fields_encoded(d);
    let s = spec_encode(d);
    assert(content_end(s) == s.len());
    assert(s.subrange(0, s.len() as int) =~= s);
}

/// Padding tolerance: a payload followed by any run of transport pad bytes
/// decodes to the same snapshot as the payload alone.
pub proof fn lemma_decode_encode_padded(d: GameDataJSON, pad: Seq<u8>)
    requires
        forall|i: int| 0 <= i < pad.len() ==> is_pad(#[trigger] pad[i]),
    ensures
        spec_decode(spec_encode(d) + pad) == Some(d),
{
    lemma_parse_fields_encoded(d);
    let s = spec_encode(d);
    lemma_content_end_ignores_pad(s, pad);
    assert((s + pad).subrange(0, s.len() as int) =~= s);
}

} // verus!
