//! Decoding of standard base64 text (RFC 4648 alphabet, `=` padding), as
//! found in the layer data of Tiled maps.
use vstd::prelude::*;

verus! {

/// Value of a base64 digit, or -1 for a byte outside the alphabet.
pub open spec fn digit_value(c: u8) -> int {
    if 65 <= c <= 90 {
        c - 65
    } else if 97 <= c <= 122 {
        c - 71
    } else if 48 <= c <= 57 {
        c + 4
    } else if c == 43 {
        62
    } else if c == 47 {
        63
    } else {
        -1
    }
}

/// The padding byte `=`.
pub open spec fn is_pad(c: u8) -> bool {
    c == 61
}

/// The 24-bit number spelled by four digit values.
pub open spec fn group_number(a: int, b: int, c: int, d: int) -> int {
    a * 262144 + b * 4096 + c * 64 + d
}

/// The first `k` bytes (big-endian) of a 24-bit number.
pub open spec fn group_bytes(n: int, k: int) -> Seq<u8> {
    let all = seq![(n / 65536) as u8, ((n / 256) % 256) as u8, (n % 256) as u8];
    all.take(k)
}

/// Decoding of a group of four digits that is not the last one.
pub open spec fn decode_inner_group(g: Seq<u8>) -> Option<Seq<u8>> {
    if digit_value(g[0]) >= 0 && digit_value(g[1]) >= 0 && digit_value(g[2]) >= 0
        && digit_value(g[3]) >= 0 {
        Some(
            group_bytes(
                group_number(
                    digit_value(g[0]),
                    digit_value(g[1]),
                    digit_value(g[2]),
                    digit_value(g[3]),
                ),
                3,
            ),
        )
    } else {
        None
    }
}

/// Decoding of the last group of four, which may end in one or two `=`.
pub open spec fn decode_last_group(g: Seq<u8>) -> Option<Seq<u8>> {
    if digit_value(g[0]) < 0 || digit_value(g[1]) < 0 {
        None
    } else if is_pad(g[2]) && is_pad(g[3]) {
        Some(group_bytes(group_number(digit_value(g[0]), digit_value(g[1]), 0, 0), 1))
    } else if digit_value(g[2]) >= 0 && is_pad(g[3]) {
        Some(
            group_bytes(
                group_number(digit_value(g[0]), digit_value(g[1]), digit_value(g[2]), 0),
                2,
            ),
        )
    } else {
        decode_inner_group(g)
    }
}

/// `rest` with `head` put in front, where `rest` decoded.
pub open spec fn prepend(head: Seq<u8>, rest: Option<Seq<u8>>) -> Option<Seq<u8>> {
    match rest {
        Some(r) => Some(head + r),
        None => None,
    }
}

/// The bytes that base64 text spells, or `None` where the text is not
/// base64: its length is not a multiple of four, a byte lies outside the
/// alphabet, or `=` stands anywhere but at the end of the last group.
pub open spec fn base64_decoded(s: Seq<u8>) -> Option<Seq<u8>>
    decreases s.len(),
{
    if s.len() == 0 {
        Some(Seq::empty())
    } else if s.len() < 4 {
        None
    } else if s.len() == 4 {
        decode_last_group(s)
    } else {
        match decode_inner_group(s.take(4)) {
            Some(head) => prepend(head, base64_decoded(s.skip(4))),
            None => None,
        }
    }
}

/// Value of one base64 digit.
fn digit(c: u8) -> (r: Option<u32>)
    ensures
        r is Some <==> digit_value(c) >= 0,
        r is Some ==> r->0 as int == digit_value(c),
{
    if 65 <= c && c <= 90 {
        Some((c - 65) as u32)
    } else if 97 <= c && c <= 122 {
        Some((c - 71) as u32)
    } else if 48 <= c && c <= 57 {
        Some((c + 4) as u32)
    } else if c == 43 {
        Some(62)
    } else if c == 47 {
        Some(63)
    } else {
        None
    }
}

/// Appends the first `k` bytes of the 24-bit number `n`.
fn push_group(out: &mut Vec<u8>, n: u32, k: usize)
    requires
        n < 16777216,
        1 <= k <= 3,
    ensures
        final(out)@ == old(out)@ + group_bytes(n as int, k as int),
{
    let ghost start = old(out)@;
    out.push((n / 65536) as u8);
    if k >= 2 {
        out.push(((n / 256) % 256) as u8);
    }
    if k >= 3 {
        out.push((n % 256) as u8);
    }
    assert(out@ =~= start + group_bytes(n as int, k as int));
}

/// The group of four that starts at `i`.
pub open spec fn group_at(s: Seq<u8>, i: int) -> Seq<u8> {
    s.subrange(i, i + 4)
}

/// Decoding of the group at `i`, the last one when it ends the text.
pub open spec fn decode_group_at(s: Seq<u8>, i: int) -> Option<Seq<u8>> {
    if i + 4 == s.len() {
        decode_last_group(group_at(s, i))
    } else {
        decode_inner_group(group_at(s, i))
    }
}

/// Decodes the group of four bytes `g0 g1 g2 g3` and appends its bytes;
/// `false`, with `out` unchanged, where it does not decode.
fn decode_group(g0: u8, g1: u8, g2: u8, g3: u8, last: bool, out: &mut Vec<u8>) -> (r: bool)
    ensures
        ({
            let g = seq![g0, g1, g2, g3];
            let d = if last { decode_last_group(g) } else { decode_inner_group(g) };
            &&& r == d is Some
            &&& r ==> final(out)@ == old(out)@ + d->0
            &&& !r ==> final(out)@ == old(out)@
        }),
{
    let ghost g = seq![g0, g1, g2, g3];
    assert(g[0] == g0 && g[1] == g1 && g[2] == g2 && g[3] == g3);
    let a = digit(g0);
    let b = digit(g1);
    if a.is_none() || b.is_none() {
        return false;
    }
    let a = a.unwrap();
    let b = b.unwrap();
    let c = digit(g2);
    let d = digit(g3);
    if last && g2 == 61 && g3 == 61 {
        push_group(out, a * 262144 + b * 4096, 1);
        true
    } else if last && c.is_some() && g3 == 61 {
        let c = c.unwrap();
        push_group(out, a * 262144 + b * 4096 + c * 64, 2);
        true
    } else if c.is_some() && d.is_some() {
        let c = c.unwrap();
        let d = d.unwrap();
        push_group(out, a * 262144 + b * 4096 + c * 64 + d, 3);
        true
    } else {
        false
    }
}

proof fn lemma_unfold(s: Seq<u8>, i: int)
    requires
        0 <= i,
        i + 4 <= s.len(),
    ensures
        base64_decoded(s.skip(i)) == match decode_group_at(s, i) {
            Some(head) => prepend(head, base64_decoded(s.skip(i + 4))),
            None => None,
        },
{
    let t = s.skip(i);
    assert(t.take(4) =~= group_at(s, i));
    assert(t.skip(4) =~= s.skip(i + 4));
    if i + 4 == s.len() {
        assert(t =~= group_at(s, i));
        assert(s.skip(i + 4) =~= Seq::<u8>::empty());
        assert(base64_decoded(s.skip(i + 4)) == Some(Seq::<u8>::empty()));
        if let Some(head) = decode_group_at(s, i) {
            assert(head + Seq::<u8>::empty() =~= head);
        }
    }
}

proof fn lemma_prepend_assoc(a: Seq<u8>, b: Seq<u8>, rest: Option<Seq<u8>>)
    ensures
        prepend(a, prepend(b, rest)) == prepend(a + b, rest),
{
    if let Some(r) = rest {
        assert(a + (b + r) =~= (a + b) + r);
    }
}

/// Decodes base64 text; `None` where it is not base64.
pub fn decode_base64(s: &[u8]) -> (r: Option<Vec<u8>>)
    ensures
        match r {
            Some(v) => base64_decoded(s@) == Some(v@),
            None => base64_decoded(s@) is None,
        },
{
    let len = s.len();
    if len % 4 != 0 {
        proof {
            lemma_length_not_multiple(s@);
        }
        return None;
    }
    let mut out: Vec<u8> = Vec::new();
    let mut i: usize = 0;
    assert(s@.skip(0) =~= s@);
    assert(Seq::<u8>::empty() + s@ =~= s@);
    while i < len
        invariant
            len == s@.len(),
            len % 4 == 0,
            i % 4 == 0,
            i <= len,
            base64_decoded(s@) == prepend(out@, base64_decoded(s@.skip(i as int))),
        decreases len - i,
    {
        let ghost before = out@;
        let last = i + 4 == len;
        let ok = decode_group(s[i], s[i + 1], s[i + 2], s[i + 3], last, &mut out);
        proof {
            assert(group_at(s@, i as int) =~= seq![s@[i as int], s@[i + 1], s@[i + 2], s@[i + 3]]);
            lemma_unfold(s@, i as int);
            if ok {
                lemma_prepend_assoc(before, out@.skip(before.len() as int), base64_decoded(s@.skip(i + 4)));
                assert(before + out@.skip(before.len() as int) =~= out@);
            }
        }
        if !ok {
            return None;
        }
        i = i + 4;
    }
    assert(s@.skip(len as int) =~= Seq::<u8>::empty());
    assert(out@ + Seq::<u8>::empty() =~= out@);
    Some(out)
}

proof fn lemma_length_not_multiple(s: Seq<u8>)
    requires
        s.len() % 4 != 0,
    ensures
        base64_decoded(s) is None,
    decreases s.len(),
{
    if s.len() > 4 {
        lemma_length_not_multiple(s.skip(4));
    }
}

} // verus!
