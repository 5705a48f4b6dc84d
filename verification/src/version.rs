//! Version negotiation with the performance-counter runtime.
//!
//! The installed runtime reports its version as whitespace-delimited
//! tokens whose last token is a dot-separated four-integer version
//! string `major.minor.revision.increment`. The four components are
//! packed into a 32-bit value; only the top 16 bits (major and minor)
//! form the protocol version requested from the runtime, and the
//! runtime must negotiate exactly that value.

use vstd::prelude::*;

use crate::errors::PapiError;
use crate::errors::PAPI_EINVAL;

verus! {

/// Packs the four version components into one 32-bit value.
pub fn papi_version_number(maj: u32, min: u32, rev: u32, inc: u32) -> (v: u32)
    ensures
        v == ((maj << 24) | (min << 16) | (rev << 8) | inc),
{
    (maj << 24) | (min << 16) | (rev << 8) | inc
}

/// The protocol version to request from the runtime: the packed
/// version with the low 16 bits (revision and increment) masked off.
pub fn requested_version(maj: u32, min: u32, rev: u32, inc: u32) -> (v: u32)
    ensures
        v == (((maj << 24) | (min << 16) | (rev << 8) | inc) & 0xffff0000),
        v & 0xffff == 0,
{
    let packed = (maj << 24) | (min << 16) | (rev << 8) | inc;
    let masked = packed & 0xffff0000;
    proof {
        assert((packed & 0xffff0000) & 0xffff == 0) by (bit_vector);
    }
    masked
}

/// For in-range components the packed value keeps each component in
/// its own byte, and masking keeps exactly the major and minor parts.
pub proof fn lemma_version_pack_fields(maj: u32, min: u32, rev: u32, inc: u32)
    by (bit_vector)
    requires
        maj < 256,
        min < 256,
        rev < 256,
        inc < 256,
    ensures
        ((maj << 24) | (min << 16) | (rev << 8) | inc) >> 24 == maj,
        (((maj << 24) | (min << 16) | (rev << 8) | inc) >> 16) & 0xff == min,
        (((maj << 24) | (min << 16) | (rev << 8) | inc) >> 8) & 0xff == rev,
        ((maj << 24) | (min << 16) | (rev << 8) | inc) & 0xff == inc,
        ((maj << 24) | (min << 16) | (rev << 8) | inc) & 0xffff0000 == ((maj << 24) | (min
            << 16)),
{
}

/// Decides whether the version the runtime negotiated matches the one
/// requested. Only the top 16 bits — major and minor, all that the
/// request carries — take part in the comparison; a mismatch there is
/// a failure carrying the raw returned value as its code.
pub fn check_negotiated_version(requested: i32, returned: i32) -> (r: Result<(), PapiError>)
    ensures
        r == (if ((returned as u32) & 0xffff0000) as i32 == requested {
            Ok::<(), PapiError>(())
        } else {
            Err::<(), PapiError>(PapiError { code: returned })
        }),
{
    if (((returned as u32) & 0xffff0000) as i32) == requested {
        Ok(())
    } else {
        Err(PapiError { code: returned })
    }
}

/// ASCII code of the component separator in a version string.
pub const DOT: u8 = 46;

/// ASCII whitespace: space, tab, line feed, carriage return.
pub open spec fn is_ws(b: u8) -> bool {
    b == 32 || b == 9 || b == 10 || b == 13
}

/// ASCII decimal digit.
pub open spec fn is_digit(b: u8) -> bool {
    48 <= b && b <= 57
}

pub open spec fn all_digits(s: Seq<u8>) -> bool {
    forall|i: int| 0 <= i < s.len() ==> is_digit(#[trigger] s[i])
}

/// The number a sequence of decimal digit bytes denotes.
pub open spec fn digits_val(s: Seq<u8>) -> int
    decreases s.len(),
{
    if s.len() == 0 {
        0
    } else {
        digits_val(s.drop_last()) * 10 + (s.last() - 48)
    }
}

/// The input without its trailing whitespace.
pub open spec fn trim_end_ws(s: Seq<u8>) -> Seq<u8>
    decreases s.len(),
{
    if s.len() > 0 && is_ws(s.last()) {
        trim_end_ws(s.drop_last())
    } else {
        s
    }
}

/// The maximal non-whitespace suffix of the input.
pub open spec fn tail_token(s: Seq<u8>) -> Seq<u8>
    decreases s.len(),
{
    if s.len() == 0 || is_ws(s.last()) {
        Seq::empty()
    } else {
        tail_token(s.drop_last()).push(s.last())
    }
}

/// The last whitespace-delimited token of the input.
pub open spec fn last_token(s: Seq<u8>) -> Seq<u8> {
    tail_token(trim_end_ws(s))
}

/// `p1 < p2 < p3` are the positions of the dots of `t`, and there are
/// no others.
pub open spec fn dots_at(t: Seq<u8>, p1: int, p2: int, p3: int) -> bool {
    &&& 0 <= p1 < p2 < p3 < t.len()
    &&& t[p1] == DOT
    &&& t[p2] == DOT
    &&& t[p3] == DOT
    &&& forall|i: int| 0 <= i < t.len() && #[trigger] t[i] == DOT ==> i == p1 || i == p2 || i == p3
}

/// A component is non-empty, all digits, and denotes a value that fits
/// in 32 bits.
pub open spec fn wf_component(c: Seq<u8>) -> bool {
    c.len() > 0 && all_digits(c) && digits_val(c) <= u32::MAX
}

/// `t` is a well-formed four-component version string split by dots at
/// `p1`, `p2`, `p3`.
pub open spec fn wf_version_at(t: Seq<u8>, p1: int, p2: int, p3: int) -> bool {
    &&& dots_at(t, p1, p2, p3)
    &&& wf_component(t.subrange(0, p1))
    &&& wf_component(t.subrange(p1 + 1, p2))
    &&& wf_component(t.subrange(p2 + 1, p3))
    &&& wf_component(t.subrange(p3 + 1, t.len() as int))
}

/// `t` is a well-formed four-component version string.
pub open spec fn is_version_token(t: Seq<u8>) -> bool {
    exists|p1: int, p2: int, p3: int| wf_version_at(t, p1, p2, p3)
}

fn is_ws_byte(b: u8) -> (r: bool)
    ensures
        r == is_ws(b),
{
    b == 32 || b == 9 || b == 10 || b == 13
}

proof fn lemma_digits_val_nonneg(s: Seq<u8>)
    requires
        all_digits(s),
    ensures
        digits_val(s) >= 0,
    decreases s.len(),
{
    if s.len() > 0 {
        assert(forall|i: int| 0 <= i < s.drop_last().len() ==> is_digit(#[trigger] s.drop_last()[i]));
        lemma_digits_val_nonneg(s.drop_last());
    }
}

/// Reading further digits can only grow the denoted value.
proof fn lemma_digits_val_extend_ge(s: Seq<u8>, k: int)
    requires
        all_digits(s),
        0 <= k <= s.len(),
    ensures
        digits_val(s) >= digits_val(s.take(k)),
    decreases s.len() - k,
{
    if k < s.len() {
        assert(s.take(k + 1).drop_last() =~= s.take(k));
        assert(s.take(k + 1).last() == s[k]);
        assert(forall|i: int| 0 <= i < s.take(k).len() ==> is_digit(#[trigger] s.take(k)[i]));
        lemma_digits_val_nonneg(s.take(k));
        assert(digits_val(s.take(k + 1)) == digits_val(s.take(k)) * 10 + (s[k] - 48));
        lemma_digits_val_extend_ge(s, k + 1);
    } else {
        assert(s.take(k) =~= s);
    }
}

/// Parses the digit run `t[from..to]` as a 32-bit value; answers
/// nothing exactly when the run is empty, holds a non-digit, or
/// denotes a value that does not fit.
fn parse_component(t: &Vec<u8>, from: usize, to: usize) -> (r: Option<u32>)
    requires
        from <= to <= t@.len(),
    ensures
        r is Some <==> wf_component(t@.subrange(from as int, to as int)),
        r matches Some(v) ==> v as int == digits_val(t@.subrange(from as int, to as int)),
{
    let ghost seg = t@.subrange(from as int, to as int);
    if from == to {
        return None;
    }
    let mut i = from;
    let mut acc: u64 = 0;
    while i < to
        invariant
            from <= i <= to <= t@.len(),
            seg == t@.subrange(from as int, to as int),
            all_digits(t@.subrange(from as int, i as int)),
            acc <= 0xffff_ffff,
            acc as int == digits_val(t@.subrange(from as int, i as int)),
        decreases to - i,
    {
        let b = t[i];
        if b < 48 || b > 57 {
            proof {
                assert(seg[i - from] == t@[i as int]);
                assert(!all_digits(seg));
            }
            return None;
        }
        proof {
            assert(t@.subrange(from as int, i + 1).drop_last() =~= t@.subrange(
                from as int,
                i as int,
            ));
            assert(t@.subrange(from as int, i + 1).last() == t@[i as int]);
            assert(forall|k: int|
                0 <= k < t@.subrange(from as int, i + 1).len() ==> is_digit(
                    #[trigger] t@.subrange(from as int, i + 1)[k],
                ));
        }
        let acc2: u64 = acc * 10 + ((b - 48) as u64);
        if acc2 > 0xffff_ffff {
            proof {
                if all_digits(seg) {
                    assert(seg.take(i + 1 - from) =~= t@.subrange(from as int, i + 1));
                    lemma_digits_val_extend_ge(seg, i + 1 - from);
                }
            }
            return None;
        }
        acc = acc2;
        i += 1;
    }
    proof {
        assert(t@.subrange(from as int, i as int) =~= seg);
    }
    Some(acc as u32)
}

/// Every position in `dots` is a dot of `t`, in increasing order, and
/// every dot of `t` up to `upto` appears in `dots`.
pub open spec fn dot_positions(t: Seq<u8>, dots: Seq<usize>, upto: int) -> bool {
    &&& forall|j: int|
        0 <= j < dots.len() ==> #[trigger] dots[j] < upto && t[dots[j] as int] == DOT
    &&& forall|j1: int, j2: int| 0 <= j1 < j2 < dots.len() ==> dots[j1] < dots[j2]
    &&& forall|k: int|
        0 <= k < upto && #[trigger] t[k] == DOT ==> exists|j: int|
            0 <= j < dots.len() && #[trigger] dots[j] == k
}

/// All dot positions of `t`, in increasing order.
fn find_dots(t: &Vec<u8>) -> (dots: Vec<usize>)
    ensures
        dot_positions(t@, dots@, t@.len() as int),
{
    let mut dots: Vec<usize> = Vec::new();
    let mut i: usize = 0;
    while i < t.len()
        invariant
            i <= t@.len(),
            dot_positions(t@, dots@, i as int),
        decreases t@.len() - i,
    {
        if t[i] == DOT {
            let ghost old_dots = dots@;
            dots.push(i);
            proof {
                assert(dots@[dots@.len() - 1] == i);
                assert forall|k: int| 0 <= k < i + 1 && #[trigger] t@[k] == DOT implies exists|
                    j: int,
                |
                    0 <= j < dots@.len() && #[trigger] dots@[j] == k by {
                    if k < i {
                        let j = choose|j: int| 0 <= j < old_dots.len() && #[trigger] old_dots[j]
                            == k;
                        assert(dots@[j] == k);
                    } else {
                        assert(dots@[dots@.len() - 1] == k);
                    }
                }
            }
        } else {
            proof {
                assert forall|k: int| 0 <= k < i + 1 && #[trigger] t@[k] == DOT implies exists|
                    j: int,
                |
                    0 <= j < dots@.len() && #[trigger] dots@[j] == k by {
                    assert(k < i);
                    let j = choose|j: int| 0 <= j < dots@.len() && #[trigger] dots@[j] == k;
                    assert(dots@[j] == k);
                }
            }
        }
        i += 1;
    }
    dots
}

/// The three dot positions of a well-formed version string are unique.
proof fn lemma_dots_at_unique(t: Seq<u8>, p1: int, p2: int, p3: int, q1: int, q2: int, q3: int)
    requires
        dots_at(t, p1, p2, p3),
        dots_at(t, q1, q2, q3),
    ensures
        p1 == q1 && p2 == q2 && p3 == q3,
{
    assert(q1 == p1 || q1 == p2 || q1 == p3);
    assert(q2 == p1 || q2 == p2 || q2 == p3);
    assert(q3 == p1 || q3 == p2 || q3 == p3);
    assert(p1 == q1 || p1 == q2 || p1 == q3);
    assert(p2 == q1 || p2 == q2 || p2 == q3);
    assert(p3 == q1 || p3 == q2 || p3 == q3);
}

/// Without exactly three dots, no split into four components exists.
proof fn lemma_three_dots_needed(t: Seq<u8>, dots: Seq<usize>)
    requires
        dot_positions(t, dots, t.len() as int),
        dots.len() != 3,
    ensures
        !is_version_token(t),
{
    if is_version_token(t) {
        let (p1, p2, p3) = choose|p1: int, p2: int, p3: int| wf_version_at(t, p1, p2, p3);
        assert(t[p1] == DOT);
        assert(t[p2] == DOT);
        assert(t[p3] == DOT);
        let j1 = choose|j: int| 0 <= j < dots.len() && #[trigger] dots[j] == p1;
        let j2 = choose|j: int| 0 <= j < dots.len() && #[trigger] dots[j] == p2;
        let j3 = choose|j: int| 0 <= j < dots.len() && #[trigger] dots[j] == p3;
        if dots.len() < 3 {
            assert(j1 != j2 && j1 != j3 && j2 != j3);
        } else {
            assert(t[dots[0] as int] == DOT);
            assert(t[dots[1] as int] == DOT);
            assert(t[dots[2] as int] == DOT);
            assert(t[dots[3] as int] == DOT);
            assert(dots[0] < dots[1] < dots[2] < dots[3]);
        }
    }
}

/// Parses a candidate version token into its four components.
pub fn parse_version_token(t: &Vec<u8>) -> (r: Result<(u32, u32, u32, u32), PapiError>)
    ensures
        r is Ok <==> is_version_token(t@),
        r matches Ok(v) ==> exists|p1: int, p2: int, p3: int|
            {
                &&& wf_version_at(t@, p1, p2, p3)
                &&& v.0 as int == digits_val(t@.subrange(0, p1))
                &&& v.1 as int == digits_val(t@.subrange(p1 + 1, p2))
                &&& v.2 as int == digits_val(t@.subrange(p2 + 1, p3))
                &&& v.3 as int == digits_val(t@.subrange(p3 + 1, t@.len() as int))
            },
        r matches Err(e) ==> e == (PapiError { code: PAPI_EINVAL }),
{
    let dots = find_dots(t);
    if dots.len() != 3 {
        proof {
            lemma_three_dots_needed(t@, dots@);
        }
        return Err(PapiError { code: PAPI_EINVAL });
    }
    let p1 = dots[0];
    let p2 = dots[1];
    let p3 = dots[2];
    proof {
        assert(p1 < t@.len() && p2 < t@.len() && p3 < t@.len());
        assert(p1 < p2 < p3);
        assert forall|k: int| 0 <= k < t@.len() && #[trigger] t@[k] == DOT implies k == p1 || k
            == p2 || k == p3 by {
            let j = choose|j: int| 0 <= j < dots@.len() && #[trigger] dots@[j] == k;
            assert(j == 0 || j == 1 || j == 2);
        }
        assert(dots_at(t@, p1 as int, p2 as int, p3 as int));
    }
    let n = t.len();
    let c1 = parse_component(t, 0, p1);
    let c2 = parse_component(t, p1 + 1, p2);
    let c3 = parse_component(t, p2 + 1, p3);
    let c4 = parse_component(t, p3 + 1, n);
    match (c1, c2, c3, c4) {
        (Some(a), Some(b), Some(c), Some(d)) => {
            proof {
                assert(wf_version_at(t@, p1 as int, p2 as int, p3 as int));
            }
            Ok((a, b, c, d))
        },
        _ => {
            proof {
                if is_version_token(t@) {
                    let (q1, q2, q3) = choose|q1: int, q2: int, q3: int|
                        wf_version_at(t@, q1, q2, q3);
                    lemma_dots_at_unique(t@, p1 as int, p2 as int, p3 as int, q1, q2, q3);
                }
            }
            Err(PapiError { code: PAPI_EINVAL })
        },
    }
}

/// Copies the last whitespace-delimited token out of the raw output.
fn extract_last_token(out: &Vec<u8>) -> (t: Vec<u8>)
    ensures
        t@ == last_token(out@),
{
    let mut j: usize = out.len();
    proof {
        assert(out@.take(j as int) =~= out@);
    }
    while j > 0 && is_ws_byte(out[j - 1])
        invariant
            j <= out@.len(),
            trim_end_ws(out@) == trim_end_ws(out@.take(j as int)),
        decreases j,
    {
        proof {
            assert(out@.take(j as int).last() == out@[j - 1]);
            assert(out@.take(j as int).drop_last() =~= out@.take(j - 1));
        }
        j -= 1;
    }
    proof {
        if j > 0 {
            assert(out@.take(j as int).last() == out@[j - 1]);
        }
        assert(trim_end_ws(out@.take(j as int)) == out@.take(j as int));
        assert(out@.subrange(j as int, j as int) =~= Seq::<u8>::empty());
        assert(tail_token(out@.take(j as int)) =~= tail_token(out@.take(j as int)) + out@.subrange(
            j as int,
            j as int,
        ));
    }
    let mut i: usize = j;
    while i > 0 && !is_ws_byte(out[i - 1])
        invariant
            i <= j <= out@.len(),
            trim_end_ws(out@) == out@.take(j as int),
            tail_token(out@.take(j as int)) == tail_token(out@.take(i as int)) + out@.subrange(
                i as int,
                j as int,
            ),
        decreases i,
    {
        proof {
            assert(out@.take(i as int).last() == out@[i - 1]);
            assert(out@.take(i as int).drop_last() =~= out@.take(i - 1));
            assert(tail_token(out@.take(i - 1)).push(out@[i - 1]) + out@.subrange(i as int, j as int)
                =~= tail_token(out@.take(i - 1)) + out@.subrange(i - 1, j as int));
        }
        i -= 1;
    }
    proof {
        if i > 0 {
            assert(out@.take(i as int).last() == out@[i - 1]);
        } else {
            assert(out@.take(0) =~= Seq::<u8>::empty());
        }
        assert(tail_token(out@.take(i as int)) == Seq::<u8>::empty());
        assert(last_token(out@) =~= out@.subrange(i as int, j as int));
    }
    let mut t: Vec<u8> = Vec::new();
    let mut k: usize = i;
    while k < j
        invariant
            i <= k <= j <= out@.len(),
            t@ == out@.subrange(i as int, k as int),
        decreases j - k,
    {
        let b = out[k];
        t.push(b);
        proof {
            assert(out@.subrange(i as int, k + 1) =~= out@.subrange(i as int, k as int).push(
                out@[k as int],
            ));
        }
        k += 1;
    }
    proof {
        assert(t@ == last_token(out@));
    }
    t
}

/// Parses the raw output of the version-reporting facility: the last
/// whitespace-delimited token must be a dot-separated four-integer
/// version string, and its components are returned in order.
pub fn parse_version_output(out: &Vec<u8>) -> (r: Result<(u32, u32, u32, u32), PapiError>)
    ensures
        r is Ok <==> is_version_token(last_token(out@)),
        r matches Ok(v) ==> exists|p1: int, p2: int, p3: int|
            {
                &&& wf_version_at(last_token(out@), p1, p2, p3)
                &&& v.0 as int == digits_val(last_token(out@).subrange(0, p1))
                &&& v.1 as int == digits_val(last_token(out@).subrange(p1 + 1, p2))
                &&& v.2 as int == digits_val(last_token(out@).subrange(p2 + 1, p3))
                &&& v.3 as int == digits_val(
                    last_token(out@).subrange(p3 + 1, last_token(out@).len() as int),
                )
            },
        r matches Err(e) ==> e == (PapiError { code: PAPI_EINVAL }),
{
    let t = extract_last_token(out);
    parse_version_token(&t)
}

/// The protocol version to request from the runtime, computed
/// straight from the probe's raw output: the packed version of the
/// last token, with revision and increment masked off.
pub fn requested_version_from_output(out: &Vec<u8>) -> (r: Result<u32, PapiError>)
    ensures
        r is Ok <==> is_version_token(last_token(out@)),
        r matches Ok(v) ==> exists|p1: int, p2: int, p3: int|
            {
                &&& wf_version_at(last_token(out@), p1, p2, p3)
                &&& v == ((((digits_val(last_token(out@).subrange(0, p1)) as u32) << 24) | ((
                digits_val(last_token(out@).subrange(p1 + 1, p2)) as u32) << 16) | ((digits_val(
                    last_token(out@).subrange(p2 + 1, p3),
                ) as u32) << 8) | (digits_val(
                    last_token(out@).subrange(p3 + 1, last_token(out@).len() as int),
                ) as u32)) & 0xffff0000)
            },
        r matches Err(e) ==> e == (PapiError { code: PAPI_EINVAL }),
{
    let parsed = parse_version_output(out)?;
    let (maj, min, rev, inc) = parsed;
    let v = requested_version(maj, min, rev, inc);
    proof {
        let (p1, p2, p3) = choose|p1: int, p2: int, p3: int|
            {
                &&& wf_version_at(last_token(out@), p1, p2, p3)
                &&& maj as int == digits_val(last_token(out@).subrange(0, p1))
                &&& min as int == digits_val(last_token(out@).subrange(p1 + 1, p2))
                &&& rev as int == digits_val(last_token(out@).subrange(p2 + 1, p3))
                &&& inc as int == digits_val(
                    last_token(out@).subrange(p3 + 1, last_token(out@).len() as int),
                )
            };
        assert(wf_version_at(last_token(out@), p1, p2, p3));
    }
    Ok(v)
}

} // verus!
