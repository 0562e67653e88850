//! Codec setup data for the Vorbis decoder.
//!
//! The stream headers that arrive in the sink caps (`streamheader`) are
//! packed into one block of extradata: a count byte, one length lace per
//! header but the last, then every header in order.

use vstd::prelude::*;
use vstd::arithmetic::div_mod::lemma_div_denominator;
use vstd::arithmetic::power::{lemma_pow_positive, pow};

verus! {

/// The bytes that record a header length `len`: while the remaining value
/// exceeds 255 a byte 255 is written and the value is divided by 255; the
/// value that is left (at most 255) closes the lace.
pub open spec fn lace(len: nat) -> Seq<u8>
    decreases len,
{
    if len > 255 {
        seq![255u8] + lace(len / 255)
    } else {
        seq![len as u8]
    }
}

/// The laces of all given headers, one after the other.
pub open spec fn laces(headers: Seq<Seq<u8>>) -> Seq<u8>
    decreases headers.len(),
{
    if headers.len() == 0 {
        Seq::empty()
    } else {
        laces(headers.drop_last()) + lace(headers.last().len())
    }
}

/// All given headers, one after the other.
pub open spec fn concat(headers: Seq<Seq<u8>>) -> Seq<u8>
    decreases headers.len(),
{
    if headers.len() == 0 {
        Seq::empty()
    } else {
        concat(headers.drop_last()) + headers.last()
    }
}

/// The sum of the lengths of the given headers.
pub open spec fn total_len(headers: Seq<Seq<u8>>) -> nat
    decreases headers.len(),
{
    if headers.len() == 0 {
        0
    } else {
        total_len(headers.drop_last()) + headers.last().len()
    }
}

/// The byte views of a list of headers.
pub open spec fn header_views(headers: Seq<Vec<u8>>) -> Seq<Seq<u8>> {
    headers.map_values(|h: Vec<u8>| h@)
}

/// The extradata for the headers: the number of headers minus one, the
/// laces of all headers but the last, then all headers.
pub open spec fn extradata(headers: Seq<Seq<u8>>) -> Seq<u8> {
    seq![(headers.len() - 1) as u8] + laces(headers.drop_last()) + concat(headers)
}

/// Appends the lace of `len` to `out`.
pub fn push_lace(out: &mut Vec<u8>, len: usize)
    ensures
        final(out)@ == old(out)@ + lace(len as nat),
{
    let mut rest: usize = len;
    while rest > 255
        invariant
            old(out)@ + lace(len as nat) == out@ + lace(rest as nat),
        decreases rest,
    {
        assert(lace(rest as nat) == seq![255u8] + lace((rest / 255) as nat));
        assert(out@ + lace(rest as nat) == out@.push(255u8) + lace((rest / 255) as nat));
        out.push(255u8);
        rest = rest / 255;
    }
    assert(lace(rest as nat) == seq![rest as u8]);
    out.push(rest as u8);
}

/// The lace of `len` on its own.
pub fn lace_length(len: usize) -> (r: Vec<u8>)
    ensures
        r@ == lace(len as nat),
{
    let mut out: Vec<u8> = Vec::new();
    push_lace(&mut out, len);
    assert(out@ == Seq::<u8>::empty() + lace(len as nat));
    out
}

/// Packs the stream headers into the decoder's extradata.
///
/// The number of headers is at least three and below 256.
pub fn build_extradata(headers: &Vec<Vec<u8>>) -> (r: Vec<u8>)
    requires
        3 <= headers.len() < 256,
    ensures
        r@ == extradata(header_views(headers@)),
        r@[0] == (headers.len() - 1) as u8,
        r@.len() == 1 + laces(header_views(headers@).drop_last()).len() + total_len(
            header_views(headers@),
        ),
        forall|k: int, j: int|
            0 <= k < headers.len() && 0 <= j < headers@[k]@.len() ==> r@[1 + laces(
                header_views(headers@).drop_last(),
            ).len() + total_len(header_views(headers@).take(k)) + j] == #[trigger] headers@[k]@[j],
{
    let ghost hs = header_views(headers@);
    let n = headers.len();
    let mut out: Vec<u8> = Vec::new();
    out.push((n - 1) as u8);
    let mut i: usize = 0;
    while i < n - 1
        invariant
            n == headers.len(),
            3 <= n < 256,
            i <= n - 1,
            hs == header_views(headers@),
            out@ == seq![(n - 1) as u8] + laces(hs.take(i as int)),
        decreases n - 1 - i,
    {
        push_lace(&mut out, headers[i].len());
        proof {
            assert(hs.take(i + 1).drop_last() == hs.take(i as int));
            assert(hs.take(i + 1).last() == headers@[i as int]@);
            assert(laces(hs.take(i + 1)) == laces(hs.take(i as int)) + lace(headers@[i as int]@.len()));
            assert(out@ == seq![(n - 1) as u8] + laces(hs.take(i + 1)));
        }
        i = i + 1;
    }
    assert(hs.take((n - 1) as int) == hs.drop_last());
    let ghost prefix = out@;
    let mut j: usize = 0;
    while j < n
        invariant
            n == headers.len(),
            j <= n,
            hs == header_views(headers@),
            out@ == prefix + concat(hs.take(j as int)),
        decreases n - j,
    {
        out.extend_from_slice(headers[j].as_slice());
        proof {
            assert(hs.take(j + 1).drop_last() == hs.take(j as int));
            assert(hs.take(j + 1).last() == headers@[j as int]@);
            assert(concat(hs.take(j + 1)) == concat(hs.take(j as int)) + headers@[j as int]@);
            assert(out@ == prefix + concat(hs.take(j + 1)));
        }
        j = j + 1;
    }
    assert(hs.take(n as int) == hs);
    assert(hs.len() == n);
    proof {
        lemma_extradata_layout(hs);
        assert forall|k: int, j: int|
            0 <= k < headers.len() && 0 <= j < headers@[k]@.len() implies out@[1 + laces(
                hs.drop_last(),
            ).len() + total_len(hs.take(k)) + j] == #[trigger] headers@[k]@[j] by {
            assert(hs[k] == headers@[k]@);
        }
    }
    out
}

/// Every byte of a lace but the last is 255, and a length that fits in a
/// byte is written as that single byte.
pub proof fn lemma_lace_shape(len: nat)
    ensures
        lace(len).len() >= 1,
        forall|k: int| 0 <= k < lace(len).len() - 1 ==> lace(len)[k] == 255u8,
        len <= 255 <==> lace(len) == seq![len as u8],
        len > 255 ==> lace(len)[0] == 255u8,
    decreases len,
{
    if len > 255 {
        lemma_lace_shape(len / 255);
        let tail = lace(len / 255);
        assert forall|k: int| 0 <= k < lace(len).len() - 1 implies lace(len)[k] == 255u8 by {
            if k > 0 {
                assert(lace(len)[k] == tail[k - 1]);
            }
        }
        if lace(len) == seq![len as u8] {
            assert(lace(len).len() == 1);
            assert(tail.len() >= 1);
        }
    }
}

/// The lace of a length says the length up to division: with `k` bytes 255
/// before its last byte, the last byte is the length divided `k` times by
/// 255 (rounded down), at most 255, and one division fewer would have left
/// more than 255.
pub proof fn lemma_lace_value(len: nat)
    ensures
        lace(len).last() as int == len as int / pow(255, (lace(len).len() - 1) as nat),
        lace(len).len() >= 2 ==> len as int / pow(255, (lace(len).len() - 2) as nat) > 255,
        len as int / pow(255, (lace(len).len() - 1) as nat) <= 255,
    decreases len,
{
    reveal(pow);
    lemma_lace_shape(len);
    if len > 255 {
        let m = len / 255;
        lemma_lace_value(m);
        lemma_lace_shape(m);
        let k = (lace(m).len() - 1) as nat;
        assert(lace(len) == seq![255u8] + lace(m));
        assert(lace(len).len() == lace(m).len() + 1);
        assert(lace(len).last() == lace(m).last());
        lemma_pow_positive(255, k);
        assert(pow(255, (k + 1) as nat) == 255 * pow(255, k));
        lemma_div_denominator(len as int, 255, pow(255, k));
        if k == 0 {
            assert(pow(255, 0) == 1);
            assert(len as int / 1 == len as int);
        } else {
            let k1 = (k - 1) as nat;
            lemma_pow_positive(255, k1);
            assert(pow(255, k) == 255 * pow(255, k1));
            lemma_div_denominator(len as int, 255, pow(255, k1));
            assert(len as int / pow(255, k) == m as int / pow(255, k1));
        }
    } else {
        assert(pow(255, 0) == 1);
        assert(len as int / 1 == len as int);
    }
}

/// The headers before the `k`-th are no longer than all headers together,
/// less the `k`-th.
pub proof fn lemma_total_len_prefix(headers: Seq<Seq<u8>>, k: int)
    requires
        0 <= k < headers.len(),
    ensures
        total_len(headers.take(k)) + headers[k].len() <= total_len(headers),
    decreases headers.len(),
{
    if k == headers.len() - 1 {
        assert(headers.take(k) =~= headers.drop_last());
    } else {
        lemma_total_len_prefix(headers.drop_last(), k);
        assert(headers.drop_last().take(k) =~= headers.take(k));
        assert(headers.drop_last()[k] == headers[k]);
    }
}

/// All headers together are as long as their lengths add up to, and hold
/// each header whole, in order: header `k` starts after the headers before
/// it.
pub proof fn lemma_concat_holds_each_header(headers: Seq<Seq<u8>>)
    ensures
        concat(headers).len() == total_len(headers),
        forall|k: int, j: int|
            0 <= k < headers.len() && 0 <= j < headers[k].len() ==> concat(headers)[total_len(
                headers.take(k),
            ) + j] == #[trigger] headers[k][j],
    decreases headers.len(),
{
    if headers.len() > 0 {
        let d = headers.drop_last();
        lemma_concat_holds_each_header(d);
        assert forall|k: int, j: int|
            0 <= k < headers.len() && 0 <= j < headers[k].len() implies concat(headers)[total_len(
                headers.take(k),
            ) + j] == #[trigger] headers[k][j] by {
            if k < headers.len() - 1 {
                assert(d.take(k) =~= headers.take(k));
                assert(d[k] == headers[k]);
                lemma_total_len_prefix(d, k);
                assert(d[k][j] == headers[k][j]);
            } else {
                assert(headers.take(k) =~= d);
            }
        }
    }
}

/// The layout of the extradata: the count byte comes first, then the laces,
/// and the headers whole and in order end it; its length is one byte, the
/// laces and the lengths of all headers.
pub proof fn lemma_extradata_layout(headers: Seq<Seq<u8>>)
    requires
        3 <= headers.len() < 256,
    ensures
        extradata(headers)[0] == (headers.len() - 1) as u8,
        extradata(headers).len() == 1 + laces(headers.drop_last()).len() + total_len(headers),
        extradata(headers).subrange(1, 1 + laces(headers.drop_last()).len() as int) == laces(
            headers.drop_last(),
        ),
        forall|k: int, j: int|
            0 <= k < headers.len() && 0 <= j < headers[k].len() ==> extradata(headers)[1 + laces(
                headers.drop_last(),
            ).len() + total_len(headers.take(k)) + j] == #[trigger] headers[k][j],
{
    let e = extradata(headers);
    let p = seq![(headers.len() - 1) as u8] + laces(headers.drop_last());
    assert(e == p + concat(headers));
    lemma_concat_holds_each_header(headers);
    assert(e.subrange(1, 1 + laces(headers.drop_last()).len() as int) =~= laces(headers.drop_last()));
    assert forall|k: int, j: int|
        0 <= k < headers.len() && 0 <= j < headers[k].len() implies e[1 + laces(
            headers.drop_last(),
        ).len() + total_len(headers.take(k)) + j] == #[trigger] headers[k][j] by {
        lemma_total_len_prefix(headers, k);
        assert(concat(headers)[total_len(headers.take(k)) + j] == headers[k][j]);
    }
}

} // verus!
