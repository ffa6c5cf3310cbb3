//! The frame codec.
//!
//! Argument and response bodies travel on the bus as frames: after every 2
//! data bytes comes the checksum of those 2 bytes, so a frame is a sequence
//! of 3-byte groups. The command word itself (always exactly 2 bytes) is
//! never checksummed; only what follows it is. Outbound, [`add_crc`] inserts
//! the checksum bytes; inbound, [`check_crc`] validates every checksum over
//! the original offsets and [`remove_crc`] compacts the frame down to its
//! data bytes.

use vstd::prelude::*;

use crate::crc::calc_crc_pair;
use crate::crc::crc8;

verus! {

/// A buffer is a well-formed frame when every byte at an offset congruent to
/// 2 mod 3 is the checksum of the 2 bytes before it.
pub open spec fn frame_ok(raw: Seq<u8>) -> bool {
    forall|i: int|
        0 <= i < raw.len() && i % 3 == 2 ==> #[trigger] raw[i] == crc8(raw[i - 2], raw[i - 1])
}

/// The data bytes of a frame: of every 3-byte group, the first 2 bytes are
/// kept and the trailing checksum byte is dropped.
pub open spec fn stripped(raw: Seq<u8>) -> Seq<u8>
    decreases raw.len(),
{
    if raw.len() < 3 {
        Seq::empty()
    } else {
        seq![raw[0], raw[1]] + stripped(raw.skip(3))
    }
}

/// The frame of a buffer of data words: after every 2 data bytes, their
/// checksum.
pub open spec fn framed(data: Seq<u8>) -> Seq<u8>
    decreases data.len(),
{
    if data.len() < 2 {
        Seq::empty()
    } else {
        seq![data[0], data[1], crc8(data[0], data[1])] + framed(data.skip(2))
    }
}

/// What encoding does to a whole outbound buffer: a zero-length bus ping and
/// a bare 2-byte command word pass through unmodified; a longer buffer keeps
/// its 2-byte command word and has the argument words after it framed.
pub open spec fn encoded(buf: Seq<u8>) -> Seq<u8> {
    if buf.len() <= 2 {
        buf
    } else {
        buf.take(2) + framed(buf.skip(2))
    }
}

/// Framing distributes over concatenation at a word boundary.
proof fn lemma_framed_append(a: Seq<u8>, b: Seq<u8>)
    requires
        a.len() % 2 == 0,
        b.len() % 2 == 0,
    ensures
        framed(a + b) == framed(a) + framed(b),
    decreases a.len(),
{
    if a.len() == 0 {
        assert(a + b =~= b);
        assert(framed(a) + framed(b) =~= framed(b));
    } else {
        assert((a + b).skip(2) =~= a.skip(2) + b);
        lemma_framed_append(a.skip(2), b);
        assert((a + b)[0] == a[0]);
        assert((a + b)[1] == a[1]);
        assert(framed(a + b) =~= framed(a) + framed(b));
    }
}

/// Stripping distributes over concatenation at a group boundary.
proof fn lemma_stripped_append(a: Seq<u8>, b: Seq<u8>)
    requires
        a.len() % 3 == 0,
    ensures
        stripped(a + b) == stripped(a) + stripped(b),
    decreases a.len(),
{
    if a.len() == 0 {
        assert(a + b =~= b);
        assert(stripped(a) + stripped(b) =~= stripped(b));
    } else {
        assert((a + b).skip(3) =~= a.skip(3) + b);
        lemma_stripped_append(a.skip(3), b);
        assert((a + b)[0] == a[0]);
        assert((a + b)[1] == a[1]);
        assert(stripped(a + b) =~= stripped(a) + stripped(b));
    }
}

/// The data of a whole frame is two thirds of it: 2 data bytes out of every
/// 3-byte group.
pub proof fn lemma_stripped_len(raw: Seq<u8>)
    requires
        raw.len() % 3 == 0,
    ensures
        stripped(raw).len() == 2 * (raw.len() / 3),
    decreases raw.len(),
{
    if raw.len() == 0 {
    } else {
        assert(raw.len() >= 3);
        lemma_stripped_len(raw.skip(3));
    }
}

/// Round trip: framing a buffer of data words always yields a well-formed
/// frame, one and a half times as long, and stripping that frame yields the
/// original data bytes unchanged.
pub proof fn lemma_frame_roundtrip(data: Seq<u8>)
    requires
        data.len() % 2 == 0,
    ensures
        framed(data).len() == 3 * (data.len() / 2),
        frame_ok(framed(data)),
        stripped(framed(data)) == data,
    decreases data.len(),
{
    if data.len() == 0 {
        assert(stripped(framed(data)) =~= data);
    } else {
        let rest = data.skip(2);
        lemma_frame_roundtrip(rest);
        let f = framed(data);
        let head = seq![data[0], data[1], crc8(data[0], data[1])];
        assert(f == head + framed(rest));
        assert forall|i: int| 0 <= i < f.len() && i % 3 == 2 implies #[trigger] f[i] == crc8(
            f[i - 2],
            f[i - 1],
        ) by {
            if i == 2 {
                assert(f[0] == data[0]);
                assert(f[1] == data[1]);
                assert(f[2] == crc8(data[0], data[1]));
            } else {
                assert(i >= 5);
                assert(f[i] == framed(rest)[i - 3]);
                assert(f[i - 1] == framed(rest)[i - 4]);
                assert(f[i - 2] == framed(rest)[i - 5]);
                assert((i - 3) % 3 == 2);
                assert(framed(rest)[i - 3] == crc8(framed(rest)[i - 5], framed(rest)[i - 4]));
            }
        }
        assert(f.skip(3) =~= framed(rest));
        assert(stripped(f) == seq![f[0], f[1]] + stripped(framed(rest)));
        assert(stripped(f) =~= data);
    }
}

/// Tamper detection: flipping any single bit of any checksum byte of a
/// well-formed frame leaves a frame that fails validation.
pub proof fn lemma_tamper_detected(raw: Seq<u8>, i: int, bit: u8)
    requires
        frame_ok(raw),
        0 <= i < raw.len(),
        i % 3 == 2,
        bit < 8,
    ensures
        !frame_ok(raw.update(i, raw[i] ^ (1u8 << bit))),
{
    let x = raw[i];
    let t = raw.update(i, x ^ (1u8 << bit));
    assert(x ^ (1u8 << bit) != x) by (bit_vector)
        requires
            bit < 8,
    ;
    assert(t[i] == x ^ (1u8 << bit));
    assert(t[i - 2] == raw[i - 2]);
    assert(t[i - 1] == raw[i - 1]);
    assert(raw[i] == crc8(raw[i - 2], raw[i - 1]));
}

/// Validate every checksum byte of an inbound frame over its original
/// offsets, without disturbing the buffer. A single mismatch anywhere
/// invalidates the whole frame.
pub fn check_crc(data: &Vec<u8>) -> (ok: bool)
    ensures
        ok == frame_ok(data@),
{
    let mut i: usize = 0;
    while i < data.len()
        invariant
            i <= data@.len(),
            forall|j: int|
                0 <= j < i && j % 3 == 2 ==> #[trigger] data@[j] == crc8(
                    data@[j - 2],
                    data@[j - 1],
                ),
        decreases data@.len() - i,
    {
        if i % 3 == 2 {
            if calc_crc_pair(data[i - 2], data[i - 1]) != data[i] {
                assert(!frame_ok(data@));
                return false;
            }
        }
        i = i + 1;
    }
    true
}

/// Compact a frame by dropping every checksum byte, yielding its data bytes.
/// The caller has already validated the checksums with [`check_crc`].
pub fn remove_crc(data: &Vec<u8>) -> (r: Vec<u8>)
    requires
        data@.len() % 3 == 0,
    ensures
        r@ == stripped(data@),
{
    let mut r: Vec<u8> = Vec::new();
    let mut i: usize = 0;
    while i < data.len()
        invariant
            data@.len() % 3 == 0,
            i % 3 == 0,
            i <= data@.len(),
            r@ == stripped(data@.take(i as int)),
        decreases data@.len() - i,
    {
        assert(i + 3 <= data@.len());
        r.push(data[i]);
        r.push(data[i + 1]);
        proof {
            let pre = data@.take(i as int);
            let group = data@.subrange(i as int, i + 3);
            lemma_stripped_append(pre, group);
            assert(data@.take(i + 3) =~= pre + group);
            assert(group.skip(3) =~= Seq::<u8>::empty());
            assert(stripped(group.skip(3)) =~= Seq::<u8>::empty());
            assert(stripped(group) =~= seq![data@[i as int], data@[i as int + 1]]);
            assert(r@ =~= stripped(data@.take(i + 3)));
        }
        i = i + 3;
    }
    proof {
        assert(data@.take(data@.len() as int) =~= data@);
    }
    r
}

/// Encode an outbound buffer: a zero-length ping or a bare command word is
/// returned unmodified, with no checksum appended; a longer buffer keeps its
/// 2-byte command word and gets the checksum of each argument word inserted
/// after that word's 2 bytes.
pub fn add_crc(data: &Vec<u8>) -> (r: Vec<u8>)
    requires
        data@.len() % 2 == 0,
    ensures
        r@ == encoded(data@),
        data@.len() <= 2 ==> r@ == data@,
{
    let mut r: Vec<u8> = Vec::new();
    if data.len() <= 2 {
        let mut i: usize = 0;
        while i < data.len()
            invariant
                i <= data@.len(),
                r@ == data@.take(i as int),
            decreases data@.len() - i,
        {
            r.push(data[i]);
            proof {
                assert(data@.take(i + 1) =~= data@.take(i as int).push(data@[i as int]));
            }
            i = i + 1;
        }
        proof {
            assert(data@.take(data@.len() as int) =~= data@);
        }
        return r;
    }
    r.push(data[0]);
    r.push(data[1]);
    let mut i: usize = 2;
    while i < data.len() - 1
        invariant
            data@.len() % 2 == 0,
            data@.len() > 2,
            2 <= i <= data@.len(),
            i % 2 == 0,
            r@ == data@.take(2) + framed(data@.subrange(2, i as int)),
        decreases data@.len() - i,
    {
        let b0 = data[i];
        let b1 = data[i + 1];
        let c = calc_crc_pair(b0, b1);
        r.push(b0);
        r.push(b1);
        r.push(c);
        proof {
            let pre = data@.subrange(2, i as int);
            let word = data@.subrange(i as int, i + 2);
            lemma_framed_append(pre, word);
            assert(data@.subrange(2, i + 2) =~= pre + word);
            assert(word.skip(2) =~= Seq::<u8>::empty());
            assert(framed(word.skip(2)) =~= Seq::<u8>::empty());
            assert(framed(word) =~= seq![b0, b1, crc8(b0, b1)]);
            assert(r@ =~= data@.take(2) + framed(data@.subrange(2, i + 2)));
        }
        i = i + 2;
    }
    proof {
        assert(i == data@.len());
        assert(data@.subrange(2, data@.len() as int) =~= data@.skip(2));
    }
    r
}

} // verus!
