//! The retained-state image: the History and CalibrationData records laid
//! out as a little-endian byte blob, so that a platform without a retained
//! memory region can persist them before deep sleep and reload them at wake.
//! Encoding and decoding are exact inverses: a reloaded image restores
//! exactly the state that was captured.

use vstd::prelude::*;

use crate::history::History;
use crate::sunrise::CalibrationData;

verus! {

/// Bytes of the image header: capacity, reading count, accumulated time,
/// each a little-endian 64-bit value.
pub const IMAGE_HEADER_LEN: usize = 24;

/// Little-endian bytes of a 64-bit value.
pub open spec fn u64_le_bytes(x: u64) -> Seq<u8> {
    seq![
        (x & 0xff) as u8,
        ((x >> 8) & 0xff) as u8,
        ((x >> 16) & 0xff) as u8,
        ((x >> 24) & 0xff) as u8,
        ((x >> 32) & 0xff) as u8,
        ((x >> 40) & 0xff) as u8,
        ((x >> 48) & 0xff) as u8,
        ((x >> 56) & 0xff) as u8,
    ]
}

/// The 64-bit value eight little-endian bytes hold.
pub open spec fn u64_from_le(b: Seq<u8>) -> u64 {
    (b[0] as u64) | ((b[1] as u64) << 8) | ((b[2] as u64) << 16) | ((b[3] as u64) << 24) | ((
    b[4] as u64) << 32) | ((b[5] as u64) << 40) | ((b[6] as u64) << 48) | ((b[7] as u64) << 56)
}

/// Little-endian bytes of a 16-bit reading.
pub open spec fn u16_le_bytes(x: u16) -> Seq<u8> {
    seq![(x & 0xff) as u8, ((x >> 8) & 0xff) as u8]
}

/// The 16-bit reading two little-endian bytes hold.
pub open spec fn u16_from_le(b: Seq<u8>) -> u16 {
    (b[0] as u16) | ((b[1] as u16) << 8)
}

/// The readings, oldest first, as consecutive little-endian byte pairs.
pub open spec fn readings_bytes(rs: Seq<u16>) -> Seq<u8> {
    Seq::new(
        rs.len() * 2,
        |j: int|
            if j % 2 == 0 {
                u16_le_bytes(rs[j / 2])[0]
            } else {
                u16_le_bytes(rs[j / 2])[1]
            },
    )
}

/// The image of a retained state: capacity, reading count and accumulated
/// operating time, followed by the readings oldest first.
pub open spec fn image_of(cap: u64, readings: Seq<u16>, time_ms: u64) -> Seq<u8> {
    u64_le_bytes(cap) + u64_le_bytes(readings.len() as u64) + u64_le_bytes(time_ms)
        + readings_bytes(readings)
}

proof fn lemma_u64_round_trip(x: u64)
    ensures
        u64_from_le(u64_le_bytes(x)) == x,
{
    assert((((x & 0xff) as u8) as u64) | (((((x >> 8) & 0xff) as u8) as u64) << 8) | (((((x >> 16)
        & 0xff) as u8) as u64) << 16) | (((((x >> 24) & 0xff) as u8) as u64) << 24) | (((((x >> 32)
        & 0xff) as u8) as u64) << 32) | (((((x >> 40) & 0xff) as u8) as u64) << 40) | (((((x >> 48)
        & 0xff) as u8) as u64) << 48) | (((((x >> 56) & 0xff) as u8) as u64) << 56) == x)
        by (bit_vector);
}

proof fn lemma_u64_bytes_recover(b: Seq<u8>)
    requires
        b.len() == 8,
    ensures
        u64_le_bytes(u64_from_le(b)) == b,
{
    let b0 = b[0];
    let b1 = b[1];
    let b2 = b[2];
    let b3 = b[3];
    let b4 = b[4];
    let b5 = b[5];
    let b6 = b[6];
    let b7 = b[7];
    let y = u64_from_le(b);
    assert(y == (b0 as u64) | ((b1 as u64) << 8) | ((b2 as u64) << 16) | ((b3 as u64) << 24) | ((
    b4 as u64) << 32) | ((b5 as u64) << 40) | ((b6 as u64) << 48) | ((b7 as u64) << 56));
    assert((y & 0xff) as u8 == b0 && ((y >> 8) & 0xff) as u8 == b1 && ((y >> 16) & 0xff) as u8
        == b2 && ((y >> 24) & 0xff) as u8 == b3 && ((y >> 32) & 0xff) as u8 == b4 && ((y >> 40)
        & 0xff) as u8 == b5 && ((y >> 48) & 0xff) as u8 == b6 && ((y >> 56) & 0xff) as u8 == b7)
        by (bit_vector)
        requires
            y == (b0 as u64) | ((b1 as u64) << 8) | ((b2 as u64) << 16) | ((b3 as u64) << 24) | ((
            b4 as u64) << 32) | ((b5 as u64) << 40) | ((b6 as u64) << 48) | ((b7 as u64) << 56),
    ;
    assert(u64_le_bytes(y) =~= b);
}

proof fn lemma_u16_round_trip(x: u16)
    ensures
        u16_from_le(u16_le_bytes(x)) == x,
{
    assert((((x & 0xff) as u8) as u16) | (((((x >> 8) & 0xff) as u8) as u16) << 8) == x)
        by (bit_vector);
}

proof fn lemma_u16_parts(lo: u8, hi: u8)
    ensures
        ((((lo as u16) | ((hi as u16) << 8)) & 0xff) as u8) == lo,
        (((((lo as u16) | ((hi as u16) << 8)) >> 8) & 0xff) as u8) == hi,
{
    assert(((((lo as u16) | ((hi as u16) << 8)) & 0xff) as u8) == lo) by (bit_vector);
    assert((((((lo as u16) | ((hi as u16) << 8)) >> 8) & 0xff) as u8) == hi) by (bit_vector);
}

fn push_u64_le(out: &mut Vec<u8>, x: u64)
    ensures
        final(out)@ == old(out)@ + u64_le_bytes(x),
{
    proof {
        assert(x & 0xff < 256) by (bit_vector);
        assert((x >> 8) & 0xff < 256) by (bit_vector);
        assert((x >> 16) & 0xff < 256) by (bit_vector);
        assert((x >> 24) & 0xff < 256) by (bit_vector);
        assert((x >> 32) & 0xff < 256) by (bit_vector);
        assert((x >> 40) & 0xff < 256) by (bit_vector);
        assert((x >> 48) & 0xff < 256) by (bit_vector);
        assert((x >> 56) & 0xff < 256) by (bit_vector);
    }
    out.push((x & 0xff) as u8);
    out.push(((x >> 8) & 0xff) as u8);
    out.push(((x >> 16) & 0xff) as u8);
    out.push(((x >> 24) & 0xff) as u8);
    out.push(((x >> 32) & 0xff) as u8);
    out.push(((x >> 40) & 0xff) as u8);
    out.push(((x >> 48) & 0xff) as u8);
    out.push(((x >> 56) & 0xff) as u8);
    proof {
        assert(out@ =~= old(out)@ + u64_le_bytes(x));
    }
}

fn push_u16_le(out: &mut Vec<u8>, x: u16)
    ensures
        final(out)@ == old(out)@ + u16_le_bytes(x),
{
    proof {
        assert(x & 0xff < 256) by (bit_vector);
        assert((x >> 8) & 0xff < 256) by (bit_vector);
    }
    out.push((x & 0xff) as u8);
    out.push(((x >> 8) & 0xff) as u8);
    proof {
        assert(out@ =~= old(out)@ + u16_le_bytes(x));
    }
}

fn read_u64_le(img: &Vec<u8>, off: usize) -> (x: u64)
    requires
        off + 8 <= img@.len(),
        img@.len() <= usize::MAX,
    ensures
        x == u64_from_le(img@.subrange(off as int, off as int + 8)),
{
    let x = (img[off] as u64) | ((img[off + 1] as u64) << 8) | ((img[off + 2] as u64) << 16) | ((
    img[off + 3] as u64) << 24) | ((img[off + 4] as u64) << 32) | ((img[off + 5] as u64) << 40) | ((
    img[off + 6] as u64) << 48) | ((img[off + 7] as u64) << 56);
    proof {
        let b = img@.subrange(off as int, off as int + 8);
        assert(b[0] == img@[off as int] && b[1] == img@[off as int + 1] && b[2] == img@[off as int
            + 2] && b[3] == img@[off as int + 3] && b[4] == img@[off as int + 4] && b[5]
            == img@[off as int + 5] && b[6] == img@[off as int + 6] && b[7] == img@[off as int
            + 7]);
    }
    x
}

/// The two retained records as one value: exactly what the retention region
/// holds for the device's lifetime.
pub struct RetainedState {
    pub history: History,
    pub calibration: CalibrationData,
}

impl RetainedState {
    pub open spec fn wf(&self) -> bool {
        self.history.wf()
    }

    /// The zeroed state a cold boot leaves behind: an empty history of
    /// `capacity` slots and a fresh calibration record.
    pub fn new(capacity: usize) -> (s: RetainedState)
        requires
            capacity >= 1,
        ensures
            s.wf(),
            s.history.capacity() == capacity,
            s.history@ == Seq::<u16>::empty(),
            s.calibration.time_ms() == 0,
    {
        RetainedState { history: History::new(capacity), calibration: CalibrationData::new() }
    }

    /// Captures the retained state as its byte image.
    pub fn to_image(&self) -> (img: Vec<u8>)
        requires
            self.wf(),
        ensures
            img@ == image_of(
                self.history.capacity() as u64,
                self.history@,
                self.calibration.time_ms(),
            ),
    {
        let mut img: Vec<u8> = Vec::new();
        push_u64_le(&mut img, self.history.capacity_slots() as u64);
        push_u64_le(&mut img, self.history.len() as u64);
        push_u64_le(&mut img, self.calibration.accumulated_time_ms());
        let ghost header = img@;
        let n = self.history.len();
        let mut k: usize = 0;
        while k < n
            invariant
                self.wf(),
                n == self.history@.len(),
                k <= n,
                img@ == header + readings_bytes(self.history@.subrange(0, k as int)),
            decreases n - k,
        {
            let v = self.history.at(k);
            push_u16_le(&mut img, v);
            proof {
                assert(readings_bytes(self.history@.subrange(0, k as int + 1)) =~= readings_bytes(
                    self.history@.subrange(0, k as int),
                ) + u16_le_bytes(self.history@[k as int]));
                assert(img@ =~= header + readings_bytes(self.history@.subrange(0, k as int + 1)));
            }
            k = k + 1;
        }
        proof {
            assert(self.history@.subrange(0, n as int) =~= self.history@);
            assert(img@ =~= image_of(
                self.history.capacity() as u64,
                self.history@,
                self.calibration.time_ms(),
            ));
        }
        img
    }

    /// Reloads a retained state from a byte image, checking the image's
    /// shape; an image that decodes re-encodes to the very same bytes, and
    /// every image `to_image` produces decodes.
    pub fn from_image(img: &Vec<u8>) -> (r: Option<RetainedState>)
        ensures
            match r {
                Some(s) => s.wf() && s.history.capacity() <= usize::MAX && img@ == image_of(
                    s.history.capacity() as u64,
                    s.history@,
                    s.calibration.time_ms(),
                ),
                None => true,
            },
            forall|cap: u64, readings: Seq<u16>, time_ms: u64|
                1 <= cap && readings.len() <= cap && cap <= usize::MAX && #[trigger] image_of(
                    cap,
                    readings,
                    time_ms,
                ) == img@ ==> r is Some,
    {
        let n = img.len();
        if n < IMAGE_HEADER_LEN {
            proof {
                assert forall|c: u64, rs: Seq<u16>, t: u64|
                    1 <= c && rs.len() <= c && c <= usize::MAX && #[trigger] image_of(c, rs, t)
                        == img@ implies false by {
                    lemma_image_header(c, rs, t);
                }
            }
            return None;
        }
        let cap = read_u64_le(img, 0);
        let count = read_u64_le(img, 8);
        let time_ms = read_u64_le(img, 16);
        let limit = ((usize::MAX as u64) - (IMAGE_HEADER_LEN as u64)) / 2;
        if cap < 1 || cap > usize::MAX as u64 || count > cap || count > limit {
            proof {
                assert forall|c: u64, rs: Seq<u16>, t: u64|
                    1 <= c && rs.len() <= c && c <= usize::MAX && #[trigger] image_of(c, rs, t)
                        == img@ implies false by {
                    lemma_image_header(c, rs, t);
                    assert(cap == c);
                    assert(count == rs.len() as u64);
                    assert(2 * rs.len() + IMAGE_HEADER_LEN == img@.len() <= usize::MAX);
                }
            }
            return None;
        }
        let count_us = count as usize;
        proof {
            assert(2 * (count as int) + IMAGE_HEADER_LEN <= usize::MAX as int);
        }
        if n != IMAGE_HEADER_LEN + 2 * count_us {
            proof {
                assert forall|c: u64, rs: Seq<u16>, t: u64|
                    1 <= c && rs.len() <= c && c <= usize::MAX && #[trigger] image_of(c, rs, t)
                        == img@ implies false by {
                    lemma_image_header(c, rs, t);
                    assert(count == rs.len() as u64);
                }
            }
            return None;
        }
        let mut history = History::new(cap as usize);
        let mut k: usize = 0;
        while k < count_us
            invariant
                history.wf(),
                1 <= cap <= usize::MAX,
                history.capacity() == cap as usize,
                history@.len() == k,
                k <= count_us,
                count_us <= cap as usize,
                img@.len() == IMAGE_HEADER_LEN + 2 * count_us,
                IMAGE_HEADER_LEN + 2 * count_us <= usize::MAX,
                forall|i: int|
                    0 <= i < k ==> history@[i] == u16_from_le(
                        img@.subrange(IMAGE_HEADER_LEN + 2 * i, IMAGE_HEADER_LEN + 2 * i + 2),
                    ),
            decreases count_us - k,
        {
            let lo = img[IMAGE_HEADER_LEN + 2 * k];
            let hi = img[IMAGE_HEADER_LEN + 2 * k + 1];
            let v: u16 = (lo as u16) | ((hi as u16) << 8);
            history.add_measurement(v);
            proof {
                let b = img@.subrange(
                    IMAGE_HEADER_LEN + 2 * (k as int),
                    IMAGE_HEADER_LEN + 2 * (k as int) + 2,
                );
                assert(b[0] == lo && b[1] == hi);
                assert(v == u16_from_le(b));
            }
            k = k + 1;
        }
        let mut calibration = CalibrationData::new();
        calibration.update_time_ms(time_ms);
        let s = RetainedState { history, calibration };
        proof {
            lemma_from_image_exact(img@, cap, count, time_ms, s.history@);
            assert((cap as usize) as u64 == cap);
        }
        Some(s)
    }
}

/// The length and header fields every image determines.
proof fn lemma_image_header(c: u64, rs: Seq<u16>, t: u64)
    requires
        rs.len() <= u64::MAX,
    ensures
        image_of(c, rs, t).len() == IMAGE_HEADER_LEN + 2 * rs.len(),
        u64_from_le(image_of(c, rs, t).subrange(0, 8)) == c,
        u64_from_le(image_of(c, rs, t).subrange(8, 16)) == rs.len() as u64,
        u64_from_le(image_of(c, rs, t).subrange(16, 24)) == t,
{
    assert(image_of(c, rs, t).subrange(0, 8) =~= u64_le_bytes(c));
    assert(image_of(c, rs, t).subrange(8, 16) =~= u64_le_bytes(rs.len() as u64));
    assert(image_of(c, rs, t).subrange(16, 24) =~= u64_le_bytes(t));
    lemma_u64_round_trip(c);
    lemma_u64_round_trip(rs.len() as u64);
    lemma_u64_round_trip(t);
}

/// A decoded image re-encodes to the very same bytes: the header fields and
/// the reading bytes pin each other down.
proof fn lemma_from_image_exact(img: Seq<u8>, cap: u64, count: u64, time_ms: u64, readings: Seq<u16>)
    requires
        img.len() == IMAGE_HEADER_LEN + 2 * readings.len(),
        readings.len() == count,
        cap == u64_from_le(img.subrange(0, 8)),
        count == u64_from_le(img.subrange(8, 16)),
        time_ms == u64_from_le(img.subrange(16, 24)),
        forall|i: int|
            0 <= i < readings.len() ==> readings[i] == u16_from_le(
                img.subrange(IMAGE_HEADER_LEN + 2 * i, IMAGE_HEADER_LEN + 2 * i + 2),
            ),
    ensures
        img == image_of(cap, readings, time_ms),
{
    lemma_u64_bytes_recover(img.subrange(0, 8));
    lemma_u64_bytes_recover(img.subrange(8, 16));
    lemma_u64_bytes_recover(img.subrange(16, 24));
    assert forall|j: int| 0 <= j < 2 * readings.len() implies readings_bytes(readings)[j]
        == img[IMAGE_HEADER_LEN + j] by {
        let i = j / 2;
        let lo = img[IMAGE_HEADER_LEN + 2 * i];
        let hi = img[IMAGE_HEADER_LEN + 2 * i + 1];
        let b = img.subrange(IMAGE_HEADER_LEN + 2 * i, IMAGE_HEADER_LEN + 2 * i + 2);
        assert(b[0] == lo && b[1] == hi);
        assert(readings[i] == (lo as u16) | ((hi as u16) << 8));
        lemma_u16_parts(lo, hi);
    }
    assert(img =~= image_of(cap, readings, time_ms));
}

/// The retained-state image pins the state down: two states with the same
/// image hold the same capacity, the same readings in the same order, and
/// the same accumulated operating time. Together with the contracts of
/// `to_image` and `from_image`, reloading a captured image restores exactly
/// the state that was saved.
pub proof fn lemma_image_injective(
    cap1: u64,
    readings1: Seq<u16>,
    time1: u64,
    cap2: u64,
    readings2: Seq<u16>,
    time2: u64,
)
    requires
        readings1.len() <= u64::MAX,
        readings2.len() <= u64::MAX,
        image_of(cap1, readings1, time1) == image_of(cap2, readings2, time2),
    ensures
        cap1 == cap2,
        readings1 == readings2,
        time1 == time2,
{
    let img1 = image_of(cap1, readings1, time1);
    let img2 = image_of(cap2, readings2, time2);
    assert(img1.subrange(0, 8) =~= u64_le_bytes(cap1));
    assert(img2.subrange(0, 8) =~= u64_le_bytes(cap2));
    lemma_u64_round_trip(cap1);
    lemma_u64_round_trip(cap2);
    assert(img1.subrange(8, 16) =~= u64_le_bytes(readings1.len() as u64));
    assert(img2.subrange(8, 16) =~= u64_le_bytes(readings2.len() as u64));
    lemma_u64_round_trip(readings1.len() as u64);
    lemma_u64_round_trip(readings2.len() as u64);
    assert(readings1.len() == readings2.len());
    assert(img1.subrange(16, 24) =~= u64_le_bytes(time1));
    assert(img2.subrange(16, 24) =~= u64_le_bytes(time2));
    lemma_u64_round_trip(time1);
    lemma_u64_round_trip(time2);
    assert forall|i: int| 0 <= i < readings1.len() implies readings1[i] == readings2[i] by {
        assert(img1[IMAGE_HEADER_LEN + 2 * i] == readings_bytes(readings1)[2 * i]);
        assert(img1[IMAGE_HEADER_LEN + 2 * i + 1] == readings_bytes(readings1)[2 * i + 1]);
        assert(img2[IMAGE_HEADER_LEN + 2 * i] == readings_bytes(readings2)[2 * i]);
        assert(img2[IMAGE_HEADER_LEN + 2 * i + 1] == readings_bytes(readings2)[2 * i + 1]);
        assert(u16_le_bytes(readings1[i]) =~= u16_le_bytes(readings2[i]));
        lemma_u16_round_trip(readings1[i]);
        lemma_u16_round_trip(readings2[i]);
    }
    assert(readings1 =~= readings2);
}

} // verus!
