//! Decoding of raw audio payloads into integer PCM samples.
//!
//! The wire format is little-endian signed 16-bit PCM, mono, 16 kHz. The
//! decoder yields one `i16` per byte pair; consumers that need normalized
//! floats divide each sample by 32767 (not 32768 — the asymmetry avoids
//! overflow on the most negative sample) outside the library.

use vstd::prelude::*;

verus! {

/// Sample rate of the expected audio, in Hz.
pub const SAMPLE_RATE_HZ: usize = 16_000;

/// Length of the warm-up chunk, in seconds.
pub const CHUNK_SECONDS: usize = 10;

/// Number of samples in one warm-up chunk (ten seconds at 16 kHz).
pub const SAMPLES_PER_CHUNK: usize = SAMPLE_RATE_HZ * CHUNK_SECONDS;

/// Number of bytes that encode one sample.
pub const BYTES_PER_SAMPLE: usize = 2;

/// Why a raw PCM payload could not be decoded.
#[derive(Clone, Copy, Debug, PartialEq, Eq, Structural)]
pub enum DecodeError {
    /// The payload had zero bytes.
    EmptyInput,
    /// The payload length was not a multiple of the sample size.
    MisalignedLength,
}

/// The text reported for a decoding failure.
pub open spec fn decode_error_text(e: DecodeError) -> Seq<char> {
    match e {
        DecodeError::EmptyInput => "Empty audio payload"@,
        DecodeError::MisalignedLength => "PCM byte length must be even"@,
    }
}

impl DecodeError {
    /// Human-readable description of the failure.
    pub fn message(&self) -> (m: String)
        ensures
            m@ == decode_error_text(*self),
    {
        match self {
            DecodeError::EmptyInput => "Empty audio payload".to_string(),
            DecodeError::MisalignedLength => "PCM byte length must be even".to_string(),
        }
    }
}

/// The signed 16-bit value encoded little-endian by the byte pair `(lo, hi)`.
pub open spec fn sample_of_bytes(lo: u8, hi: u8) -> int {
    if hi >= 128 {
        lo + 256 * hi - 65536
    } else {
        lo + 256 * hi
    }
}

/// The samples encoded by an even-length byte sequence, in order.
pub open spec fn decoded_samples(bytes: Seq<u8>) -> Seq<int> {
    Seq::new(bytes.len() / 2, |i: int| sample_of_bytes(bytes[2 * i], bytes[2 * i + 1]))
}

/// Decodes a raw little-endian signed 16-bit PCM payload into one integer
/// sample per byte pair.
///
/// Rejects an empty payload and one whose length is not a multiple of two;
/// any other payload decodes to exactly half as many samples as bytes, each
/// the signed value of its little-endian byte pair.
pub fn load_pcm_i16le_bytes(bytes: &Vec<u8>) -> (r: Result<Vec<i16>, DecodeError>)
    ensures
        bytes@.len() == 0 ==> r == Result::<Vec<i16>, DecodeError>::Err(DecodeError::EmptyInput),
        bytes@.len() % 2 != 0 ==> r == Result::<Vec<i16>, DecodeError>::Err(
            DecodeError::MisalignedLength,
        ),
        bytes@.len() > 0 && bytes@.len() % 2 == 0 ==> {
            &&& r is Ok
            &&& r->Ok_0@.len() == bytes@.len() / 2
            &&& forall|i: int|
                0 <= i < r->Ok_0@.len() ==> r->Ok_0@[i] as int == decoded_samples(bytes@)[i]
        },
{
    if bytes.len() == 0 {
        return Err(DecodeError::EmptyInput);
    }
    if bytes.len() % BYTES_PER_SAMPLE != 0 {
        return Err(DecodeError::MisalignedLength);
    }
    let n: usize = bytes.len();
    let total: usize = n / BYTES_PER_SAMPLE;
    let mut samples: Vec<i16> = Vec::with_capacity(total);
    let mut k: usize = 0;
    while k < total
        invariant
            k <= total,
            total == bytes@.len() / 2,
            2 * total <= usize::MAX,
            bytes@.len() % 2 == 0,
            samples@.len() == k,
            forall|i: int| 0 <= i < k ==> samples@[i] as int == decoded_samples(bytes@)[i],
        decreases total - k,
    {
        let lo = bytes[2 * k];
        let hi = bytes[2 * k + 1];
        let unsigned: u32 = lo as u32 + 256 * (hi as u32);
        let signed: i32 = if unsigned >= 32768 {
            (unsigned as i32) - 65536
        } else {
            unsigned as i32
        };
        let s: i16 = signed as i16;
        proof {
            assert(s as int == decoded_samples(bytes@)[k as int]);
        }
        samples.push(s);
        k = k + 1;
    }
    Ok(samples)
}

/// A canonical silence buffer of exactly one chunk's worth of zero-valued
/// samples, used only for the worker's warm-up pass.
pub fn silent_chunk() -> (r: Vec<i16>)
    ensures
        r@.len() == SAMPLES_PER_CHUNK,
        forall|i: int| 0 <= i < r@.len() ==> r@[i] == 0i16,
{
    let v: Vec<i16> = vec![0i16; SAMPLES_PER_CHUNK];
    v
}

} // verus!
