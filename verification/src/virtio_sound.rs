//! Device-level sample rate codes and the frequencies they stand for.

use vstd::prelude::*;
use crate::error::Error;

verus! {

pub const VIRTIO_SND_PCM_RATE_5512: u8 = 0;
pub const VIRTIO_SND_PCM_RATE_8000: u8 = 1;
pub const VIRTIO_SND_PCM_RATE_11025: u8 = 2;
pub const VIRTIO_SND_PCM_RATE_16000: u8 = 3;
pub const VIRTIO_SND_PCM_RATE_22050: u8 = 4;
pub const VIRTIO_SND_PCM_RATE_32000: u8 = 5;
pub const VIRTIO_SND_PCM_RATE_44100: u8 = 6;
pub const VIRTIO_SND_PCM_RATE_48000: u8 = 7;
pub const VIRTIO_SND_PCM_RATE_64000: u8 = 8;
pub const VIRTIO_SND_PCM_RATE_88200: u8 = 9;
pub const VIRTIO_SND_PCM_RATE_96000: u8 = 10;
pub const VIRTIO_SND_PCM_RATE_176400: u8 = 11;
pub const VIRTIO_SND_PCM_RATE_192000: u8 = 12;
pub const VIRTIO_SND_PCM_RATE_384000: u8 = 13;

/// Number of rate codes. The codes are `0` up to, and without, this number.
pub const VIRTIO_SND_PCM_RATE_COUNT: u8 = 14;

/// The frequencies in hertz, in the order of their codes.
pub open spec fn rate_table() -> Seq<i32> {
    seq![
        5512i32, 8000i32, 11025i32, 16000i32, 22050i32, 32000i32, 44100i32,
        48000i32, 64000i32, 88200i32, 96000i32, 176400i32, 192000i32, 384000i32,
    ]
}

/// Whether `code` is one of the fourteen rate codes.
pub open spec fn is_rate_code(code: u8) -> bool {
    code < VIRTIO_SND_PCM_RATE_COUNT
}

/// The frequency in hertz that `code` stands for. Meaningful for rate codes
/// only.
pub open spec fn rate_hz(code: u8) -> i32
    recommends
        is_rate_code(code),
{
    rate_table()[code as int]
}

/// What a lookup of `code` yields: the frequency of a rate code, and for
/// every other value the error that names it.
pub open spec fn rate_lookup(code: u8) -> Result<i32, Error> {
    if is_rate_code(code) {
        Ok(rate_hz(code))
    } else {
        Err(Error::UnsupportedRate(code))
    }
}

/// Tells whether `code` is one of the fourteen rate codes.
pub fn is_supported_rate(code: u8) -> (supported: bool)
    ensures
        supported == is_rate_code(code),
{
    code < VIRTIO_SND_PCM_RATE_COUNT
}

/// Looks up the frequency of a rate code. A value that is no rate code gives
/// no frequency but `Error::UnsupportedRate` with that value.
pub fn rate_to_hz(code: u8) -> (hz: Result<i32, Error>)
    ensures
        hz == rate_lookup(code),
{
    match code {
        VIRTIO_SND_PCM_RATE_5512 => Ok(5512),
        VIRTIO_SND_PCM_RATE_8000 => Ok(8000),
        VIRTIO_SND_PCM_RATE_11025 => Ok(11025),
        VIRTIO_SND_PCM_RATE_16000 => Ok(16000),
        VIRTIO_SND_PCM_RATE_22050 => Ok(22050),
        VIRTIO_SND_PCM_RATE_32000 => Ok(32000),
        VIRTIO_SND_PCM_RATE_44100 => Ok(44100),
        VIRTIO_SND_PCM_RATE_48000 => Ok(48000),
        VIRTIO_SND_PCM_RATE_64000 => Ok(64000),
        VIRTIO_SND_PCM_RATE_88200 => Ok(88200),
        VIRTIO_SND_PCM_RATE_96000 => Ok(96000),
        VIRTIO_SND_PCM_RATE_176400 => Ok(176400),
        VIRTIO_SND_PCM_RATE_192000 => Ok(192000),
        VIRTIO_SND_PCM_RATE_384000 => Ok(384000),
        _ => Err(Error::UnsupportedRate(code)),
    }
}

/// Every rate code has its documented frequency, each named code by its
/// constant, and the frequencies grow with the codes, so that no two codes
/// share one.
pub proof fn lemma_rate_table()
    ensures
        rate_table().len() == VIRTIO_SND_PCM_RATE_COUNT,
        rate_hz(VIRTIO_SND_PCM_RATE_5512) == 5512,
        rate_hz(VIRTIO_SND_PCM_RATE_8000) == 8000,
        rate_hz(VIRTIO_SND_PCM_RATE_11025) == 11025,
        rate_hz(VIRTIO_SND_PCM_RATE_16000) == 16000,
        rate_hz(VIRTIO_SND_PCM_RATE_22050) == 22050,
        rate_hz(VIRTIO_SND_PCM_RATE_32000) == 32000,
        rate_hz(VIRTIO_SND_PCM_RATE_44100) == 44100,
        rate_hz(VIRTIO_SND_PCM_RATE_48000) == 48000,
        rate_hz(VIRTIO_SND_PCM_RATE_64000) == 64000,
        rate_hz(VIRTIO_SND_PCM_RATE_88200) == 88200,
        rate_hz(VIRTIO_SND_PCM_RATE_96000) == 96000,
        rate_hz(VIRTIO_SND_PCM_RATE_176400) == 176400,
        rate_hz(VIRTIO_SND_PCM_RATE_192000) == 192000,
        rate_hz(VIRTIO_SND_PCM_RATE_384000) == 384000,
        forall|a: u8, b: u8| a < b && is_rate_code(b) ==> rate_hz(a) < rate_hz(b),
{
}

/// A lookup succeeds on the rate codes and on nothing else.
pub proof fn lemma_lookup_total_on_codes_only(code: u8)
    ensures
        rate_lookup(code) is Ok <==> is_rate_code(code),
        !is_rate_code(code) ==> rate_lookup(code) == Err::<i32, Error>(Error::UnsupportedRate(code)),
{
}

} // verus!
