//! Audio: which sample formats the capture accepts, and how long a sent audio sample lasts.

use vstd::prelude::*;

verus! {

/// The sample format of an audio device's stream.
#[derive(Debug, Clone, Copy, PartialEq, Eq, Structural)]
pub enum SampleFormat {
    I8,
    I16,
    I32,
    I64,
    U8,
    U16,
    U32,
    U64,
    F32,
    F64,
}

/// The sample type that a capture stream is built for.
#[derive(Debug, Clone, Copy, PartialEq, Eq, Structural)]
pub enum CaptureSample {
    I8,
    I16,
    I32,
    F32,
}

/// The capture stream for a device's sample format: signed 8, 16 and 32 bit integers
/// and 32 bit floats are captured; any other format is refused.
pub fn capture_sample(format: SampleFormat) -> (r: Result<CaptureSample, SampleFormat>)
    ensures
        format == SampleFormat::I8 ==> r == Ok::<CaptureSample, SampleFormat>(CaptureSample::I8),
        format == SampleFormat::I16 ==> r == Ok::<CaptureSample, SampleFormat>(CaptureSample::I16),
        format == SampleFormat::I32 ==> r == Ok::<CaptureSample, SampleFormat>(CaptureSample::I32),
        format == SampleFormat::F32 ==> r == Ok::<CaptureSample, SampleFormat>(CaptureSample::F32),
        !(format == SampleFormat::I8 || format == SampleFormat::I16 || format == SampleFormat::I32
            || format == SampleFormat::F32) ==> r == Err::<CaptureSample, SampleFormat>(format),
{
    match format {
        SampleFormat::I8 => Ok(CaptureSample::I8),
        SampleFormat::I16 => Ok(CaptureSample::I16),
        SampleFormat::I32 => Ok(CaptureSample::I32),
        SampleFormat::F32 => Ok(CaptureSample::F32),
        other => Err(other),
    }
}

/// The duration given to each audio sample written to the track, in milliseconds:
/// `channels * 10_000_000 / sample_rate`.
pub fn sample_duration_millis(channels: u16, sample_rate: u32) -> (ms: u64)
    requires
        sample_rate > 0,
    ensures
        ms as int == (channels as int * 10_000_000) / (sample_rate as int),
{
    (channels as u64 * 10_000_000u64) / (sample_rate as u64)
}

} // verus!
