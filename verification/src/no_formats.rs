//! The decoder for a build configuration with zero compiled-in formats.
//!
//! With no formats to probe, construction always signals that the format was
//! not recognized, so no value of this decoder is ever built; the query
//! surface nonetheless exists and reports fixed degenerate answers.

use core::marker::PhantomData;
use vstd::prelude::*;
use crate::decoder::DecoderError;
use crate::duration::AudioDuration;
use crate::source::Source;

verus! {

/// Source of audio samples from decoding a byte source, in a build with no
/// compiled-in formats.
pub struct Decoder<R>(PhantomData<R>);

impl<R> Decoder<R> {
    /// Builds a new decoder. With no compiled-in formats, every byte source
    /// is unrecognized, so this always fails.
    pub fn new(data: R) -> (r: Result<Decoder<R>, DecoderError>)
        ensures
            r is Err,
            r->Err_0 is UnrecognizedFormat,
    {
        let _ = data;
        Err(DecoderError::UnrecognizedFormat)
    }
}

impl<R> Source for Decoder<R> {
    closed spec fn samples(&self) -> Seq<i16> {
        Seq::empty()
    }

    closed spec fn spec_size_hint(&self) -> (usize, Option<usize>) {
        (0usize, None)
    }

    closed spec fn spec_current_frame_len(&self) -> Option<usize> {
        Some(0usize)
    }

    closed spec fn spec_channels(&self) -> u16 {
        0u16
    }

    closed spec fn spec_samples_rate(&self) -> u32 {
        1u32
    }

    closed spec fn spec_total_duration(&self) -> Option<AudioDuration> {
        Some(AudioDuration { secs: 0, nanos: 0 })
    }

    fn next(&mut self) -> (r: Option<i16>) {
        None
    }

    fn size_hint(&self) -> (r: (usize, Option<usize>)) {
        (0, None)
    }

    fn current_frame_len(&self) -> (r: Option<usize>) {
        Some(0)
    }

    fn channels(&self) -> (r: u16) {
        0
    }

    fn samples_rate(&self) -> (r: u32) {
        1
    }

    fn total_duration(&self) -> (r: Option<AudioDuration>) {
        Some(AudioDuration::zero())
    }
}

} // verus!
