//! The capability surface that every opened format decoder exposes: a
//! pull-based, finite sequence of decoded samples together with four
//! stream-metadata queries.

use vstd::prelude::*;
use crate::duration::AudioDuration;

verus! {

/// A pull-based source of decoded audio samples with stream metadata.
///
/// The ghost functions model what an implementation will report:
/// `samples()` is the sequence of samples it has yet to yield, and each
/// `spec_*` function is the value the matching query returns. Channel count
/// and sample rate are constant for the life of a stream; the current frame
/// length and the size estimate may change as samples are consumed.
pub trait Source {
    /// Model: the samples this source has yet to yield, in playback order,
    /// interleaved across channels.
    spec fn samples(&self) -> Seq<i16>;

    /// Model: the estimate `size_hint` reports of the remaining samples.
    spec fn spec_size_hint(&self) -> (usize, Option<usize>);

    /// Model: the number of samples remaining in the current frame, or
    /// `None` when the format has no natural framing or does not know.
    spec fn spec_current_frame_len(&self) -> Option<usize>;

    /// Model: the number of interleaved channels.
    spec fn spec_channels(&self) -> u16;

    /// Model: the playback rate in samples per second.
    spec fn spec_samples_rate(&self) -> u32;

    /// Model: the total duration of the stream, or `None` when it cannot be
    /// computed without a full scan.
    spec fn spec_total_duration(&self) -> Option<AudioDuration>;

    /// Yields the next sample, or `None` exactly when the stream is
    /// exhausted. Consuming samples never changes the channel count or the
    /// sample rate.
    fn next(&mut self) -> (r: Option<i16>)
        ensures
            old(self).samples().len() == 0 ==> r is None
                && final(self).samples() == old(self).samples(),
            old(self).samples().len() > 0 ==> r == Some(old(self).samples()[0])
                && final(self).samples() == old(self).samples().drop_first(),
            final(self).spec_channels() == old(self).spec_channels(),
            final(self).spec_samples_rate() == old(self).spec_samples_rate(),
    ;

    /// A lower bound and an optional upper bound on the remaining samples.
    /// This is an estimate, not a guarantee.
    fn size_hint(&self) -> (r: (usize, Option<usize>))
        ensures
            r == self.spec_size_hint(),
    ;

    /// Samples remaining in the current internally-framed chunk, when known.
    fn current_frame_len(&self) -> (r: Option<usize>)
        ensures
            r == self.spec_current_frame_len(),
    ;

    /// Number of interleaved channels.
    fn channels(&self) -> (r: u16)
        ensures
            r == self.spec_channels(),
    ;

    /// Playback rate in samples per second.
    fn samples_rate(&self) -> (r: u32)
        ensures
            r == self.spec_samples_rate(),
    ;

    /// Total duration of the stream, when it can be computed up front. A
    /// reported duration is well formed.
    fn total_duration(&self) -> (r: Option<AudioDuration>)
        ensures
            r == self.spec_total_duration(),
            r matches Some(d) ==> d.wf(),
    ;
}

/// One compiled-in audio format: a decoder type for that format, together
/// with the probe by which the format dispatcher tries to open a byte source
/// as this format.
///
/// Whether a given byte source is recognized is a pure function of the
/// source, modelled by `accepts`; probing the same source therefore always
/// has the same outcome.
pub trait FormatDecoder<R>: Source + Sized {
    /// Model: whether this format recognizes the byte source `data`.
    spec fn accepts(data: R) -> bool;

    /// Attempts to open `data` as this format. On success the returned
    /// decoder owns the source and reports a positive channel count and a
    /// positive sample rate; on rejection the source comes back unconsumed
    /// in effect, so that the next probe can read the same bytes.
    fn probe(data: R) -> (r: Result<Self, R>)
        ensures
            r is Ok <==> Self::accepts(data),
            r is Ok ==> r->Ok_0.spec_channels() > 0 && r->Ok_0.spec_samples_rate() > 0,
            r is Err ==> r->Err_0 == data,
    ;
}

} // verus!
