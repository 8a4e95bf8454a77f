//! Decodes samples from an audio byte source.
//!
//! The format dispatcher: probes each compiled-in format in a fixed priority
//! order, wraps the first decoder that recognizes the data, and forwards the
//! sample and stream-metadata queries to it.

use vstd::prelude::*;
use crate::duration::AudioDuration;
use crate::source::{FormatDecoder, Source};

verus! {

/// The compiled-in formats. Which one a `Decoder` holds is what its
/// construction contract speaks about.
#[derive(Clone, Copy, Debug, PartialEq, Eq, Structural)]
pub enum FormatTag {
    Wav,
    Vorbis,
    Flac,
}

enum DecoderImpl<W, F, V> {
    Wav(W),
    Vorbis(V),
    Flac(F),
}

/// Source of audio samples from decoding a byte source.
///
/// Wraps exactly one successfully-opened format-specific decoder: `W` for
/// WAV, `F` for FLAC, `V` for Vorbis. The wrapped variant is selected
/// irrevocably by [`Decoder::new`] and never changes afterwards.
pub struct Decoder<W, F, V>(DecoderImpl<W, F, V>);

/// Error that can happen when creating a decoder.
#[derive(Clone, Copy, Debug, PartialEq, Eq, Structural)]
pub enum DecoderError {
    /// The format of the data has not been recognized.
    UnrecognizedFormat,
}

impl DecoderError {
    /// A short description of the error.
    pub fn description(&self) -> (r: &'static str)
        ensures
            r@ == "Unrecognized format"@,
    {
        "Unrecognized format"
    }
}

/// The format that construction selects for the byte source `data`: the
/// earliest format in the fixed priority order (WAV, then FLAC, then Vorbis)
/// that accepts `data`, or `None` when every probe rejects it.
pub open spec fn selected_format<R, W: FormatDecoder<R>, F: FormatDecoder<R>, V: FormatDecoder<R>>(
    data: R,
) -> Option<FormatTag> {
    if W::accepts(data) {
        Some(FormatTag::Wav)
    } else if F::accepts(data) {
        Some(FormatTag::Flac)
    } else if V::accepts(data) {
        Some(FormatTag::Vorbis)
    } else {
        None
    }
}

/// What construction from `data` promises of its result `r`: a decoder
/// wrapping the selected format when one format accepts the source, and
/// `UnrecognizedFormat` when none does.
pub open spec fn construction_obeys<
    R,
    W: FormatDecoder<R>,
    F: FormatDecoder<R>,
    V: FormatDecoder<R>,
>(data: R, r: Result<Decoder<W, F, V>, DecoderError>) -> bool {
    match selected_format::<R, W, F, V>(data) {
        Some(tag) => r is Ok && r->Ok_0.format() == tag,
        None => r is Err && r->Err_0 is UnrecognizedFormat,
    }
}

impl<W, F, V> Decoder<W, F, V> {
    /// The format of the decoder this value wraps.
    pub closed spec fn format(&self) -> FormatTag {
        match self.0 {
            DecoderImpl::Wav(_) => FormatTag::Wav,
            DecoderImpl::Vorbis(_) => FormatTag::Vorbis,
            DecoderImpl::Flac(_) => FormatTag::Flac,
        }
    }

    /// Builds a new decoder.
    ///
    /// Attempts to automatically detect the format of the source of data by
    /// probing WAV, then FLAC, then Vorbis; the first format that accepts
    /// the source wins, and no further probes run. A probe that rejects the
    /// source hands it back unconsumed in effect, so the next probe reads
    /// the same bytes. When every probe rejects, construction fails with
    /// [`DecoderError::UnrecognizedFormat`] and the source is consumed.
    pub fn new<R>(data: R) -> (r: Result<Decoder<W, F, V>, DecoderError>) where
        R: Send + 'static,
        W: FormatDecoder<R>,
        F: FormatDecoder<R>,
        V: FormatDecoder<R>,

        ensures
            construction_obeys::<R, W, F, V>(data, r),
            r is Ok ==> r->Ok_0.spec_channels() > 0 && r->Ok_0.spec_samples_rate() > 0,
    {
        let data = match W::probe(data) {
            Err(data) => data,
            Ok(decoder) => {
                return Ok(Decoder(DecoderImpl::Wav(decoder)));
            },
        };
        let data = match F::probe(data) {
            Err(data) => data,
            Ok(decoder) => {
                return Ok(Decoder(DecoderImpl::Flac(decoder)));
            },
        };
        let data = match V::probe(data) {
            Err(data) => data,
            Ok(decoder) => {
                return Ok(Decoder(DecoderImpl::Vorbis(decoder)));
            },
        };
        let _ = data;
        Err(DecoderError::UnrecognizedFormat)
    }
}

impl<W: Source, F: Source, V: Source> Source for Decoder<W, F, V> {
    closed spec fn samples(&self) -> Seq<i16> {
        match self.0 {
            DecoderImpl::Wav(s) => s.samples(),
            DecoderImpl::Vorbis(s) => s.samples(),
            DecoderImpl::Flac(s) => s.samples(),
        }
    }

    closed spec fn spec_size_hint(&self) -> (usize, Option<usize>) {
        match self.0 {
            DecoderImpl::Wav(s) => s.spec_size_hint(),
            DecoderImpl::Vorbis(s) => s.spec_size_hint(),
            DecoderImpl::Flac(s) => s.spec_size_hint(),
        }
    }

    closed spec fn spec_current_frame_len(&self) -> Option<usize> {
        match self.0 {
            DecoderImpl::Wav(s) => s.spec_current_frame_len(),
            DecoderImpl::Vorbis(s) => s.spec_current_frame_len(),
            DecoderImpl::Flac(s) => s.spec_current_frame_len(),
        }
    }

    closed spec fn spec_channels(&self) -> u16 {
        match self.0 {
            DecoderImpl::Wav(s) => s.spec_channels(),
            DecoderImpl::Vorbis(s) => s.spec_channels(),
            DecoderImpl::Flac(s) => s.spec_channels(),
        }
    }

    closed spec fn spec_samples_rate(&self) -> u32 {
        match self.0 {
            DecoderImpl::Wav(s) => s.spec_samples_rate(),
            DecoderImpl::Vorbis(s) => s.spec_samples_rate(),
            DecoderImpl::Flac(s) => s.spec_samples_rate(),
        }
    }

    closed spec fn spec_total_duration(&self) -> Option<AudioDuration> {
        match self.0 {
            DecoderImpl::Wav(s) => s.spec_total_duration(),
            DecoderImpl::Vorbis(s) => s.spec_total_duration(),
            DecoderImpl::Flac(s) => s.spec_total_duration(),
        }
    }

    fn next(&mut self) -> (r: Option<i16>) {
        match &mut self.0 {
            DecoderImpl::Wav(source) => source.next(),
            DecoderImpl::Vorbis(source) => source.next(),
            DecoderImpl::Flac(source) => source.next(),
        }
    }

    fn size_hint(&self) -> (r: (usize, Option<usize>)) {
        match &self.0 {
            DecoderImpl::Wav(source) => source.size_hint(),
            DecoderImpl::Vorbis(source) => source.size_hint(),
            DecoderImpl::Flac(source) => source.size_hint(),
        }
    }

    fn current_frame_len(&self) -> (r: Option<usize>) {
        match &self.0 {
            DecoderImpl::Wav(source) => source.current_frame_len(),
            DecoderImpl::Vorbis(source) => source.current_frame_len(),
            DecoderImpl::Flac(source) => source.current_frame_len(),
        }
    }

    fn channels(&self) -> (r: u16) {
        match &self.0 {
            DecoderImpl::Wav(source) => source.channels(),
            DecoderImpl::Vorbis(source) => source.channels(),
            DecoderImpl::Flac(source) => source.channels(),
        }
    }

    fn samples_rate(&self) -> (r: u32) {
        match &self.0 {
            DecoderImpl::Wav(source) => source.samples_rate(),
            DecoderImpl::Vorbis(source) => source.samples_rate(),
            DecoderImpl::Flac(source) => source.samples_rate(),
        }
    }

    fn total_duration(&self) -> (r: Option<AudioDuration>) {
        match &self.0 {
            DecoderImpl::Wav(source) => source.total_duration(),
            DecoderImpl::Vorbis(source) => source.total_duration(),
            DecoderImpl::Flac(source) => source.total_duration(),
        }
    }
}

/// Construction is deterministic: for one byte source and one compiled-in
/// format set, any two results that construction can return agree — both
/// succeed with the same selected format, or both fail with the same error.
/// [`Decoder::new`] ensures `construction_obeys`, so this holds of any two
/// of its results.
pub proof fn lemma_construction_deterministic<
    R,
    W: FormatDecoder<R>,
    F: FormatDecoder<R>,
    V: FormatDecoder<R>,
>(
    data: R,
    r1: Result<Decoder<W, F, V>, DecoderError>,
    r2: Result<Decoder<W, F, V>, DecoderError>,
)
    requires
        construction_obeys::<R, W, F, V>(data, r1),
        construction_obeys::<R, W, F, V>(data, r2),
    ensures
        r1 is Ok <==> r2 is Ok,
        r1 is Ok ==> r1->Ok_0.format() == r2->Ok_0.format(),
        r1 is Err ==> r1->Err_0 == r2->Err_0,
{
}

/// When a byte source would be accepted by two or more compiled-in formats,
/// construction selects the one its probe order tries first — WAV before
/// FLAC before Vorbis — and it fails exactly when no format accepts the
/// source. [`Decoder::new`] ensures `construction_obeys`, so this holds of
/// every result it returns.
pub proof fn lemma_probe_ordering<
    R,
    W: FormatDecoder<R>,
    F: FormatDecoder<R>,
    V: FormatDecoder<R>,
>(data: R, r: Result<Decoder<W, F, V>, DecoderError>)
    requires
        construction_obeys::<R, W, F, V>(data, r),
    ensures
        W::accepts(data) ==> r is Ok && r->Ok_0.format() == FormatTag::Wav,
        !W::accepts(data) && F::accepts(data) ==> r is Ok && r->Ok_0.format() == FormatTag::Flac,
        !W::accepts(data) && !F::accepts(data) && V::accepts(data) ==> r is Ok
            && r->Ok_0.format() == FormatTag::Vorbis,
        r is Err <==> !W::accepts(data) && !F::accepts(data) && !V::accepts(data),
{
}

} // verus!
