//! Format-sniffing audio decoder facade.
//!
//! Given an opaque, seekable byte source, [`decoder::Decoder`] probes a fixed
//! priority list of compiled-in audio formats, wraps the first decoder that
//! recognizes the data, and forwards the sample-iteration and stream-metadata
//! queries of [`source::Source`] to it. When no format recognizes the data,
//! construction fails with [`decoder::DecoderError::UnrecognizedFormat`].

pub mod decoder;
pub mod duration;
pub mod no_formats;
pub mod source;

pub use decoder::Decoder;
pub use decoder::DecoderError;
pub use duration::AudioDuration;
pub use source::Source;
