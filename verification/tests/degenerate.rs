//! Tests of the degenerate build configuration with zero compiled-in
//! formats, and of the plain-value duration type.

use audio_decoder::duration::AudioDuration;
use audio_decoder::no_formats;

#[test]
fn no_formats_never_recognizes_anything() {
    let r = no_formats::Decoder::<Vec<u8>>::new(vec![b'W', b'A', b'V']);
    match r {
        Err(e) => assert_eq!(e.description(), "Unrecognized format"),
        Ok(_) => panic!("a build with no formats recognized a source"),
    }
}

#[test]
fn no_formats_rejects_an_empty_source_too() {
    let r = no_formats::Decoder::<Vec<u8>>::new(Vec::new());
    assert!(r.is_err());
}

#[test]
fn duration_zero_is_empty() {
    let z = AudioDuration::zero();
    assert_eq!(z.secs, 0);
    assert_eq!(z.nanos, 0);
}

#[test]
fn duration_keeps_its_parts() {
    let d = AudioDuration::new(3, 250_000_000);
    assert_eq!(d.secs, 3);
    assert_eq!(d.nanos, 250_000_000);
    assert_eq!(d, AudioDuration::new(3, 250_000_000));
    assert_ne!(d, AudioDuration::zero());
}
