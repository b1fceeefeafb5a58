use tospeak::wav::check_wav_format;
use std::io::Cursor;
use tospeak::engine::{smoke_test_passed, EngineFailure};
use tospeak::wav::{pcm_to_wav, validate_wav, WavError};

#[test]
fn wraps_pcm_in_wav() {
    let wav = pcm_to_wav(&[0, 0, 0xff, 0x7f]).expect("valid PCM should wrap");
    let mut reader = hound::WavReader::new(Cursor::new(wav)).expect("WAV should parse");
    assert_eq!(reader.spec().sample_rate, 22_050);
    assert_eq!(reader.spec().channels, 1);
    assert_eq!(reader.spec().bits_per_sample, 16);
    assert_eq!(reader.samples::<i16>().count(), 2);
}

#[test]
fn frames_pcm_with_a_44_byte_header() {
    let pcm = [0x01, 0x80, 0xff, 0x7f, 0x00, 0x00];
    let wav = pcm_to_wav(&pcm).expect("valid PCM");
    assert_eq!(wav.len(), pcm.len() + 44);
    assert_eq!(&wav[0..4], b"RIFF");
    assert_eq!(&wav[4..8], &(pcm.len() as u32 + 36).to_le_bytes());
    assert_eq!(&wav[8..16], b"WAVEfmt ");
    assert_eq!(&wav[22..24], &1u16.to_le_bytes());
    assert_eq!(&wav[24..28], &22_050u32.to_le_bytes());
    assert_eq!(&wav[28..32], &44_100u32.to_le_bytes());
    assert_eq!(&wav[34..36], &16u16.to_le_bytes());
    assert_eq!(&wav[36..40], b"data");
    assert_eq!(&wav[40..44], &(pcm.len() as u32).to_le_bytes());
    assert_eq!(&wav[44..], &pcm);
    let samples: Vec<i16> = hound::WavReader::new(Cursor::new(wav))
        .expect("readable")
        .samples::<i16>()
        .map(|s| s.expect("sample"))
        .collect();
    assert_eq!(samples, vec![-32767, 32767, 0]);
}

#[test]
fn refuses_empty_or_odd_pcm() {
    assert_eq!(pcm_to_wav(&[]).err(), Some(WavError::InvalidPcmLength));
    assert_eq!(pcm_to_wav(&[1, 2, 3]).err(), Some(WavError::InvalidPcmLength));
    assert_eq!(WavError::InvalidPcmLength.message(), "engine returned invalid 16-bit PCM length");
}

#[test]
fn validates_its_own_wav_and_refuses_others() {
    let wav = pcm_to_wav(&[1, 2, 3, 4]).expect("valid PCM");
    assert_eq!(validate_wav(&wav), Ok(()));
    assert_eq!(validate_wav(b"not a wave file"), Err(WavError::Unreadable));

    let mut stereo = Cursor::new(Vec::new());
    let spec = hound::WavSpec {
        channels: 2,
        sample_rate: 22_050,
        bits_per_sample: 16,
        sample_format: hound::SampleFormat::Int,
    };
    let mut writer = hound::WavWriter::new(&mut stereo, spec).expect("writer");
    writer.write_sample(1i16).expect("sample");
    writer.write_sample(2i16).expect("sample");
    writer.finalize().expect("finalize");
    assert_eq!(validate_wav(&stereo.into_inner()), Err(WavError::UnexpectedFormat));
}

#[test]
fn smoke_test_needs_valid_audio() {
    let wav = pcm_to_wav(&[0, 0]).expect("valid PCM");
    assert!(smoke_test_passed(&Ok(wav)));
    assert!(!smoke_test_passed(&Ok(vec![0; 10])));
    assert!(!smoke_test_passed(&Err(EngineFailure::Timeout)));
    assert!(!smoke_test_passed(&Err(EngineFailure::Failed("boom".to_owned()))));
}

#[test]
fn judges_header_fields() {
    assert_eq!(check_wav_format(Some((1, 22_050, 16))), Ok(()));
    assert_eq!(check_wav_format(None), Err(WavError::Unreadable));
    assert_eq!(check_wav_format(Some((2, 22_050, 16))), Err(WavError::UnexpectedFormat));
    assert_eq!(check_wav_format(Some((1, 44_100, 16))), Err(WavError::UnexpectedFormat));
    assert_eq!(check_wav_format(Some((1, 22_050, 8))), Err(WavError::UnexpectedFormat));
}
