use sha2::Digest;
use tospeak::api::{
    authorized, default_format, health_report, is_public_path, request_admitted, select_voice,
    synthesis_error, validate, RequestId, VoiceQuery, MAX_TEXT_CHARS,
};
use tospeak::config::{EngineVoice, Gender, TextEncoding, Voice, VoicesConfig};
use tospeak::engine::EngineFailure;
use tospeak::error::{ApiError, ApiErrorKind};
use uuid::Uuid;

fn in_range(value: f64, minimum: f64, maximum: f64) -> bool {
    value.is_finite() && (minimum..=maximum).contains(&value)
}

fn voice(id: &str, language: &str, gender: Gender) -> Voice {
    Voice {
        id: id.to_owned(),
        display_name: id.to_uppercase(),
        language: language.to_owned(),
        gender,
        description: format!("{id} voice"),
        engine: EngineVoice {
            language: "jpn".to_owned(),
            country: "JPN".to_owned(),
            variant: String::new(),
            voice_id: "female01".to_owned(),
            encoding: TextEncoding::Cp932,
        },
    }
}

fn catalogue() -> VoicesConfig {
    VoicesConfig::from_voices(vec![
        voice("ja", "ja-JP", Gender::Female),
        voice("en", "en-US", Gender::Male),
        voice("zh", "zh-CN", Gender::Female),
        voice("ja", "ja-JP", Gender::Male),
    ])
    .expect("catalogue is valid")
}

#[test]
fn skips_authentication_when_token_is_empty() {
    assert!(authorized(None, ""));
}

#[test]
fn requires_matching_bearer_token_when_configured() {
    assert!(!authorized(None, "secret"));

    let header: &[u8] = b"Bearer secret";
    assert!(authorized(Some(header), "secret"));
    assert!(!authorized(Some(header), "different"));
}

#[test]
fn validates_character_count_and_ranges() {
    let id = Uuid::new_v4();
    let text = "あ".repeat(2000);
    let (volume, rate, pitch) = (1.0, 1.0, 1.0);
    assert!(validate(
        &text,
        "wav",
        in_range(volume, 0.0, 1.0),
        in_range(rate, 0.5, 6.0),
        in_range(pitch, 0.0, 2.0),
        id
    )
    .is_ok());
    let rate = 99.0;
    assert!(matches!(
        validate(
            &text,
            "wav",
            in_range(volume, 0.0, 1.0),
            in_range(rate, 0.5, 6.0),
            in_range(pitch, 0.0, 2.0),
            id
        ),
        Err(ApiError {
            kind: ApiErrorKind::InvalidParameter(ref param),
            ..
        }) if param == "speaking_rate"
    ));
}

fn invalid_param(result: Result<(), ApiError>) -> (String, String) {
    match result {
        Err(ApiError { kind: ApiErrorKind::InvalidParameter(param), detail: Some(detail), .. }) => (param, detail),
        _ => panic!("expected an invalid parameter"),
    }
}

#[test]
fn validation_checks_each_parameter_in_order() {
    let id = Uuid::nil();
    assert_eq!(
        invalid_param(validate("", "mp3", false, false, false, id)),
        ("text".to_owned(), "text must contain between 1 and 2000 characters".to_owned())
    );
    let too_long = "x".repeat(MAX_TEXT_CHARS + 1);
    assert_eq!(invalid_param(validate(&too_long, "wav", true, true, true, id)).0, "text");
    assert_eq!(
        invalid_param(validate("hi", "mp3", false, false, false, id)),
        ("audio_volume".to_owned(), "audio_volume must be between 0 and 1".to_owned())
    );
    assert_eq!(
        invalid_param(validate("hi", "mp3", true, false, false, id)),
        ("speaking_rate".to_owned(), "speaking_rate must be between 0.5 and 6".to_owned())
    );
    assert_eq!(
        invalid_param(validate("hi", "mp3", true, true, false, id)),
        ("audio_pitch".to_owned(), "audio_pitch must be between 0 and 2".to_owned())
    );
    assert_eq!(
        invalid_param(validate("hi", "mp3", true, true, true, id)),
        ("format".to_owned(), "format must be wav".to_owned())
    );
    assert!(validate("x", "wav", true, true, true, id).is_ok());
}

#[test]
fn rejects_a_token_after_another_scheme_or_with_control_bytes() {
    let basic: &[u8] = b"Basic secret";
    assert!(!authorized(Some(basic), "secret"));
    let lowercase: &[u8] = b"bearer secret";
    assert!(!authorized(Some(lowercase), "secret"));
    let short: &[u8] = b"Bearer";
    assert!(!authorized(Some(short), "secret"));
    let control: &[u8] = b"Bearer se\x01cret";
    assert!(!authorized(Some(control), "se\u{1}cret"));
    let tab: &[u8] = b"Bearer a\tb";
    assert!(authorized(Some(tab), "a\tb"));
    let longer: &[u8] = b"Bearer secrets";
    assert!(!authorized(Some(longer), "secret"));
}

#[test]
fn public_routes_need_no_token() {
    assert!(is_public_path("/"));
    assert!(is_public_path("/healthz"));
    assert!(!is_public_path("/api/voices"));
    assert!(request_admitted("/", None, "secret"));
    assert!(request_admitted("/healthz", None, "secret"));
    assert!(!request_admitted("/api/tts", None, "secret"));
    let header: &[u8] = b"Bearer secret";
    assert!(request_admitted("/api/tts", Some(header), "secret"));
    assert!(request_admitted("/api/voices", None, ""));
}

#[test]
fn lists_voices_by_language_ignoring_case_and_by_gender() {
    let voices = catalogue();
    let all = VoiceQuery { language: None, gender: None }.matching_voices(&voices);
    assert_eq!(all.len(), 4);
    let japanese = VoiceQuery { language: Some("JA-jp".to_owned()), gender: None }.matching_voices(&voices);
    assert_eq!(japanese.iter().map(|v| v.gender.clone()).collect::<Vec<_>>(), vec![Gender::Female, Gender::Male]);
    let female = VoiceQuery { language: None, gender: Some(Gender::Female) }.matching_voices(&voices);
    assert_eq!(female.iter().map(|v| v.id.clone()).collect::<Vec<_>>(), vec!["ja", "zh"]);
    let male_japanese =
        VoiceQuery { language: Some("ja-jp".to_owned()), gender: Some(Gender::Male) }.matching_voices(&voices);
    assert_eq!(male_japanese.len(), 1);
    assert_eq!(male_japanese[0].display_name, "JA");
    let none = VoiceQuery { language: Some("ko-KR".to_owned()), gender: None }.matching_voices(&voices);
    assert!(none.is_empty());
}

#[test]
fn selects_the_first_voice_with_the_id() {
    let voices = catalogue();
    let id = Uuid::new_v4();
    let chosen = select_voice(&voices, "テスト", "ja", "wav", true, true, true, id).expect("known voice");
    assert_eq!(chosen.gender, Gender::Female);
    match select_voice(&voices, "テスト", "fr", "wav", true, true, true, id) {
        Err(error) => {
            assert!(matches!(error.kind, ApiErrorKind::VoiceNotFound));
            assert_eq!(error.request_id, id);
        }
        Ok(_) => panic!("unknown voice was accepted"),
    }
    match select_voice(&voices, "", "fr", "wav", true, true, true, id) {
        Err(error) => assert!(matches!(error.kind, ApiErrorKind::InvalidParameter(ref p) if p == "text")),
        Ok(_) => panic!("empty text was accepted"),
    }
}

#[test]
fn maps_engine_failures_to_errors() {
    let id = Uuid::new_v4();
    assert!(matches!(synthesis_error(&EngineFailure::QueueFull, id).kind, ApiErrorKind::QueueFull));
    assert!(matches!(synthesis_error(&EngineFailure::Timeout, id).kind, ApiErrorKind::Timeout));
    let failed = synthesis_error(&EngineFailure::Failed("exit status 1".to_owned()), id);
    assert!(matches!(failed.kind, ApiErrorKind::Synthesis));
    assert!(failed.detail.is_none());
    assert_eq!(failed.request_id, id);
}

#[test]
fn reports_health() {
    let healthy = health_report(true, 4, "0.1.0".to_owned());
    assert_eq!(healthy.status, "ok");
    assert_eq!(healthy.voices, 4);
    assert_eq!(healthy.version, "0.1.0");
    assert_eq!(health_report(false, 0, String::new()).status, "degraded");
}

#[test]
fn defaults_to_wav_and_keeps_request_ids() {
    assert_eq!(default_format(), "wav");
    let id = Uuid::new_v4();
    let request = RequestId(id);
    let copy = request;
    assert_eq!(copy.0, id);
}

#[test]
fn summarises_text_for_the_request_log() {
    let summary = tospeak::api::text_summary("abc");
    assert_eq!(summary.character_count, 3);
    assert_eq!(summary.text_hash, "ba7816bf8f01cfea414140de5dae2223b00361a396177a9cb410ff61f20015ad");
    let text = "テストです。";
    let summary = tospeak::api::text_summary(text);
    assert_eq!(summary.character_count, 6);
    assert_eq!(summary.text_hash, hex::encode(sha2::Sha256::digest(text.as_bytes())));
    let empty = tospeak::api::text_summary("");
    assert_eq!(empty.character_count, 0);
    assert_eq!(empty.text_hash, "e3b0c44298fc1c149afbf4c8996fb92427ae41e4649b934ca495991b7852b855");
}
