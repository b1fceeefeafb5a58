use tospeak::config::encoder_result;
use tospeak::config::{
    AppConfig, ConfigError, EncodeError, EngineVoice, EnvSettings, EnvValue, Gender, Setting, TextEncoding, Voice,
    VoicesConfig,
};

fn text(value: &serde_yaml::Value, key: &str) -> String {
    value[key].as_str().unwrap_or_default().to_owned()
}

fn gender(value: &str) -> Gender {
    match value {
        "male" => Gender::Male,
        "female" => Gender::Female,
        "unknown" => Gender::Unknown,
        other => panic!("unknown gender {other}"),
    }
}

fn encoding(value: &str) -> TextEncoding {
    match value {
        "utf8" => TextEncoding::Utf8,
        "cp932" => TextEncoding::Cp932,
        "gbk" => TextEncoding::Gbk,
        "euckr" => TextEncoding::EucKr,
        other => panic!("unknown encoding {other}"),
    }
}

fn parse(yaml: &str) -> Result<VoicesConfig, ConfigError> {
    let document: serde_yaml::Value = serde_yaml::from_str(yaml).expect("valid YAML");
    let voices = document["voices"]
        .as_sequence()
        .expect("voices list")
        .iter()
        .map(|v| Voice {
            id: text(v, "id"),
            display_name: text(v, "display_name"),
            language: text(v, "language"),
            gender: gender(v["gender"].as_str().expect("gender")),
            description: text(v, "description"),
            engine: EngineVoice {
                language: text(&v["engine"], "language"),
                country: text(&v["engine"], "country"),
                variant: text(&v["engine"], "variant"),
                voice_id: text(&v["engine"], "voice_id"),
                encoding: encoding(v["engine"]["encoding"].as_str().expect("encoding")),
            },
        })
        .collect();
    VoicesConfig::from_voices(voices)
}

#[test]
fn parses_voice_yaml_and_cp932() {
    let yaml = r#"voices:
  - id: ja
    display_name: Japanese
    language: ja-JP
    gender: female
    description: test
    engine:
      language: jpn
      country: JPN
      voice_id: female01
      encoding: cp932
"#;
    let config = parse(yaml).expect("test YAML should parse");
    assert_eq!(config.voices.len(), 1);
    assert_eq!(config.voices[0].gender, Gender::Female);
    let encoded = config.voices[0]
        .engine
        .encoding
        .encode("テスト")
        .expect("CP932 test text should encode");
    assert_eq!(encoded, vec![0x83, 0x65, 0x83, 0x58, 0x83, 0x67]);
}

fn engine_voice() -> EngineVoice {
    EngineVoice {
        language: "eng".to_owned(),
        country: "USA".to_owned(),
        variant: String::new(),
        voice_id: "male01".to_owned(),
        encoding: TextEncoding::Utf8,
    }
}

fn voice(id: &str, language: &str) -> Voice {
    Voice {
        id: id.to_owned(),
        display_name: "Voice".to_owned(),
        language: language.to_owned(),
        gender: Gender::Unknown,
        description: String::new(),
        engine: engine_voice(),
    }
}

#[test]
fn refuses_empty_or_incomplete_catalogues() {
    assert_eq!(VoicesConfig::from_voices(Vec::new()).err(), Some(ConfigError::EmptyVoices));
    assert_eq!(
        VoicesConfig::from_voices(vec![voice("en", "en-US"), voice("", "en-US")]).err(),
        Some(ConfigError::IncompleteVoice)
    );
    assert_eq!(
        VoicesConfig::from_voices(vec![voice("en", "")]).err(),
        Some(ConfigError::IncompleteVoice)
    );
    let config = VoicesConfig::from_voices(vec![voice("en", "en-US"), voice("zh", "zh-CN")]).expect("valid");
    assert_eq!(config.first().map(|v| v.id.clone()), Some("en".to_owned()));
}

#[test]
fn finds_the_first_voice_with_an_id() {
    let mut second = voice("en", "en-GB");
    second.display_name = "Second".to_owned();
    let config = VoicesConfig::from_voices(vec![voice("zh", "zh-CN"), voice("en", "en-US"), second]).expect("valid");
    assert_eq!(config.find("en").map(|v| v.language.clone()), Some("en-US".to_owned()));
    assert!(config.find("EN").is_none());
    assert!(config.find("").is_none());
}

#[test]
fn encodes_text_for_each_voice_encoding() {
    assert_eq!(TextEncoding::Utf8.encode("é").unwrap(), vec![0xc3, 0xa9]);
    assert_eq!(TextEncoding::Cp932.encode("abc").unwrap(), b"abc".to_vec());
    assert_eq!(TextEncoding::Gbk.encode("中").unwrap(), vec![0xd6, 0xd0]);
    assert_eq!(TextEncoding::EucKr.encode("한").unwrap(), vec![0xc7, 0xd1]);
    assert_eq!(TextEncoding::Cp932.encode("한").err(), Some(EncodeError::UnsupportedCharacters));
    assert_eq!(
        EncodeError::UnsupportedCharacters.message(),
        "text contains characters unsupported by the selected voice encoding"
    );
}

fn unset() -> EnvSettings {
    EnvSettings {
        api_token: EnvValue::Unset,
        max_concurrency: EnvValue::Unset,
        queue_limit: EnvValue::Unset,
        timeout_sec: EnvValue::Unset,
        work_dir: EnvValue::Unset,
        rootfs: EnvValue::Unset,
        qemu: EnvValue::Unset,
        harness: EnvValue::NotUnicode,
        voices_config: EnvValue::Unset,
    }
}

#[test]
fn settings_take_their_defaults() {
    let config = AppConfig::from_settings(unset()).expect("defaults are valid");
    assert_eq!(config.api_token, "");
    assert_eq!(config.max_concurrency, 1);
    assert_eq!(config.queue_limit, 8);
    assert_eq!(config.timeout_sec, 30);
    assert_eq!(config.work_dir, "/tmp/tts");
    assert_eq!(config.rootfs, "/opt/tts/rootfs");
    assert_eq!(config.qemu, "/usr/bin/qemu-arm-static");
    assert_eq!(config.harness, "/usr/local/bin/tts-harness");
    assert_eq!(config.voices_path, "/etc/tts/voices.yaml");
}

#[test]
fn settings_read_their_values() {
    let mut settings = unset();
    settings.api_token = EnvValue::Text("token".to_owned());
    settings.max_concurrency = EnvValue::Text("+4".to_owned());
    settings.queue_limit = EnvValue::Text("0".to_owned());
    settings.timeout_sec = EnvValue::Text("18446744073709551615".to_owned());
    settings.work_dir = EnvValue::Text("/var/tts".to_owned());
    let config = AppConfig::from_settings(settings).expect("valid");
    assert_eq!(config.api_token, "token");
    assert_eq!(config.max_concurrency, 4);
    assert_eq!(config.queue_limit, 0);
    assert_eq!(config.timeout_sec, u64::MAX);
    assert_eq!(config.work_dir, "/var/tts");
}

#[test]
fn settings_refuse_bad_numbers() {
    let mut settings = unset();
    settings.max_concurrency = EnvValue::Text("0".to_owned());
    assert_eq!(AppConfig::from_settings(settings).err(), Some(ConfigError::ZeroConcurrency));
    for bad in ["", "+", "-1", "1.5", " 2", "abc", "18446744073709551616"] {
        let mut settings = unset();
        settings.queue_limit = EnvValue::Text(bad.to_owned());
        assert_eq!(
            AppConfig::from_settings(settings).err(),
            Some(ConfigError::InvalidInteger(Setting::QueueLimit)),
            "{bad:?}"
        );
    }
    let mut settings = unset();
    settings.max_concurrency = EnvValue::Text("x".to_owned());
    settings.timeout_sec = EnvValue::Text("y".to_owned());
    let error = AppConfig::from_settings(settings).err().expect("refused");
    assert_eq!(error, ConfigError::InvalidInteger(Setting::MaxConcurrency));
    assert_eq!(error.message(), "TTS_MAX_CONCURRENCY must be a non-negative integer");
    let mut settings = unset();
    settings.timeout_sec = EnvValue::Text("-5".to_owned());
    assert_eq!(AppConfig::from_settings(settings).err(), Some(ConfigError::InvalidInteger(Setting::TimeoutSec)));
}

#[test]
fn refuses_a_token_that_is_not_unicode() {
    let mut settings = unset();
    settings.api_token = EnvValue::NotUnicode;
    settings.max_concurrency = EnvValue::Text("0".to_owned());
    let error = AppConfig::from_settings(settings).err().expect("refused");
    assert_eq!(error, ConfigError::UnreadableToken);
    assert_eq!(error.message(), "TTS_API_TOKEN is required");
    let mut settings = unset();
    settings.api_token = EnvValue::Text(String::new());
    assert_eq!(AppConfig::from_settings(settings).expect("empty token").api_token, "");
}

#[test]
fn config_errors_have_messages() {
    assert_eq!(ConfigError::ZeroConcurrency.message(), "TTS_MAX_CONCURRENCY must be at least 1");
    assert_eq!(ConfigError::EmptyVoices.message(), "voices list must not be empty");
    assert_eq!(ConfigError::IncompleteVoice.message(), "voice id and language must not be empty");
    assert_eq!(
        ConfigError::InvalidInteger(Setting::TimeoutSec).message(),
        "TTS_TIMEOUT_SEC must be a non-negative integer"
    );
    assert_eq!(Setting::VoicesConfig.name(), "TTS_VOICES_CONFIG");
}

#[test]
fn judges_encoder_output() {
    assert_eq!(encoder_result(vec![1, 2], false), Ok(vec![1, 2]));
    assert_eq!(encoder_result(vec![0x26, 0x23], true), Err(EncodeError::UnsupportedCharacters));
}
