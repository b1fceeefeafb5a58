//! Service settings, the catalogue of voices and the text encodings the engine accepts.

use vstd::prelude::*;
use vstd::utf8::{encode_utf8, is_ascii_chars};
use crate::text::{decimal_digits, lemma_decimal_round_trip, parse_u64, parse_unsigned, str_equal};

verus! {

/// The speaker gender advertised for a voice.
#[derive(Clone, Copy, Debug, PartialEq, Eq, Structural)]
pub enum Gender {
    Male,
    Female,
    Unknown,
}

/// The byte encoding in which the engine expects the text of a voice.
#[derive(Clone, Copy, Debug, PartialEq, Eq, Structural)]
pub enum TextEncoding {
    Utf8,
    Cp932,
    Gbk,
    EucKr,
}

/// Why text could not be encoded for a voice.
#[derive(Debug, PartialEq, Eq, Structural)]
pub enum EncodeError {
    /// The text holds characters that the voice's encoding cannot represent.
    UnsupportedCharacters,
}

impl EncodeError {
    /// The text of the error.
    pub fn message(&self) -> (s: String)
        ensures
            s@ == "text contains characters unsupported by the selected voice encoding"@,
    {
        "text contains characters unsupported by the selected voice encoding".to_owned()
    }
}

/// The bytes that encoding_rs's `Encoding::encode` produces for `text` in the legacy encoding
/// of `encoding` (Shift_JIS for CP932, GBK, EUC-KR, and UTF-8 for `Utf8`), and whether it had
/// to replace unmappable characters.
pub uninterp spec fn legacy_encoding_output(encoding: TextEncoding, text: Seq<char>) -> (Seq<u8>, bool);

/// Encodes `text` with encoding_rs's `Encoding::encode` on the encoding that `encoding`
/// stands for, and returns the bytes and the flag for unmappable characters.
///
/// Trusted: the contract names the result, and says, as the crate's documentation does, that
/// ASCII text encodes to its own bytes without errors in these ASCII-compatible encodings. The
/// length bound keeps the crate's buffer-size arithmetic, which panics on overflow, in range.
#[verifier::external_body]
fn encoding_rs_encode(encoding: TextEncoding, text: &str) -> (r: (Vec<u8>, bool))
    requires
        text.len() <= usize::MAX / 16,
    ensures
        (r.0@, r.1) == legacy_encoding_output(encoding, text@),
        is_ascii_chars(text@) ==> r.0@ == encode_utf8(text@) && !r.1,
{
    let target = match encoding {
        TextEncoding::Utf8 => encoding_rs::UTF_8,
        TextEncoding::Cp932 => encoding_rs::SHIFT_JIS,
        TextEncoding::Gbk => encoding_rs::GBK,
        TextEncoding::EucKr => encoding_rs::EUC_KR,
    };
    let (bytes, _, had_errors) = target.encode(text);
    (bytes.into_owned(), had_errors)
}

/// What `TextEncoding::encode` gives for `text`.
pub open spec fn spec_encode(encoding: TextEncoding, text: Seq<char>) -> Result<Seq<u8>, EncodeError> {
    if encoding == TextEncoding::Utf8 {
        Ok(encode_utf8(text))
    } else if legacy_encoding_output(encoding, text).1 {
        Err(EncodeError::UnsupportedCharacters)
    } else {
        Ok(legacy_encoding_output(encoding, text).0)
    }
}

impl TextEncoding {
    /// The bytes of `text` in this encoding. UTF-8 is the text's own bytes; the legacy
    /// encodings refuse text with characters they cannot represent.
    pub fn encode(self, text: &str) -> (r: Result<Vec<u8>, EncodeError>)
        requires
            self != TextEncoding::Utf8 ==> text.len() <= usize::MAX / 16,
        ensures
            match (r, spec_encode(self, text@)) {
                (Ok(bytes), Ok(expected)) => bytes@ == expected,
                (Err(e), Err(expected)) => e == expected,
                _ => false,
            },
            is_ascii_chars(text@) ==> (r matches Ok(bytes) && bytes@ == encode_utf8(text@)),
    {
        match self {
            TextEncoding::Utf8 => Ok(vstd::slice::slice_to_vec(text.as_bytes())),
            _ => {
                let (bytes, had_errors) = encoding_rs_encode(self, text);
                encoder_result(bytes, had_errors)
            },
        }
    }
}

/// Judges what the encoder returned: text that needed replacements for unmappable characters
/// is refused; otherwise the bytes are the encoding.
pub fn encoder_result(bytes: Vec<u8>, had_errors: bool) -> (r: Result<Vec<u8>, EncodeError>)
    ensures
        had_errors ==> r == Err::<Vec<u8>, EncodeError>(EncodeError::UnsupportedCharacters),
        !had_errors ==> r == Ok::<Vec<u8>, EncodeError>(bytes),
{
    if had_errors {
        Err(EncodeError::UnsupportedCharacters)
    } else {
        Ok(bytes)
    }
}

/// How the engine is asked for a voice.
pub struct EngineVoice {
    pub language: String,
    pub country: String,
    pub variant: String,
    pub voice_id: String,
    pub encoding: TextEncoding,
}

/// A voice of the public catalogue.
pub struct Voice {
    pub id: String,
    pub display_name: String,
    pub language: String,
    pub gender: Gender,
    pub description: String,
    pub engine: EngineVoice,
}

impl Clone for EngineVoice {
    fn clone(&self) -> (r: Self)
        ensures
            r == *self,
    {
        EngineVoice {
            language: self.language.clone(),
            country: self.country.clone(),
            variant: self.variant.clone(),
            voice_id: self.voice_id.clone(),
            encoding: self.encoding,
        }
    }
}

impl Clone for Voice {
    fn clone(&self) -> (r: Self)
        ensures
            r == *self,
    {
        Voice {
            id: self.id.clone(),
            display_name: self.display_name.clone(),
            language: self.language.clone(),
            gender: self.gender,
            description: self.description.clone(),
            engine: self.engine.clone(),
        }
    }
}

/// The catalogue of voices that the service offers.
pub struct VoicesConfig {
    pub voices: Vec<Voice>,
}

/// A catalogue that the service accepts: at least one voice, and no voice without an id or a
/// language.
pub open spec fn valid_voices(voices: Seq<Voice>) -> bool {
    &&& voices.len() > 0
    &&& forall|i: int| 0 <= i < voices.len() ==> voice_complete(#[trigger] voices[i])
}

/// A voice with a non-empty id and a non-empty language.
pub open spec fn voice_complete(voice: Voice) -> bool {
    voice.id@.len() > 0 && voice.language@.len() > 0
}

/// A catalogue is accepted exactly when it lists a voice and every voice has an id and a
/// language with at least one character each, whatever their lengths otherwise.
pub proof fn lemma_catalogue_acceptance(voices: Seq<Voice>)
    ensures
        valid_voices(voices) <==> (voices.len() != 0 && forall|i: int| 0 <= i < voices.len()
            ==> (#[trigger] voices[i]).id@ != Seq::<char>::empty() && voices[i].language@ != Seq::<char>::empty()),
{
    if voices.len() != 0 && forall|i: int| 0 <= i < voices.len()
        ==> (#[trigger] voices[i]).id@ != Seq::<char>::empty() && voices[i].language@ != Seq::<char>::empty() {
        assert forall|i: int| 0 <= i < voices.len() implies voice_complete(#[trigger] voices[i]) by {
            if voices[i].id@.len() == 0 {
                assert(voices[i].id@ =~= Seq::<char>::empty());
            }
            if voices[i].language@.len() == 0 {
                assert(voices[i].language@ =~= Seq::<char>::empty());
            }
        }
    }
    if valid_voices(voices) {
        assert forall|i: int| 0 <= i < voices.len() implies
            (#[trigger] voices[i]).id@ != Seq::<char>::empty() && voices[i].language@ != Seq::<char>::empty() by {
            assert(voice_complete(voices[i]));
        }
    }
}

/// Why the service's settings or its catalogue of voices were refused.
#[derive(Debug, PartialEq, Eq, Structural)]
pub enum ConfigError {
    /// The token variable is set but cannot be read as Unicode.
    UnreadableToken,
    /// The setting is not a non-negative integer.
    InvalidInteger(Setting),
    /// At least one synthesis must be allowed to run.
    ZeroConcurrency,
    /// The catalogue lists no voice.
    EmptyVoices,
    /// A voice lacks its id or its language.
    IncompleteVoice,
}

impl ConfigError {
    /// The text of the error.
    pub fn message(&self) -> (s: String)
        ensures
            s@ == self.spec_message(),
    {
        match self {
            ConfigError::InvalidInteger(setting) => {
                let mut s = setting.name().to_owned();
                s.append(" must be a non-negative integer");
                s
            },
            ConfigError::UnreadableToken => "TTS_API_TOKEN is required".to_owned(),
            ConfigError::ZeroConcurrency => "TTS_MAX_CONCURRENCY must be at least 1".to_owned(),
            ConfigError::EmptyVoices => "voices list must not be empty".to_owned(),
            ConfigError::IncompleteVoice => "voice id and language must not be empty".to_owned(),
        }
    }

    /// The text of each error.
    pub open spec fn spec_message(&self) -> Seq<char> {
        match self {
            ConfigError::InvalidInteger(setting) => setting.spec_name() + " must be a non-negative integer"@,
            ConfigError::UnreadableToken => "TTS_API_TOKEN is required"@,
            ConfigError::ZeroConcurrency => "TTS_MAX_CONCURRENCY must be at least 1"@,
            ConfigError::EmptyVoices => "voices list must not be empty"@,
            ConfigError::IncompleteVoice => "voice id and language must not be empty"@,
        }
    }
}

impl VoicesConfig {
    /// `true` for a catalogue the service accepts.
    pub open spec fn well_formed(&self) -> bool {
        valid_voices(self.voices@)
    }

    /// Accepts a catalogue of voices: it must list at least one voice, and every voice needs
    /// an id and a language.
    pub fn from_voices(voices: Vec<Voice>) -> (r: Result<VoicesConfig, ConfigError>)
        ensures
            voices@.len() == 0 ==> r == Err::<VoicesConfig, ConfigError>(ConfigError::EmptyVoices),
            voices@.len() > 0 && !valid_voices(voices@)
                ==> r == Err::<VoicesConfig, ConfigError>(ConfigError::IncompleteVoice),
            valid_voices(voices@) ==> (r matches Ok(config) && config.voices@ == voices@),
    {
        if voices.len() == 0 {
            return Err(ConfigError::EmptyVoices);
        }
        let n = voices.len();
        let mut i: usize = 0;
        while i < n
            invariant
                n == voices@.len(),
                i <= n,
                forall|j: int| 0 <= j < i ==> voice_complete(#[trigger] voices@[j]),
            decreases n - i,
        {
            if voices[i].id.as_str().is_empty() || voices[i].language.as_str().is_empty() {
                return Err(ConfigError::IncompleteVoice);
            }
            i = i + 1;
        }
        Ok(VoicesConfig { voices })
    }

    /// The first voice whose id is `id`, if any.
    pub fn find(&self, id: &str) -> (r: Option<&Voice>)
        ensures
            r is None <==> forall|i: int| 0 <= i < self.voices@.len() ==> #[trigger] self.voices@[i].id@ != id@,
            r matches Some(voice) ==> exists|i: int|
                0 <= i < self.voices@.len() && *voice == self.voices@[i] && self.voices@[i].id@ == id@
                    && forall|j: int| 0 <= j < i ==> #[trigger] self.voices@[j].id@ != id@,
    {
        let n = self.voices.len();
        let mut i: usize = 0;
        while i < n
            invariant
                n == self.voices@.len(),
                i <= n,
                forall|j: int| 0 <= j < i ==> #[trigger] self.voices@[j].id@ != id@,
            decreases n - i,
        {
            if str_equal(self.voices[i].id.as_str(), id) {
                return Some(&self.voices[i]);
            }
            i = i + 1;
        }
        None
    }

    /// The first voice of the catalogue, on which the start-up synthesis check runs.
    pub fn first(&self) -> (r: Option<&Voice>)
        ensures
            self.voices@.len() == 0 <==> r is None,
            r matches Some(voice) ==> *voice == self.voices@[0],
    {
        if self.voices.len() == 0 {
            None
        } else {
            Some(&self.voices[0])
        }
    }
}

/// The environment variables that configure the service.
#[derive(Clone, Copy, Debug, PartialEq, Eq, Structural)]
pub enum Setting {
    ApiToken,
    MaxConcurrency,
    QueueLimit,
    TimeoutSec,
    WorkDir,
    Rootfs,
    Qemu,
    Harness,
    VoicesConfig,
}

impl Setting {
    /// The name of the environment variable of each setting.
    pub open spec fn spec_name(self) -> Seq<char> {
        match self {
            Setting::ApiToken => "TTS_API_TOKEN"@,
            Setting::MaxConcurrency => "TTS_MAX_CONCURRENCY"@,
            Setting::QueueLimit => "TTS_QUEUE_LIMIT"@,
            Setting::TimeoutSec => "TTS_TIMEOUT_SEC"@,
            Setting::WorkDir => "TTS_WORK_DIR"@,
            Setting::Rootfs => "TTS_ROOTFS"@,
            Setting::Qemu => "TTS_QEMU"@,
            Setting::Harness => "TTS_HARNESS"@,
            Setting::VoicesConfig => "TTS_VOICES_CONFIG"@,
        }
    }

    /// The name of the environment variable of the setting.
    pub fn name(self) -> (s: &'static str)
        ensures
            s@ == self.spec_name(),
    {
        match self {
            Setting::ApiToken => "TTS_API_TOKEN",
            Setting::MaxConcurrency => "TTS_MAX_CONCURRENCY",
            Setting::QueueLimit => "TTS_QUEUE_LIMIT",
            Setting::TimeoutSec => "TTS_TIMEOUT_SEC",
            Setting::WorkDir => "TTS_WORK_DIR",
            Setting::Rootfs => "TTS_ROOTFS",
            Setting::Qemu => "TTS_QEMU",
            Setting::Harness => "TTS_HARNESS",
            Setting::VoicesConfig => "TTS_VOICES_CONFIG",
        }
    }
}

/// The value of an environment variable as the process finds it.
pub enum EnvValue {
    /// The variable is not set.
    Unset,
    /// The variable is set but its value is not valid Unicode.
    NotUnicode,
    /// The variable's text.
    Text(String),
}

/// The raw values of the settings.
pub struct EnvSettings {
    pub api_token: EnvValue,
    pub max_concurrency: EnvValue,
    pub queue_limit: EnvValue,
    pub timeout_sec: EnvValue,
    pub work_dir: EnvValue,
    pub rootfs: EnvValue,
    pub qemu: EnvValue,
    pub harness: EnvValue,
    pub voices_config: EnvValue,
}

/// The service's settings.
pub struct AppConfig {
    /// The bearer token; empty when authentication is disabled.
    pub api_token: String,
    pub max_concurrency: usize,
    pub queue_limit: usize,
    pub timeout_sec: u64,
    pub work_dir: String,
    pub rootfs: String,
    pub qemu: String,
    pub harness: String,
    pub voices_path: String,
}

/// The number that a numeric setting takes: its default when unset or not Unicode, else the
/// value of its text, or `None` when that text is not a number no greater than `max`.
pub open spec fn numeric_setting(value: EnvValue, default: nat, max: nat) -> Option<nat> {
    match value {
        EnvValue::Text(text) => parse_unsigned(encode_utf8(text@), max),
        _ => Some(default),
    }
}

/// The text that a textual setting takes: its default when unset or not Unicode.
pub open spec fn text_setting(value: EnvValue, default: Seq<char>) -> Seq<char> {
    match value {
        EnvValue::Text(text) => text@,
        _ => default,
    }
}

/// The token: empty, which disables authentication, when the variable is unset.
pub open spec fn token_setting(value: EnvValue) -> Seq<char> {
    match value {
        EnvValue::Text(text) => text@,
        _ => Seq::empty(),
    }
}

/// The first fault of the settings, in the order in which they are read, or `None`.
pub open spec fn settings_error(s: EnvSettings) -> Option<ConfigError> {
    let concurrency = numeric_setting(s.max_concurrency, 1, usize::MAX as nat);
    if s.api_token is NotUnicode {
        Some(ConfigError::UnreadableToken)
    } else if concurrency is None {
        Some(ConfigError::InvalidInteger(Setting::MaxConcurrency))
    } else if concurrency == Some(0nat) {
        Some(ConfigError::ZeroConcurrency)
    } else if numeric_setting(s.queue_limit, 8, usize::MAX as nat) is None {
        Some(ConfigError::InvalidInteger(Setting::QueueLimit))
    } else if numeric_setting(s.timeout_sec, 30, u64::MAX as nat) is None {
        Some(ConfigError::InvalidInteger(Setting::TimeoutSec))
    } else {
        None
    }
}

/// The rules of the settings: an unreadable token stops the service; with the token readable
/// and no number given, the defaults are accepted; a number written in decimal is read as
/// itself, with or without a leading `+`, and refused when it exceeds the type.
pub proof fn lemma_settings_rules(s: EnvSettings, value: EnvValue, n: nat, default: nat, max: nat)
    ensures
        s.api_token is NotUnicode ==> settings_error(s) == Some(ConfigError::UnreadableToken),
        !(s.api_token is NotUnicode) && !(s.max_concurrency is Text) && !(s.queue_limit is Text)
            && !(s.timeout_sec is Text) ==> settings_error(s) is None,
        !(value is Text) ==> numeric_setting(value, default, max) == Some(default),
        value matches EnvValue::Text(t) && t@ == decimal_digits(n) ==> numeric_setting(value, default, max)
            == (if n <= max { Some(n) } else { None::<nat> }),
        value matches EnvValue::Text(t) && t@ == seq!['+'] + decimal_digits(n)
            ==> numeric_setting(value, default, max) == (if n <= max { Some(n) } else { None::<nat> }),
{
    lemma_decimal_round_trip(n, max);
    if let EnvValue::Text(t) = value {
        if t@ == seq!['+'] + decimal_digits(n) {
            let c = seq!['+'] + decimal_digits(n);
            assert(c.drop_first() =~= decimal_digits(n));
            assert(c[0] == '+');
            let plus: u32 = 43;
            assert((plus & 0x7F) as u8 == 43u8) by (bit_vector)
                requires plus == 43u32;
            assert('+' as u32 == 43);
            assert(vstd::utf8::encode_scalar('+' as u32) =~= seq![43u8]);
            assert(encode_utf8(c) == seq![43u8] + encode_utf8(decimal_digits(n)));
        }
    }
}

fn read_text_setting(value: EnvValue, default: &str) -> (r: String)
    ensures
        r@ == text_setting(value, default@),
{
    match value {
        EnvValue::Text(text) => text,
        _ => default.to_owned(),
    }
}

fn read_usize_setting(value: &EnvValue, default: usize) -> (r: Option<usize>)
    ensures
        match numeric_setting(*value, default as nat, usize::MAX as nat) {
            Some(v) => r == Some(v as usize),
            None => r is None,
        },
{
    match value {
        EnvValue::Text(text) => match parse_u64(text.as_str()) {
            Some(v) => {
                if v as u128 <= usize::MAX as u128 {
                    Some(v as usize)
                } else {
                    None
                }
            },
            None => None,
        },
        _ => Some(default),
    }
}

fn read_u64_setting(value: &EnvValue, default: u64) -> (r: Option<u64>)
    ensures
        match numeric_setting(*value, default as nat, u64::MAX as nat) {
            Some(v) => r == Some(v as u64),
            None => r is None,
        },
{
    match value {
        EnvValue::Text(text) => parse_u64(text.as_str()),
        _ => Some(default),
    }
}

impl AppConfig {
    /// Builds the settings from the values of their environment variables. An unset or
    /// empty token disables authentication, and a token that is not Unicode is refused; numbers must be non-negative integers, and at
    /// least one synthesis must be allowed to run. Unset settings take their defaults.
    pub fn from_settings(s: EnvSettings) -> (r: Result<AppConfig, ConfigError>)
        ensures
            settings_error(s) is Some <==> r is Err,
            r matches Err(e) ==> settings_error(s) == Some(e),
            r matches Ok(c) ==> {
                &&& c.api_token@ == token_setting(s.api_token)
                &&& Some(c.max_concurrency as nat) == numeric_setting(s.max_concurrency, 1, usize::MAX as nat)
                &&& Some(c.queue_limit as nat) == numeric_setting(s.queue_limit, 8, usize::MAX as nat)
                &&& Some(c.timeout_sec as nat) == numeric_setting(s.timeout_sec, 30, u64::MAX as nat)
                &&& c.work_dir@ == text_setting(s.work_dir, "/tmp/tts"@)
                &&& c.rootfs@ == text_setting(s.rootfs, "/opt/tts/rootfs"@)
                &&& c.qemu@ == text_setting(s.qemu, "/usr/bin/qemu-arm-static"@)
                &&& c.harness@ == text_setting(s.harness, "/usr/local/bin/tts-harness"@)
                &&& c.voices_path@ == text_setting(s.voices_config, "/etc/tts/voices.yaml"@)
            },
    {
        if let EnvValue::NotUnicode = s.api_token {
            return Err(ConfigError::UnreadableToken);
        }
        let max_concurrency = match read_usize_setting(&s.max_concurrency, 1) {
            Some(v) => v,
            None => return Err(ConfigError::InvalidInteger(Setting::MaxConcurrency)),
        };
        if max_concurrency == 0 {
            return Err(ConfigError::ZeroConcurrency);
        }
        let queue_limit = match read_usize_setting(&s.queue_limit, 8) {
            Some(v) => v,
            None => return Err(ConfigError::InvalidInteger(Setting::QueueLimit)),
        };
        let timeout_sec = match read_u64_setting(&s.timeout_sec, 30) {
            Some(v) => v,
            None => return Err(ConfigError::InvalidInteger(Setting::TimeoutSec)),
        };
        proof {
            reveal_strlit("");
        }
        Ok(AppConfig {
            api_token: read_text_setting(s.api_token, ""),
            max_concurrency,
            queue_limit,
            timeout_sec,
            work_dir: read_text_setting(s.work_dir, "/tmp/tts"),
            rootfs: read_text_setting(s.rootfs, "/opt/tts/rootfs"),
            qemu: read_text_setting(s.qemu, "/usr/bin/qemu-arm-static"),
            harness: read_text_setting(s.harness, "/usr/local/bin/tts-harness"),
            voices_path: read_text_setting(s.voices_config, "/etc/tts/voices.yaml"),
        })
    }
}

} // verus!
