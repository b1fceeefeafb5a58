//! The decisions of the HTTP API: who may call it, which voices a query lists, which
//! synthesis requests are valid, and what the health check reports.

use vstd::prelude::*;
use sha2::Digest;
use vstd::string::StrSliceExecFns;
use vstd::utf8::encode_utf8;
use crate::config::{Gender, Voice, VoicesConfig};
use crate::engine::EngineFailure;
use crate::error::{opt_view, ApiError, ApiErrorKind};
use crate::text::{bytes_equal, eq_ignore_ascii_case, lemma_eq_ignore_case_bytes, lower_hex, same_letter_any_case, str_eq_ignore_ascii_case, str_equal, to_lower_hex};

verus! {

/// The id of a request, kept with the request while it is handled.
#[derive(Clone, Copy, Debug)]
pub struct RequestId(pub uuid::Uuid);

/// The filters of a voice listing.
pub struct VoiceQuery {
    pub language: Option<String>,
    pub gender: Option<Gender>,
}

/// What the health check reports.
pub struct HealthResponse {
    pub status: String,
    pub voices: usize,
    pub version: String,
}

/// The most characters a synthesis text may hold.
pub const MAX_TEXT_CHARS: usize = 2000;

/// The only audio format offered.
pub fn default_format() -> (s: String)
    ensures
        s@ == "wav"@,
{
    "wav".to_owned()
}

/// The bytes that `HeaderValue::to_str` accepts: visible ASCII and the tab.
pub open spec fn visible_header_byte(b: u8) -> bool {
    (32 <= b && b < 127) || b == 9
}

/// The bytes of `Bearer ` that start the authorization header.
pub open spec fn bearer_prefix() -> Seq<u8> {
    seq![66u8, 101, 97, 114, 101, 114, 32]
}

/// Whether a request with the given `Authorization` header value may use a protected route,
/// when the service's token is `token`: any request when the token is empty; otherwise the
/// header must be text of visible ASCII that is `Bearer ` followed by the token.
pub open spec fn spec_authorized(header: Option<Seq<u8>>, token: Seq<char>) -> bool {
    token.len() == 0 || match header {
        None => false,
        Some(h) => {
            &&& forall|i: int| 0 <= i < h.len() ==> visible_header_byte(#[trigger] h[i])
            &&& h.len() >= 7
            &&& h.take(7) == bearer_prefix()
            &&& h.skip(7) == encode_utf8(token)
        },
    }
}

/// Routes that need no token.
pub open spec fn spec_is_public_path(path: Seq<char>) -> bool {
    path == "/"@ || path == "/healthz"@
}

/// Whether a request to `path` is let through.
pub open spec fn spec_request_admitted(path: Seq<char>, header: Option<Seq<u8>>, token: Seq<char>) -> bool {
    spec_is_public_path(path) || spec_authorized(header, token)
}

/// The bytes of an optional header value.
pub open spec fn header_view(header: Option<&[u8]>) -> Option<Seq<u8>> {
    match header {
        Some(h) => Some(h@),
        None => None,
    }
}

#[verifier::external_body]
/// Compares two byte strings with constant_time_eq's `constant_time_eq`, which takes the
/// same time for any two inputs of one length.
///
/// Trusted: the contract says that it answers whether the two byte strings are equal, as its
/// source shows (equal lengths and no differing byte).
fn constant_time_equal(a: &[u8], b: &[u8]) -> (r: bool)
    ensures
        r == (a@ == b@),
{
    constant_time_eq::constant_time_eq(a, b)
}

/// Whether a request with the given `Authorization` header value (absent: `None`) may use a
/// protected route when the service's token is `expected`. The token is compared in constant
/// time.
pub fn authorized(header: Option<&[u8]>, expected: &str) -> (r: bool)
    ensures
        r == spec_authorized(header_view(header), expected@),
{
    if expected.is_empty() {
        return true;
    }
    let value = match header {
        Some(value) => value,
        None => return false,
    };
    let n = value.len();
    let mut i: usize = 0;
    while i < n
        invariant
            n == value@.len(),
            header_view(header) == Some(value@),
            expected@.len() != 0,
            i <= n,
            forall|j: int| 0 <= j < i ==> visible_header_byte(#[trigger] value@[j]),
        decreases n - i,
    {
        let b = value[i];
        if !((32 <= b && b < 127) || b == 9) {
            assert(!visible_header_byte(value@[i as int]));
            return false;
        }
        i = i + 1;
    }
    if n < 7 {
        return false;
    }
    let (prefix, token) = value.split_at(7);
    let bearer: [u8; 7] = [66, 101, 97, 114, 101, 114, 32];
    if !bytes_equal(prefix, bearer.as_slice()) {
        assert(prefix@ == value@.take(7));
        assert(bearer@ =~= bearer_prefix());
        return false;
    }
    assert(bearer@ =~= bearer_prefix());
    assert(token@ =~= value@.skip(7));
    constant_time_equal(token, expected.as_bytes())
}

/// Whether `path` is a route that needs no token.
pub fn is_public_path(path: &str) -> (r: bool)
    ensures
        r == spec_is_public_path(path@),
{
    str_equal(path, "/") || str_equal(path, "/healthz")
}

/// Whether a request to `path` is let through: public routes always are; the others need
/// the bearer token, when one is configured.
pub fn request_admitted(path: &str, header: Option<&[u8]>, token: &str) -> (r: bool)
    ensures
        r == spec_request_admitted(path@, header_view(header), token@),
{
    is_public_path(path) || authorized(header, token)
}

/// A token that can be sent in a header: visible ASCII characters and tabs only.
pub open spec fn header_safe_token(token: Seq<char>) -> bool {
    forall|i: int| 0 <= i < token.len() ==> ((' ' <= #[trigger] token[i] && token[i] <= '~') || token[i] == '\t')
}

proof fn proof_bearer_prefix_bytes()
    ensures
        bearer_prefix() == encode_utf8("Bearer "@),
{
    reveal_strlit("Bearer ");
    let c = "Bearer "@;
    assert(vstd::utf8::is_ascii_chars(c));
    vstd::utf8::is_ascii_chars_encode_utf8(c);
    assert(bearer_prefix() =~= encode_utf8(c));
}

/// The access rules: `/` and `/healthz` are always public; with an empty token every route
/// is open; otherwise a request is let through exactly when its `Authorization` header is
/// `Bearer ` followed by the token.
pub proof fn lemma_access_rules(path: Seq<char>, header: Option<Seq<u8>>, token: Seq<char>)
    requires
        header_safe_token(token),
    ensures
        spec_request_admitted(path, header, token) <==> (path == "/"@ || path == "/healthz"@
            || token.len() == 0 || header == Some(encode_utf8("Bearer "@) + encode_utf8(token))),
{
    proof_bearer_prefix_bytes();
    assert(vstd::utf8::is_ascii_chars(token));
    vstd::utf8::is_ascii_chars_encode_utf8(token);
    let bytes = encode_utf8(token);
    if let Some(h) = header {
        if h == bearer_prefix() + bytes {
            assert(h.take(7) =~= bearer_prefix());
            assert(h.skip(7) =~= bytes);
            assert forall|i: int| 0 <= i < h.len() implies visible_header_byte(#[trigger] h[i]) by {
                if i >= 7 {
                    assert(h[i] == bytes[i - 7]);
                    assert(bytes[i - 7] == token[i - 7] as u8);
                }
            }
        }
        if spec_authorized(header, token) && token.len() != 0 {
            assert(h =~= h.take(7) + h.skip(7));
        }
    }
}

/// Whether a voice passes a listing's filters: its language equals the wanted one but for the
/// case of ASCII letters, and its gender is the wanted one; an absent filter passes all.
pub open spec fn voice_matches(voice: Voice, language: Option<Seq<char>>, gender: Option<Gender>) -> bool {
    &&& match language {
        Some(l) => eq_ignore_ascii_case(voice.language@, l),
        None => true,
    }
    &&& match gender {
        Some(g) => voice.gender == g,
        None => true,
    }
}

/// The filter of a voice listing, as a predicate on voices.
pub open spec fn voice_filter(language: Option<Seq<char>>, gender: Option<Gender>) -> spec_fn(Voice) -> bool {
    |voice: Voice| voice_matches(voice, language, gender)
}

/// A voice is listed when the wanted language differs from its language at most in the
/// case of ASCII letters and the gender filter passes; every listed voice has such a
/// language.
pub proof fn lemma_listing_ignores_ascii_case(voices: Seq<Voice>, i: int, language: Seq<char>, gender: Option<Gender>)
    requires
        0 <= i < voices.len(),
    ensures
        (encode_utf8(voices[i].language@).len() == encode_utf8(language).len()
            && (forall|j: int| 0 <= j < encode_utf8(language).len()
                ==> same_letter_any_case(#[trigger] encode_utf8(voices[i].language@)[j], encode_utf8(language)[j]))
            && (gender matches Some(g) ==> voices[i].gender == g))
            ==> voices.filter(voice_filter(Some(language), gender)).contains(voices[i]),
        forall|k: int| 0 <= k < voices.filter(voice_filter(Some(language), gender)).len() ==> {
            let listed = #[trigger] voices.filter(voice_filter(Some(language), gender))[k];
            &&& encode_utf8(listed.language@).len() == encode_utf8(language).len()
            &&& forall|j: int| 0 <= j < encode_utf8(language).len()
                ==> same_letter_any_case(#[trigger] encode_utf8(listed.language@)[j], encode_utf8(language)[j])
        },
{
    let f = voice_filter(Some(language), gender);
    broadcast use vstd::seq_lib::group_filter_ensures;
    lemma_eq_ignore_case_bytes(encode_utf8(voices[i].language@), encode_utf8(language));
    if encode_utf8(voices[i].language@).len() == encode_utf8(language).len()
        && (forall|j: int| 0 <= j < encode_utf8(language).len()
            ==> same_letter_any_case(#[trigger] encode_utf8(voices[i].language@)[j], encode_utf8(language)[j]))
        && (gender matches Some(g) ==> voices[i].gender == g) {
        assert(f(voices[i]));
        voices.lemma_filter_contains(f, i);
    }
    assert forall|k: int| 0 <= k < voices.filter(f).len() implies {
        let listed = #[trigger] voices.filter(f)[k];
        &&& encode_utf8(listed.language@).len() == encode_utf8(language).len()
        &&& forall|j: int| 0 <= j < encode_utf8(language).len()
            ==> same_letter_any_case(#[trigger] encode_utf8(listed.language@)[j], encode_utf8(language)[j])
    } by {
        let listed = voices.filter(f)[k];
        voices.lemma_filter_pred(f, k);
        lemma_eq_ignore_case_bytes(encode_utf8(listed.language@), encode_utf8(language));
    }
}

/// A listing without filters lists the whole catalogue in order, and a gender filter lists
/// only voices of that gender, each voice of that gender whose language passes.
pub proof fn lemma_listing_filters(voices: Seq<Voice>, language: Option<Seq<char>>, gender: Gender)
    ensures
        voices.filter(voice_filter(None, None)) == voices,
        forall|k: int| 0 <= k < voices.filter(voice_filter(language, Some(gender))).len()
            ==> (#[trigger] voices.filter(voice_filter(language, Some(gender)))[k]).gender == gender,
        forall|i: int| 0 <= i < voices.len() && (#[trigger] voices[i]).gender == gender && language is None
            ==> voices.filter(voice_filter(language, Some(gender))).contains(voices[i]),
    decreases voices.len(),
{
    broadcast use vstd::seq_lib::group_filter_ensures;
    reveal_with_fuel(Seq::<_>::filter, 1);
    if voices.len() > 0 {
        lemma_listing_filters(voices.drop_last(), language, gender);
    } else {
        assert(voices.filter(voice_filter(None, None)) =~= voices);
    }
    let f = voice_filter(language, Some(gender));
    assert forall|k: int| 0 <= k < voices.filter(f).len() implies (#[trigger] voices.filter(f)[k]).gender == gender by {
        voices.lemma_filter_pred(f, k);
    }
    assert forall|i: int| 0 <= i < voices.len() && (#[trigger] voices[i]).gender == gender && language is None
        implies voices.filter(f).contains(voices[i]) by {
        voices.lemma_filter_contains(f, i);
    }
}

impl VoiceQuery {
    /// The filter that the query asks for.
    pub open spec fn filter(&self) -> spec_fn(Voice) -> bool {
        voice_filter(opt_view(self.language), self.gender)
    }

    /// The voices of the catalogue that pass the query's filters, in catalogue order.
    pub fn matching_voices(&self, catalogue: &VoicesConfig) -> (r: Vec<Voice>)
        ensures
            r@ == catalogue.voices@.filter(self.filter()),
    {
        let voices = &catalogue.voices;
        let n = voices.len();
        let mut result: Vec<Voice> = Vec::new();
        let mut i: usize = 0;
        while i < n
            invariant
                n == voices@.len(),
                i <= n,
                result@ == voices@.take(i as int).filter(self.filter()),
            decreases n - i,
        {
            let voice = &voices[i];
            let language_ok = match &self.language {
                Some(language) => str_eq_ignore_ascii_case(voice.language.as_str(), language.as_str()),
                None => true,
            };
            let gender_ok = match self.gender {
                Some(gender) => voice.gender == gender,
                None => true,
            };
            assert(voices@.take(i + 1).drop_last() =~= voices@.take(i as int));
            reveal_with_fuel(Seq::<_>::filter, 1);
            if language_ok && gender_ok {
                result.push(voice.clone());
            }
            i = i + 1;
        }
        assert(voices@.take(n as int) =~= voices@);
        result
    }
}

/// The parameter and the message of the first check that a synthesis request fails, or
/// `None`: the text holds 1 to 2000 characters, each numeric parameter is a finite number in
/// its range (given by the three flags), and the format is `wav`.
pub open spec fn validation_failure(
    text: Seq<char>,
    format: Seq<char>,
    volume_in_range: bool,
    rate_in_range: bool,
    pitch_in_range: bool,
) -> Option<(Seq<char>, Seq<char>)> {
    if !(1 <= text.len() <= MAX_TEXT_CHARS) {
        Some(("text"@, "text must contain between 1 and 2000 characters"@))
    } else if !volume_in_range {
        Some(("audio_volume"@, "audio_volume must be between 0 and 1"@))
    } else if !rate_in_range {
        Some(("speaking_rate"@, "speaking_rate must be between 0.5 and 6"@))
    } else if !pitch_in_range {
        Some(("audio_pitch"@, "audio_pitch must be between 0 and 2"@))
    } else if format != "wav"@ {
        Some(("format"@, "format must be wav"@))
    } else {
        None
    }
}

/// The checks of a synthesis request, in order: a text of 1 to 2000 characters, then the
/// volume, the speaking rate and the pitch, each refused on its own whatever the others are,
/// then the format `wav`; a request that passes all of them is valid.
pub proof fn lemma_request_checks(
    text: Seq<char>,
    format: Seq<char>,
    volume_in_range: bool,
    rate_in_range: bool,
    pitch_in_range: bool,
)
    ensures
        (text.len() == 0 || text.len() > 2000) ==> validation_failure(text, format, volume_in_range,
            rate_in_range, pitch_in_range) == Some(("text"@, "text must contain between 1 and 2000 characters"@)),
        1 <= text.len() <= 2000 && !volume_in_range ==> validation_failure(text, format, volume_in_range,
            rate_in_range, pitch_in_range) == Some(("audio_volume"@, "audio_volume must be between 0 and 1"@)),
        1 <= text.len() <= 2000 && volume_in_range && !rate_in_range ==> validation_failure(text, format,
            volume_in_range, rate_in_range, pitch_in_range) == Some(("speaking_rate"@, "speaking_rate must be between 0.5 and 6"@)),
        1 <= text.len() <= 2000 && volume_in_range && rate_in_range && !pitch_in_range ==> validation_failure(
            text, format, volume_in_range, rate_in_range, pitch_in_range) == Some(("audio_pitch"@, "audio_pitch must be between 0 and 2"@)),
        1 <= text.len() <= 2000 && volume_in_range && rate_in_range && pitch_in_range && format != "wav"@
            ==> validation_failure(text, format, volume_in_range, rate_in_range, pitch_in_range)
            == Some(("format"@, "format must be wav"@)),
        1 <= text.len() <= 2000 && volume_in_range && rate_in_range && pitch_in_range && format == "wav"@
            ==> validation_failure(text, format, volume_in_range, rate_in_range, pitch_in_range) is None,
{
}

/// `true` for an error of an invalid parameter with the given name and message.
pub open spec fn is_invalid_parameter(e: ApiError, request_id: uuid::Uuid, param: Seq<char>, message: Seq<char>) -> bool {
    &&& e.kind matches ApiErrorKind::InvalidParameter(p) && p@ == param
    &&& opt_view(e.detail) == Some(message)
    &&& e.request_id == request_id
}

fn invalid_parameter(param: &str, message: &str, request_id: uuid::Uuid) -> (e: ApiError)
    ensures
        is_invalid_parameter(e, request_id, param@, message@),
{
    ApiError::new(ApiErrorKind::InvalidParameter(param.to_owned()), request_id).detail(message.to_owned())
}

/// Checks a synthesis request: its text must hold 1 to 2000 characters, the three flags
/// tell whether `audio_volume` (0 to 1), `speaking_rate` (0.5 to 6) and `audio_pitch` (0 to 2)
/// are finite numbers in their ranges, and the format must be `wav`. The first failed check
/// is answered with an invalid-parameter error naming the parameter.
pub fn validate(
    text: &str,
    format: &str,
    volume_in_range: bool,
    rate_in_range: bool,
    pitch_in_range: bool,
    request_id: uuid::Uuid,
) -> (r: Result<(), ApiError>)
    ensures
        r is Ok <==> validation_failure(text@, format@, volume_in_range, rate_in_range, pitch_in_range) is None,
        r matches Err(e) ==> (validation_failure(text@, format@, volume_in_range, rate_in_range, pitch_in_range)
            matches Some((param, message)) && is_invalid_parameter(e, request_id, param, message)),
{
    let characters = text.unicode_len();
    if !(1 <= characters && characters <= MAX_TEXT_CHARS) {
        return Err(invalid_parameter("text", "text must contain between 1 and 2000 characters", request_id));
    }
    if !volume_in_range {
        return Err(invalid_parameter("audio_volume", "audio_volume must be between 0 and 1", request_id));
    }
    if !rate_in_range {
        return Err(invalid_parameter("speaking_rate", "speaking_rate must be between 0.5 and 6", request_id));
    }
    if !pitch_in_range {
        return Err(invalid_parameter("audio_pitch", "audio_pitch must be between 0 and 2", request_id));
    }
    if !str_equal(format, "wav") {
        return Err(invalid_parameter("format", "format must be wav", request_id));
    }
    Ok(())
}

/// Checks a synthesis request and picks its voice: an invalid request is refused as
/// `validate` says; a valid one for an unknown voice id is refused as not found; otherwise
/// the first voice with that id is chosen.
pub fn select_voice<'a>(
    catalogue: &'a VoicesConfig,
    text: &str,
    voice_id: &str,
    format: &str,
    volume_in_range: bool,
    rate_in_range: bool,
    pitch_in_range: bool,
    request_id: uuid::Uuid,
) -> (r: Result<&'a Voice, ApiError>)
    ensures
        match validation_failure(text@, format@, volume_in_range, rate_in_range, pitch_in_range) {
            Some((param, message)) => r matches Err(e) && is_invalid_parameter(e, request_id, param, message),
            None => if forall|i: int| 0 <= i < catalogue.voices@.len() ==> #[trigger] catalogue.voices@[i].id@ != voice_id@ {
                r matches Err(e) && e.kind is VoiceNotFound && e.request_id == request_id && e.detail is None
            } else {
                r matches Ok(voice) && exists|i: int|
                    0 <= i < catalogue.voices@.len() && *voice == catalogue.voices@[i]
                        && catalogue.voices@[i].id@ == voice_id@
                        && forall|j: int| 0 <= j < i ==> #[trigger] catalogue.voices@[j].id@ != voice_id@
            },
        },
{
    validate(text, format, volume_in_range, rate_in_range, pitch_in_range, request_id)?;
    match catalogue.find(voice_id) {
        Some(voice) => Ok(voice),
        None => Err(ApiError::new(ApiErrorKind::VoiceNotFound, request_id)),
    }
}

/// The error that a failed synthesis is answered with: a full queue and a timeout keep their
/// kind; any other failure is a synthesis failure, whose cause is not shown to the client.
pub fn synthesis_error(failure: &EngineFailure, request_id: uuid::Uuid) -> (e: ApiError)
    ensures
        e.request_id == request_id,
        e.detail is None,
        failure is QueueFull ==> e.kind is QueueFull,
        failure is Timeout ==> e.kind is Timeout,
        failure is Failed ==> e.kind is Synthesis,
{
    match failure {
        EngineFailure::QueueFull => ApiError::new(ApiErrorKind::QueueFull, request_id),
        EngineFailure::Timeout => ApiError::new(ApiErrorKind::Timeout, request_id),
        EngineFailure::Failed(_) => ApiError::new(ApiErrorKind::Synthesis, request_id),
    }
}

/// The health report: `ok` when the start-up synthesis succeeded, else `degraded`, with the
/// number of voices and the service's version.
pub fn health_report(engine_healthy: bool, voices: usize, version: String) -> (r: HealthResponse)
    ensures
        r.status@ == (if engine_healthy { "ok"@ } else { "degraded"@ }),
        r.voices == voices,
        r.version@ == version@,
{
    HealthResponse {
        status: if engine_healthy { "ok".to_owned() } else { "degraded".to_owned() },
        voices,
        version,
    }
}

/// The SHA-256 digest of a byte string, as sha2's `Sha256` computes it.
pub uninterp spec fn sha256(data: Seq<u8>) -> Seq<u8>;

/// Hashes `data` with sha2's `Sha256::digest`.
///
/// Trusted: the contract names the digest and says it is 32 bytes long, the output size
/// of SHA-256.
#[verifier::external_body]
fn sha2_digest(data: &[u8]) -> (r: Vec<u8>)
    ensures
        r@ == sha256(data@),
        r@.len() == 32,
{
    sha2::Sha256::digest(data).to_vec()
}

/// What a request log records of a synthesis text in place of the text itself: its number of
/// characters and the lower-case hexadecimal SHA-256 of its UTF-8 bytes.
pub struct TextSummary {
    pub character_count: usize,
    pub text_hash: String,
}

/// The summary of a synthesis text for the request log.
pub fn text_summary(text: &str) -> (r: TextSummary)
    ensures
        r.character_count == text@.len(),
        r.text_hash@ == lower_hex(sha256(encode_utf8(text@))),
        r.text_hash@.len() == 64,
{
    let digest = sha2_digest(text.as_bytes());
    let text_hash = to_lower_hex(digest.as_slice());
    proof {
        lemma_lower_hex_len(digest@);
    }
    TextSummary { character_count: text.unicode_len(), text_hash }
}

/// Hexadecimal text is two characters per byte.
pub proof fn lemma_lower_hex_len(bytes: Seq<u8>)
    ensures
        lower_hex(bytes).len() == 2 * bytes.len(),
    decreases bytes.len(),
{
    if bytes.len() > 0 {
        lemma_lower_hex_len(bytes.drop_last());
    }
}

} // verus!
