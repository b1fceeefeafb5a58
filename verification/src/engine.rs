//! The decisions around a synthesis run: admission to the queue, the harness's command line
//! and the outcome of the start-up check.

use vstd::prelude::*;
use crate::config::EngineVoice;
use vstd::string::StrSliceExecFns;
use crate::error::{spec_status, ApiErrorKind};
use crate::text::{decimal, i32_to_decimal};
use crate::wav::{expected_format, validate_wav, wav_reader_format};

verus! {

/// Why a synthesis did not produce audio.
#[derive(Debug)]
pub enum EngineFailure {
    /// The queue of waiting requests is full.
    QueueFull,
    /// The engine did not finish in time.
    Timeout,
    /// The engine failed, with a description for the logs.
    Failed(String),
}

/// The count of waiting requests after one more request asks to wait: refused (`None`) when
/// `queue_limit` requests already wait.
pub open spec fn spec_admit_waiting(waiting: nat, queue_limit: nat) -> Option<nat> {
    if waiting < queue_limit {
        Some(waiting + 1)
    } else {
        None
    }
}

/// Admission of a request that found no free engine instance: with `waiting` requests
/// already queued, it may wait only while fewer than `queue_limit` do, and then is counted.
pub fn admit_waiting(waiting: usize, queue_limit: usize) -> (r: Option<usize>)
    ensures
        match spec_admit_waiting(waiting as nat, queue_limit as nat) {
            Some(n) => r == Some(n as usize),
            None => r is None,
        },
{
    if waiting < queue_limit {
        Some(waiting + 1)
    } else {
        None
    }
}

/// The queue never holds more waiting requests than its limit: from a count within the
/// limit, an admission leads to a count within the limit, and a full queue refuses.
pub proof fn lemma_queue_bounded(waiting: nat, queue_limit: nat)
    requires
        waiting <= queue_limit,
    ensures
        spec_admit_waiting(waiting, queue_limit) matches Some(n) ==> n <= queue_limit,
        waiting == queue_limit ==> spec_admit_waiting(waiting, queue_limit) is None,
{
}

/// A queue below its limit admits a request and counts it; a queue at or above its limit
/// refuses.
pub proof fn lemma_admission(waiting: nat, queue_limit: nat)
    ensures
        waiting < queue_limit ==> spec_admit_waiting(waiting, queue_limit) == Some(waiting + 1),
        waiting >= queue_limit ==> spec_admit_waiting(waiting, queue_limit) is None,
        spec_admit_waiting(waiting, queue_limit) is Some <==> waiting < queue_limit,
{
}

/// Overload is answered as the service documents: a request that finds the queue full is
/// refused and answered with status 429, and a synthesis that runs out of time with 504.
pub proof fn lemma_overload_answers(waiting: nat, queue_limit: nat)
    requires
        waiting >= queue_limit,
    ensures
        spec_admit_waiting(waiting, queue_limit) is None,
        spec_status(ApiErrorKind::QueueFull) == 429,
        spec_status(ApiErrorKind::Timeout) == 504,
{
}

/// The argument list of the engine harness under the emulator: the emulator's library root,
/// the harness, the voice's engine fields, the native rate, pitch and volume, the output
/// path, the dictionary and licence paths, and the engine's name.
pub open spec fn spec_harness_arguments(
    rootfs: Seq<char>,
    harness: Seq<char>,
    voice: EngineVoice,
    rate: i32,
    pitch: i32,
    volume: i32,
    pcm_path: Seq<char>,
    dictionary: Seq<char>,
    license: Seq<char>,
) -> Seq<Seq<char>> {
    seq![
        "-L"@,
        rootfs,
        harness,
        voice.language@,
        voice.country@,
        voice.variant@,
        voice.voice_id@,
        decimal(rate as int),
        decimal(pitch as int),
        decimal(volume as int),
        pcm_path,
        dictionary,
        license,
        "tospeak"@,
    ]
}

/// The characters of each string of a list.
pub open spec fn strings_view(v: Seq<String>) -> Seq<Seq<char>> {
    v.map_values(|s: String| s@)
}

/// Builds the harness's argument list for one synthesis.
pub fn harness_arguments(
    rootfs: &str,
    harness: &str,
    voice: &EngineVoice,
    rate: i32,
    pitch: i32,
    volume: i32,
    pcm_path: &str,
    dictionary: &str,
    license: &str,
) -> (args: Vec<String>)
    ensures
        strings_view(args@) == spec_harness_arguments(
            rootfs@, harness@, *voice, rate, pitch, volume, pcm_path@, dictionary@, license@,
        ),
{
    let mut args: Vec<String> = Vec::new();
    args.push("-L".to_owned());
    args.push(rootfs.to_owned());
    args.push(harness.to_owned());
    args.push(voice.language.clone());
    args.push(voice.country.clone());
    args.push(voice.variant.clone());
    args.push(voice.voice_id.clone());
    args.push(i32_to_decimal(rate));
    args.push(i32_to_decimal(pitch));
    args.push(i32_to_decimal(volume));
    args.push(pcm_path.to_owned());
    args.push(dictionary.to_owned());
    args.push(license.to_owned());
    args.push("tospeak".to_owned());
    assert(strings_view(args@) =~= spec_harness_arguments(
        rootfs@, harness@, *voice, rate, pitch, volume, pcm_path@, dictionary@, license@,
    ));
    args
}

/// How the wait for the harness ended.
#[derive(Clone, Copy, Debug, PartialEq, Eq, Structural)]
pub enum WaitOutcome {
    /// The harness exited, successfully or not.
    Exited(bool),
    /// Waiting for the harness failed.
    WaitFailed,
    /// The harness ran past the time limit.
    TimedOut,
}

/// What a synthesis run does after the wait for the harness.
#[derive(Clone, Copy, Debug, PartialEq, Eq, Structural)]
pub enum RunStep {
    /// Read the PCM that the harness wrote.
    ReadOutput,
    /// Give up with a failure.
    Fail,
    /// Kill and reap the harness, then report a timeout.
    KillAndTimeOut,
}

/// The step after the wait: only a successful exit leads to the output; a failed exit or a
/// failed wait is a failure; a run past the time limit is killed and reported as a timeout.
pub fn after_wait(outcome: WaitOutcome) -> (r: RunStep)
    ensures
        outcome == WaitOutcome::Exited(true) ==> r == RunStep::ReadOutput,
        outcome == WaitOutcome::Exited(false) ==> r == RunStep::Fail,
        outcome == WaitOutcome::WaitFailed ==> r == RunStep::Fail,
        outcome == WaitOutcome::TimedOut ==> r == RunStep::KillAndTimeOut,
{
    match outcome {
        WaitOutcome::Exited(true) => RunStep::ReadOutput,
        WaitOutcome::Exited(false) => RunStep::Fail,
        WaitOutcome::WaitFailed => RunStep::Fail,
        WaitOutcome::TimedOut => RunStep::KillAndTimeOut,
    }
}

/// A relative path appended to a base path as `Path::join` does on Unix: a separator goes
/// between them unless the base is empty or already ends with one.
pub open spec fn join_relative(base: Seq<char>, relative: Seq<char>) -> Seq<char> {
    if base.len() == 0 || base.last() == '/' {
        base + relative
    } else {
        base + seq!['/'] + relative
    }
}

fn join_relative_path(base: &str, relative: &str) -> (r: String)
    ensures
        r@ == join_relative(base@, relative@),
{
    let mut joined = base.to_owned();
    let n = base.unicode_len();
    if n > 0 && base.get_char(n - 1) != '/' {
        proof { reveal_strlit("/"); }
        joined.append("/");
    }
    joined.append(relative);
    joined
}

/// The engine's dictionary directory and licence file under the emulator's root file system.
pub fn engine_data_paths(rootfs: &str) -> (r: (String, String))
    ensures
        r.0@ == join_relative(rootfs@, "system/media/TTS/"@),
        r.1@ == join_relative(rootfs@, "system/etc/TTS/libtts_uselimit.bin"@),
{
    (
        join_relative_path(rootfs, "system/media/TTS/"),
        join_relative_path(rootfs, "system/etc/TTS/libtts_uselimit.bin"),
    )
}

/// Whether the start-up synthesis shows a healthy engine: it produced audio that is a WAVE
/// file of the expected format.
pub fn smoke_test_passed(outcome: &Result<Vec<u8>, EngineFailure>) -> (r: bool)
    ensures
        r == (outcome matches Ok(audio) && expected_format(wav_reader_format(audio@)) is Ok),
{
    match outcome {
        Ok(audio) => validate_wav(audio.as_slice()).is_ok(),
        Err(_) => false,
    }
}

} // verus!
