use tospeak::config::{EngineVoice, TextEncoding};
use tospeak::engine::{admit_waiting, after_wait, engine_data_paths, harness_arguments, RunStep, WaitOutcome};

#[test]
fn queue_admits_until_its_limit() {
    assert_eq!(admit_waiting(0, 8), Some(1));
    assert_eq!(admit_waiting(7, 8), Some(8));
    assert_eq!(admit_waiting(8, 8), None);
    assert_eq!(admit_waiting(0, 0), None);
    let mut waiting = 0;
    while let Some(next) = admit_waiting(waiting, 3) {
        waiting = next;
    }
    assert_eq!(waiting, 3);
}

#[test]
fn builds_the_harness_command_line() {
    let voice = EngineVoice {
        language: "jpn".to_owned(),
        country: "JPN".to_owned(),
        variant: String::new(),
        voice_id: "female01".to_owned(),
        encoding: TextEncoding::Cp932,
    };
    let args = harness_arguments(
        "/opt/tts/rootfs",
        "/usr/local/bin/tts-harness",
        &voice,
        -10,
        0,
        100,
        "/tmp/tts/request-1/output.pcm",
        "/opt/tts/rootfs/system/media/TTS/",
        "/opt/tts/rootfs/system/etc/TTS/libtts_uselimit.bin",
    );
    assert_eq!(
        args,
        vec![
            "-L",
            "/opt/tts/rootfs",
            "/usr/local/bin/tts-harness",
            "jpn",
            "JPN",
            "",
            "female01",
            "-10",
            "0",
            "100",
            "/tmp/tts/request-1/output.pcm",
            "/opt/tts/rootfs/system/media/TTS/",
            "/opt/tts/rootfs/system/etc/TTS/libtts_uselimit.bin",
            "tospeak",
        ]
    );
    let extremes = harness_arguments("r", "h", &voice, i32::MIN, i32::MAX, 7, "p", "d", "l");
    assert_eq!(extremes[7], "-2147483648");
    assert_eq!(extremes[8], "2147483647");
    assert_eq!(extremes[9], "7");
}

#[test]
fn decides_after_the_wait() {
    assert_eq!(after_wait(WaitOutcome::Exited(true)), RunStep::ReadOutput);
    assert_eq!(after_wait(WaitOutcome::Exited(false)), RunStep::Fail);
    assert_eq!(after_wait(WaitOutcome::WaitFailed), RunStep::Fail);
    assert_eq!(after_wait(WaitOutcome::TimedOut), RunStep::KillAndTimeOut);
}

#[test]
fn joins_engine_data_paths_as_path_join_does() {
    for rootfs in ["/opt/tts/rootfs", "/opt/tts/rootfs/", "", "rootfs", "/", "/opt/ルート"] {
        let (dictionary, license) = engine_data_paths(rootfs);
        let base = std::path::Path::new(rootfs);
        assert_eq!(dictionary, base.join("system/media/TTS/").to_string_lossy(), "{rootfs:?}");
        assert_eq!(license, base.join("system/etc/TTS/libtts_uselimit.bin").to_string_lossy(), "{rootfs:?}");
    }
}
