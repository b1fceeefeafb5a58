# tospeak

The verified core of an authenticated HTTP API in front of the ToSpeak G3
text-to-speech engine.

- `src/` is the library, checked by Verus:
  - `api.rs`: who may call which route, the voice listing filter, the checks of a
    synthesis request, the choice of its voice, the text summary that request logs
    carry in place of the text (through sha2), and the health report;
  - `config.rs`: settings read from the environment, the voice catalogue, and the
    text encodings the engine expects (through encoding_rs);
  - `engine.rs`: queue admission, the harness command line and data paths, the step
    after waiting for the harness, the start-up check;
  - `error.rs`: the status, code and message that each error is answered with;
  - `wav.rs`: framing raw PCM as a WAVE file and checking a WAVE header (through hound);
  - `text.rs`: string comparison, decimal numbers and lower-case hexadecimal.
- `app/` is the axum/Tokio server around it: HTTP plumbing, the child process, files,
  environment, logging, JSON and YAML, and the floating-point parameter mapping.
- `tests/` runs the library on concrete inputs.
