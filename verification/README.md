# qwen-tts-app

A local text-to-speech front end for Qwen3-TTS GGUF models run by qwentts.cpp, either
through its `qwen-tts` command-line binary or through its shared library (`qwen.dll`,
`libqwen.so`, `libqwen.dylib`).

## Layout

- `src/` — the library, verified with Verus:
  - `config` — settings and their defaults;
  - `commands` — how a `synth` command resolves its options (command line, then
    configuration, then built-in defaults), device names, default paths, setup scripts;
  - `downloader` — Hugging Face URLs, the default model files, the steps of a download
    (the default models, the check that offers them, the files named on the command
    line), the prompts and summaries around them;
  - `gguf_probe` — GGUF metadata, the talker/codec checks and the inspection report;
  - `qwentts_cli` — the `qwen-tts` command line and the steps of a process run;
  - `qwen_ffi` — the shared library's errors, ABI check, C-string checks, the WAV
    encoding and the steps of a synthesis through the library;
  - `gui` — the studio's log, form, request, device list and font candidates;
  - `text` — decimal formatting and the string calls the rest relies on.
- `app/` — the program: argument parsing, configuration file, HTTP downloads, GGUF file
  reading, process spawning and the shared-library calls, each step decided by `src/`.
- `tests/` — tests of the library on concrete values.

## What is missing

The desktop studio (the `gui` subcommand and its window, audio playback and
single-instance lock) is not part of this build: its toolkit (`eframe`) and audio crate
(`rodio`) would bring the dependency tree past what this build allows. Its rules (the
form, the request it makes, the devices and fonts it offers, the log) are in `src/gui.rs`;
the command-line commands are complete.
