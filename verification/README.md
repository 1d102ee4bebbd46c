# whisper_typeless

The verified core of a speech-to-text typing assistant: recognised Chinese
text is cleaned up, converted between scripts with OpenCC, matched to a
scenario template, formatted and delivered; recordings are cut into speech
segments and push-to-talk keys drive the recorder.

Every function under `src/` is verified with Verus against its `requires` /
`ensures` contract. Laws that span several calls are public proof
functions whose names begin with `law_`.

## Layout

- `src/text.rs` — character-level helpers (trimming, search, decimal output).
- `src/transcription/` — post-processing (fillers, repeated phrases,
  full-width punctuation), OpenCC conversion, the transcription pipeline.
- `src/context_templates/` — the built-in templates, their registry, the
  keyword detector and the custom template store.
- `src/audio/` — chunking for resampling and speech segmentation.
- `src/output/` — output formatting, delivery plans, injection delay.
- `src/file_transcription/` — plain-text, SubRip and WebVTT export.
- `src/models/` — model ids and files, catalog choice, download checks.
- `src/settings/` — configuration sections, the window settings and the
  module registry.
- `src/whisper/` — recognition parameters and result assembly.
- `src/ui/` — hotkey parsing, push-to-talk, recording control, window icon
  pixels, window sizes and template editing.
- `src/app.rs` — recording phases and the bounded transcript history.
- `tests/` — tests of the library on concrete values.
- `app/` — a command-line front end: configuration and template files,
  media decoding and resampling in floating point, model catalog files.

The proofs rest on a few contracts taken on trust: the
`#[verifier::external_body]` functions that call `sha1`, `ferrous-opencc`
and a few `std` functions, the `assume_specification` of `String::push`,
and the declarations of the outside types they use.
