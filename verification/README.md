# oido

Local voice dictation and reading aloud. The decisions of the program live in
a library that is verified with Verus; the program around it does the input and
output.

## Layout

- `src/` — the verified library.
  - `text` — texts as sequences of characters: trimming, searching, numerals,
    alphabetical order.
  - `config`, `models`, `startup`, `diagnostics` — the preferences, the
    catalogue of speech models, what is decided before the first dictation, and
    the reports.
  - `control`, `listener`, `lifecycle` — the control loop as a state machine:
    each message gives the next state and a list of effects.
  - `tray` — the menu as a tree, its texts in three languages, and the popup
    window: layout, keyboard, messages and painting.
  - `tts` — the two speech engines up to the inputs of their graphs: the Piper
    voice configuration and phoneme encoding, the Kokoro vocabulary, the array
    files of its voices and the bank of styles.
  - `updater` — releases, checksums, signatures, the schedule, and an update as
    a state machine that installs nothing whose checksum is not right, or whose
    signature is wrong or, where the installer requires one, missing.
- `tests/` — tests on concrete values.
- `app/` — arguments, files, the network, threads and the inference runtime.

## Conventions

A function that needs something from outside takes what was read as an
argument: a file comes as `Result<Vec<u8>, String>`, a downloaded release as a
value. Where a step waits for the outside, the library returns what to do next
and is told how it went.

Floats never enter the library. Audio samples, style vectors and scales are the
bit patterns of 32-bit floats, and speeds are thousandths.

Contracts speak of views: a text is its sequence of characters, an error is its
fault, a list of effects is the sequence of their values. Properties that span
several functions are public proof functions at the end of their module.

## What is trusted

Calls into other crates stand behind small functions whose contracts are not
proved: `sha2`, `hex` and `minisign-verify` in `updater::verify`, `self_update`
in `updater::github`, `zip` in `tts::kokoro::voices`, `misaki-rs` in
`tts::kokoro::g2p`, `piper-plus-g2p` and `serde_json` in `tts::piper::g2p`, and a
few functions of the standard library. Each says in its comment what it claims.
