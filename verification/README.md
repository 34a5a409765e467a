# buttre-engine

A Vietnamese input engine: it turns keystrokes (Telex, VNI) into Vietnamese
syllables, places tone marks, undoes marks on a repeated key, validates
syllables, and runs the whole per-key pipeline (normalization, gatekeeper,
composition, orthography, learning, dictionary lookup, output diff).

The library under `src/` is written in Verus: each function states its
behaviour in `requires`/`ensures` clauses over mathematical models, and the
laws of the library (round trips, table properties, output edits) are proof
functions named `law_*`.

Layout:

- `src/text.rs` — character and string helpers, with the few calls into the
  standard library that the proofs take on trust.
- `src/buffer.rs` — the bounded input buffer.
- `src/tone/` — tone tables (apply/strip) and tone placement.
- `src/vowel/` — vowel clusters, vowel-sequence table, tone positioning.
- `src/compose/` — the recompute-from-keys composition engine: segment,
  transform, assemble, undo/toggle fallback.
- `src/pipeline/` — configuration and presets, typing context, stages, the
  executor, rules, dictionaries and syllable validation.
- `src/unicode/` — NFC/NFD normalization (through `unicode-normalization`)
  and the vowel-sequence lookup table.
- `app/` — logging setup and the SQLite-backed Nôm dictionary.
- `tests/` — unit and scenario tests.

Not included: the table of attested Vietnamese syllables (`is_attested`,
`is_shape_attested`, `is_attested_overlay`) and the learning snapshot with
the word-boundary repair built on it. Without the table, English
passthrough, once latched, lasts until the word ends, and the undo
fallback applies every mark that fired without an attestation gate.
