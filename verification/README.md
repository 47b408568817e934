# nuwax-codex-acp

Per-process configuration of a coding agent's language model. Overrides of the
model, its provider, its context window, its protocol and the agent's
personality come from `CODEX_*` environment variables or from an embedding
application, and are applied to a loaded configuration.

- `src/` is the library, verified with Verus.
  - `runtime_overrides`: the overrides, how they are read, and what they make of
    a configuration.
  - `config`: the part of a configuration that overrides read and change.
  - `startup`: where the log goes, and how a failed start is reported.
  - `table`: values under distinct names.
  - `text`: trimming, ASCII case folding and decimal integers.
  - `laws`: what holds of overrides as a whole.
- `tests/` runs the library.
- `app/` is the program around it: the command line, the environment, the log,
  the Codex configuration and the protocol connection. `main.rs` is the command,
  and `lib.rs` offers the entry points to embedding programs. It needs the Codex
  crates.

The personality feature belongs to the host. `personality_switch` says what the
host has to switch it to, the host tries, and the outcome goes into applying the
overrides.
