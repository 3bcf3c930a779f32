# inquire

A library for building interactive prompts on terminals — text, password,
confirmation, custom-type, select, multi-select and date prompts — whose logic
is verified with Verus.

## Layout

- `src/` — the verified library. Each prompt is a state machine: it draws a
  frame on a backend and reacts to one key at a time (`handle_key`), answering
  with a `PromptStep`. The contracts state the text each frame shows, how every
  key changes the prompt's state, and when an answer, a cancellation or an
  error comes. Terminals keep what they send in memory, so the drawing is
  verified too; colors that depend on the environment are stated as the
  sequences the environment may produce.
- `src/*` laws — public proof functions named `law_*` state properties that
  span several calls (moves that undo each other, selections that stay within
  bounds, skippable prompts never reporting a cancellation).
- `tests/` — scenarios on concrete values, run against the compiled library.
- `app/` — the terminal side: raw mode, reading key presses, sending frames to
  the screen, the global render settings, and displayable errors.
