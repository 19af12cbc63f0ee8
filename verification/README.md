# kakapo

Kakapo types text into another window on Windows, one Unicode keystroke at a time,
with a human-like rhythm. This crate is its core, verified with Verus.

- `src/` — the verified library:
  - `rng` — the linear congruential generator behind the typing jitter;
  - `keyboard` — the key events that type a character (Enter for line breaks,
    UTF-16 code units otherwise) and the judgement of each `SendInput` result;
  - `session` — the state machine that drives typing: which batch to send next,
    when to wait, pause, resume or stop, and when typing is over;
  - `typing` — the spurt pattern of fast and slow typing;
  - `window_manager` — which enumerated windows the list shows;
  - `ui` — the window list's state and what its panel shows.
- `app/` — the Windows program around it: the gpui user interface, the Win32 calls,
  and the floating-point delay arithmetic.
- `tests/` — tests of the library on concrete values.
