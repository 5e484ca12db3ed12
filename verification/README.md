# rck_core

Rich terminal output with proofs: kitty-graphics image frames, OSC 8
hyperlinks, OSC 52 clipboard writes, OSC 133 task markers, box-drawn panels
and progress bars (with tmux passthrough and an ASCII fallback), plus the
logic of the klipdot image-capture daemon. Every function in `src/` carries a
contract that Verus checks.

Layout:

- `src/` — the verified library.
  - `capabilities`, `emit`, `encoder`, `image_data`, `panel`, `progress`,
    `shader`, `spans`, `width`, `interactive` — terminal capabilities and the
    renderers; `text` and `b64` hold shared string and base64 helpers.
  - `klipdot/` — configuration, errors, clipboard image recognition, shell
    hooks and their installer, process interception, previews, output
    monitoring and service bookkeeping.
- `tests/` — tests run against the compiled library.
- `app/` — the `rck` command line program and klipdot's I/O (files,
  processes, clipboard tools, the polling loops).

Verify with `verus` on `src/lib.rs`; the outside crates (`base64`, `hex`,
`regex`, `image`, `unicode-segmentation`, `unicode-width`) are called through
a few trusted wrappers whose contracts state what each call returns.

Keyed tables (the TUI applications, the screenshot tools' arguments, the
process monitors, shell aliases and environment variables) are vectors of
`(key, value)` pairs rather than hash maps keyed by strings: contracts over
them can say exactly what each table holds and in what order. The
constructors state that no key occurs twice, and the functions that look a
key up require it.
