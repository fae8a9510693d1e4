# zsh — verified in-editor completion core

The library behind zshrs's in-editor (LSP) compsys completion, verified
with Verus.

- `src/compsys/in_editor.rs` — requests, matches and responses; the
  client-side decision (`plan_request` over the clock readings that
  `complete_at` takes: cold start, cache hit, or a job for the shell
  thread); the shared service state with its invariant; the shell thread's job handling (`start_job`,
  `finish_job`); one dispatch (`dispatch_on_shell_thread`), which sets the
  editor state up as a fresh first Tab, runs the completion engine it is
  given and restores what it changed; the laws that tie them together.
- `src/compsys/compadd.rs` — the `compadd` capture shadow.
- `src/compsys/cursor.rs` — byte offsets read as character positions.
- `src/compsys/clock.rs` — the monotonic clock, read through std.
- `src/hooks.rs` — the `@`-prefix handler slot and native commands.
- `src/daemon/builtins.rs` — daemon builtins when no daemon is linked.
- `app/` — process plumbing: the shell thread, its bounded queue and
  reply channels, process-wide state, thread-local exec policy, the
  shared live capture, and the `tracing` / `ZSHRS_CAPDBG` diagnostics.
