# cacheexec

Caches the stdout, stderr and exit code of a non-interactive command. The
library in `src/` holds the decisions, data formats and protocols as verified
Rust: Verus proves every function against its contract. The program in `app/`
observes the world (files, locks, processes, signals, the clock), hands what it
observed to the library as plain values, and carries out what the library
decides.

- `src/domain/` decides: which results are reused, saved or removed, what the
  stored and shared files hold, which key a command has, and what is reported.
- `src/shell/` holds the steps of an invocation as state machines. Each says
  what it needs next (`action`) and decides what follows from the answer
  (`step`). Its laws speak of every sequence of answers.
- `src/bytes.rs`, `src/text.rs`, `src/time.rs`, `src/error.rs` and
  `src/digest.rs` are the plain values that the rest is made of.
- `src/cli.rs` is the edge of the program: directories, diagnostics and exit
  statuses.

Three calls are believed rather than proved: SHA-256 (`sha2`), the text of a
time span (`humantime`) and the lossy decoding of UTF-8 (`std`). Each stands in
a function of its own whose comment says what is claimed of it.
