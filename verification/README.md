# irlume-cli

The command line of irlume, local face authentication.

- `src/` is the library: what the commands decide, verified with Verus. It
  reads arguments, routes commands, negotiates the machine contract, plans
  requests to the daemon, and says what is printed and with which exit code.
  Its functions take what was observed (the daemon's answer, what a file holds,
  what a probe found) as plain values.
- `app/` is the program around it: the terminal, the daemon's socket, files and
  other programs, and the measurements of the developer tools, which are
  floating point. What it hands to the library it finds out itself: the facts
  that the companion programs supply, the family of the distribution, and
  whether a stored record is of a schema this version reads.
- `tests/` runs the library on concrete values.

Where to begin: `route.rs` (which command an argument list means), `machine.rs`
(documents for machines), `rollback.rs` and `apply.rs` (login transactions as
state machines), `doctor.rs` and `hardware.rs` (the health report), `text.rs`
(the text functions that the contracts are stated over).
