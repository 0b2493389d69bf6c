# sapling_io

The state behind the I/O handle of a version-control command line: which
stream a write goes to, when the progress area on the terminal is cleared or
redrawn, how the pager is configured, started and waited for, and the
parameter block of the xdiff bindings.

Each operation on the state (`IOState::write`, `write_err`, `set_progress`,
`flush`, `disable_progress`, `start_pager`, `wait_pager_and_restore`, ...) is
a `Script`: the I/O actions to perform in order, the state to keep when an
action fails, and the state when all succeed. Every script is proved equal to
its specification in `IOStateView`, and `laws` proves what holds across
calls (nested progress disabling, progress never drawn while disabled or
while a line is unfinished, clearing and waiting being idempotent, progress
only shown where a terminal is).

Layout:

- `src/` — the verified library (Verus).
- `tests/` — tests of the library.
- `app/` — the I/O handle itself (`IO`, `IOOutput`, `IOError`,
  `IOProgress`): it holds the streams, the terminal and the pager, and
  performs the scripts that the library returns.
