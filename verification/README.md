# self_update_extras

A wrapper for `self_update` backends that diverts standard output (fd 1) to
standard error or to the null device while the wrapped update runs, so that a
headless update cannot corrupt a stdio protocol stream.

- `src/` is the verified library: the sink and builder (`silence`), the
  redirect protocol as a state machine (`redirect`), the model of its effects
  on the process's descriptors with the laws every session keeps (`effects`),
  and the mapping from an update's outcome to its status (`status`).
- `app/` implements `self_update::update::ReleaseUpdate` for the wrapper and
  performs each step the protocol decides with `libc` (Unix) or the Win32
  standard-handle calls (Windows).
