# sync_linux_no_libc

Building blocks for futex-based synchronisation on Linux without libc.

- `src/timespec.rs`: absolute timestamps (`Timespec`), the checked addition
  of a `Duration`, and the conversion to the kernel's `timespec` layout.
- `src/futex.rs`: the arguments of the futex wait and wake calls and the
  state machine (`FutexWait`) that decides how a wait goes on after each read
  of the futex word and each return of the wait call.
- `app/lib.rs`: the system calls themselves (`clock_gettime`, `futex`), which
  follow the actions that the library returns.
