# tokio_system_resolver

An async resolver over the system `getaddrinfo(3)` and `getnameinfo(3)` calls.
It delegates to the C library, and so sees `/etc/hosts`, NSS plugins, mDNS and
whatever else the host has configured.

The calls block, so they run on worker threads. A soft limit bounds the workers
that run under normal conditions, a hard limit bounds all of them, and a worker
that stalls gives its soft permit back early. Lookups that cannot block run on
the calling task.

## Layout

- `src/` is the library: every decision of the resolver, verified with Verus. It
  makes no system call, starts no thread and never waits.
  - `types`, `config`, `error`, `time`: requests, answers, configuration, errors.
  - `codes`: the numbers of `<sys/socket.h>` and `<netdb.h>`.
  - `text`: C strings and decimal numbers.
  - `ffi`: arguments and answers of the two system calls.
  - `resolver`: the course of a lookup, as a state machine.
  - `limits`: what the limits promise of all lookups together.
- `app/` drives the library with Tokio, threads and libc.
- `tests/` runs the library, with Tokio's semaphores and clock.

The proofs take the values of the C constants on x86-64 Linux with glibc.
