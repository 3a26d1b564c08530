# devx_cmd

Commands for development scripts: a builder for them, and the course of their invocation,
verified with Verus.

- `src/` is the library. `Cmd` says what is to be invoked. A `Session` is an invocation
  under way: it says which action is to be taken next, is told what came of it, and goes on
  from there to its result. A `Search` looks for a binary in the same way, and `Lines` hands
  out the output of a process line by line.
  - `cmd`, `input`, `process`, `error`: the data, and how it is shown in messages.
  - `session`, `invoke`, `lines`, `search`: what is decided, step by step.
  - `course`: what whole sessions do, whatever the system answers.
  - `laws`: what holds of the library as a whole.
  - `os`: the functions of `std` on which the proofs rely.
- `app/` drives the sessions: it starts the processes, writes and reads their streams and
  prints the lines to be logged. It has the macros `cmd!`, `run!`, `read!` and
  `read_bytes!`.
- `tests/` runs the library against systems that are made up.
