# rt_engine

The decision core of a torrent session engine, written in Verus: which commands
the engine takes, which peers it admits, how a torrent is added, moved, verified,
restored and removed, which answers of the network it believes. The functions
that decide these have contracts, and the contracts are proved.

* `src/` is the verified library. Most of it are state machines: a machine is
  given the outcome of its last action and tells the next one. Public proof
  functions whose names begin with `law_` state what holds of several functions
  together.
* `tests/` runs the library on concrete values.
* `app/` is ordinary Rust around it: sockets, clocks, files, tasks and the
  environment. It performs actions and reports outcomes.

Times and durations are nanoseconds on one monotonic clock, unless a comment says
otherwise. The bounds of commands and of metainfo are fields of
`limits::EngineLimits`.
