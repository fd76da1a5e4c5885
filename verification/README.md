# testbed

A testbed for network functions: a runner drives experiments on a machine
under test and a packet generator, which run a small device server each.

- `src/` is the verified library (Verus): the wire protocol and its framing,
  the device's dispatch of requests, command blocks, the rounds of its
  measurement loops, measurement decoding, the runner's request numbering, experiment configuration with
  prototype inheritance and value ranges, the commands and file names the
  runner builds, the order of steps of a data plane and of a measurement run, key-material naming, and a MAC-swapping network function.
  Public `law_*` proof functions state properties that span operations.
- `tests/` runs the library on concrete values.
- `app/` is the program around it: command lines, TLS websocket connections,
  process spawning, serial-port and file I/O, serde forms of the library's
  types, and the loops that carry out what the library decides.
