# rs_dotnet

Hosting logic for an embedded .NET runtime, verified with Verus.

- `src/hosting.rs`: the hosting protocol as a state machine. From the
  outcome of each native call (hostfxr path query, library load, runtime
  initialisation, delegate request, close, assembly load) it decides the
  next call and its arguments, until the managed entry point is handed out
  or a step fails. `next` states the protocol; laws about it follow.
- `src/wide.rs`, `src/c_string.rs`, `src/host_path.rs`: the encodings of
  strings for the native host (UTF-16 with terminator, NUL-terminated UTF-8),
  decoding and trimming of the hostfxr path, and joining the assembly path.
- `src/fib.rs`: the start-up benchmark's Fibonacci workload.
- `src/file.rs`, `src/student.rs`, `src/linux.rs`, `src/platform.rs`: the
  file-watch callback registration, the student record shared with managed
  code, and the platform's up-front library load.
- `app/`: the program around the library: the native calls (nethost,
  libloading, the Windows loader), the exported functions for managed code,
  the plugin directory watcher and `main`.
