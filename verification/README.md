# everything-ipc

A client for the named-pipe IPC interface of the Everything 1.5 search service, with its
protocol logic verified in Verus.

- `src/` — the verified library: the pipe name (`pipe_name`), the wire header and response
  codes (`wire`), errors (`error`), raw handles (`handle`), the chunked overlapped transfer
  (`transfer`), the request/response exchange (`request`), connecting with retries and the
  fallback instance (`connect`), and the client (`client`). Each I/O-driving part is a state
  machine: it names the next pipe or kernel operation, and its caller hands back the outcome.
- `app/` — the Windows side: it performs the Win32 calls (`CreateFileW`, `CreateEventW`,
  `WriteFile`, `ReadFile`, `WaitForMultipleObjects`, `GetOverlappedResult`, `SetEvent`) that
  the machines ask for, sleeps with tokio between attempts, offers the `bon` builder for
  connecting, and the `thiserror` form of the error type.
- `tests/` — tests of the library, driving the machines with scripted outcomes.
