# tii

The core of an HTTP/1.1 server library, written in Verus: the functions in
`src/` carry contracts that Verus proves, except the few small trusted
wrappers around other crates and std, whose contracts are believed.

- `src/` — the verified library: request heads (start line, headers, query,
  cookies, accept and content types), mime types and quality values, status
  codes, responses and how they are written, body framing of requests,
  chunked transfer encoding, routing (route paths, matching, choosing a
  route, fallbacks), the WebSocket handshake, percent-decoding, and the path
  computations of the file endpoints. Laws that span functions are public
  proof functions (`lemma_*`).
- `app/` — ordinary Rust around the library: reading requests and their
  bodies from a connection, writing responses, a router that calls handlers,
  and file endpoints.
- `tests/` — tests of the library on concrete values.

Calls into other crates (urlencoding, libflate, sha1, base64, regex) are made
through small trusted functions whose contracts stand in their `ensures`
and are described in their doc comments.
