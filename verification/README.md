# rayrust

The logic of a Rust SDK for [Ray](https://ray.io), verified with Verus.

Ray's runtime is reached through a C interface to the Ray C++ SDK. The
library in `src/` holds everything that is decided around those calls, with
contracts proved by Verus:

- `serialize` — the nine-byte XLANG header that frames msgpack payloads
  exchanged with Python: building it, recognising it (by its length field
  alone, so metadata in the padding is accepted), framing and stripping, and
  decoding payloads into dynamic `rmpv::Value`s.
- `object_ref` — typed references to objects in the object store, with
  binary-safe IDs.
- `options` — job configuration and the arguments of the runtime's `init`,
  task resources and actor creation options, and the JSON the C interface
  takes for them.
- `runtime` — the runtime context, the request of each operation (what goes
  into the C call) and the meaning of its reply (value or error).
- `codegen` — the names of the callbacks, registrations and callers that the
  `remote` and `actor` attributes generate.
- `worker` — the example remote tasks and the counter actor.
- `text`, `error` — decimal, hex and JSON-string rendering, C-string
  sanitizing, joining, and the error type.

`app/` is the embedding side: the `extern "C"` bindings and the calls, the
RAII runtime context, generic serde encoding with rmp-serde, tokio plumbing,
float rendering of resource amounts, and the token generation of the two
attributes with syn and quote.

`tests/` exercises the library on concrete values.
