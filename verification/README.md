# protocol_spec

Protocol parsers described declaratively. A protocol is a tree of specs, built
with a typestate DSL (`builders`), that both reads (`deser`) and writes (`ser`)
the protocol's bytes. What is read is kept in a mapper (`mapper`) by spec path,
and looked up by protocol name through templates that a traversal of the spec
(`traverse`) makes.

The library's logic is verified with Verus against a mathematical model; the
few calls into std, memchr and chrono stand behind small trusted wrappers whose
contracts state what those functions document. In the model, the reader is a
view of its buffer, position, markers and the bytes still to come; reading and writing are spec functions on those views; the
mapper is a set of maps from names to paths and from paths to values.

Layout:

- `src/` the verified library; `src/http.rs` describes HTTP with it and holds
  the handlers of a small product service.
- `tests/` scenario tests of the library.
- `app/` the server program: sockets, the runtime, logging and JSON, around
  the library.
