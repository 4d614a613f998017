# bevy_remote

The Bevy Remote Protocol (BRP), a JSON-RPC 2.0 protocol through which remote
clients inspect and alter the entities of a Bevy app.

- `src/` is the verified library:
  - `protocol.rs`: requests, responses, payloads, errors and batches, and the
    constructors of the protocol's errors;
  - `error_codes.rs`: the error codes, with the law that splits them between
    JSON-RPC's reserved range and the application's own;
  - `entity.rs`: entity identifiers and how messages write them;
  - `dispatch.rs`: what the app does with each pending request, the answer to
    a handler's run, and whether a request's channel is closed afterwards.
- `app/` is the Bevy plumbing: the plugin, the ECS components and systems that
  carry requests and run handlers, and the serde forms of the protocol objects.
- `tests/` runs the library on concrete requests and errors.
