# example_service

The verified core of a small gRPC service that stores text records under
UUID keys.

- `src/` (Verus): the interface's messages (`proto`), the stored records
  (`entities`), the conversions between them (`conversion`, with the UUID
  text handled by the `uuid` crate behind the trusted items of `ids`), the
  decisions each service call makes before and after its database query
  (`handlers`, `persistence`), and the builders of the service core and of
  the server (`service_core`, `server`).
- `app/`: what does input and output: the sea-orm database layer, the
  service calls that run the library's decisions around their queries, the
  conversion into tonic's statuses, and the binding of the server's socket.
- `tests/`: tests of the library on concrete values.
