# JetGraph client

A client for JetGraph, an in-memory graph engine that is spoken to over gRPC.

- `src/` is the library `jetgraph_client`: everything that a client decides and computes. It
  builds each request from what the caller says and reads each reply into a result or an error.
  Listings that take several calls are state machines. Every function carries a contract that
  Verus proves; public proof functions named `law_..` state what holds across functions.
- `app/` is the async client around it: connections, calls, the clock, and floating-point
  numbers. It reaches the engine through the service traits in `app/service.rs`, which the stubs
  generated from the engine's `.proto` files implement.
- `tests/` run the library on concrete values.

Inside the library a floating-point number is carried by its bit pattern (`Float32`, `Float64`).
What the library takes on trust is small: two conversions into `String`, and that
`tonic::transport::Endpoint::from_shared` judges an endpoint by its text alone.
