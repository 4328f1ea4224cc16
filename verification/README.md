# quickwit_clients

The decisions on the client side of a distributed search engine, verified with Verus:

* `src/actor.rs`, `src/actor_handle.rs`, `src/supervisor.rs`: the handle of an actor, and the
  supervision that kills an actor without a sign of progress;
* `src/service_discovery.rs`: the changes of a cluster as a stream of clients of a service;
* `src/error.rs`: the errors of the REST client;
* `src/external.rs`: the types and functions of other crates that the library relies on, with the
  contracts that are believed of them.

The library never waits. A method that depends on the outside world takes an event and answers
with the next action; `app/` performs the actions on tokio and implements the traits of other
crates. Each law of the library is a proof function named `law_...` beside the code it is about.
