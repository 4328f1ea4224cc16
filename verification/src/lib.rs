//! The decisions of three pieces of a distributed search engine's client side, with proofs:
//!
//! * [`actor_handle`] and [`supervisor`]: driving an actor through its handle, and watching over
//!   its progress;
//! * [`service_discovery`]: turning cluster changes into clients of a service;
//! * [`error`]: the errors of the REST client.
//!
//! Nothing here waits, sends or sleeps. A function that the outside world interrupts takes what
//! came back as an [`Event`](actor_handle::Event) and says what to do next.

pub mod actor;
pub mod actor_handle;
pub mod error;
pub mod external;
pub mod service_discovery;
pub mod supervisor;
