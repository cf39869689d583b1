//! Lifecycle state machine and control protocol of a long-running service,
//! together with the administrative side that installs, queries, starts,
//! stops and removes such a service from outside.
//!
//! In-process side: `control` (control events and the cancellation signal),
//! `reporter` (status records and checkpoints), `worker` (workers and their
//! supervisor), `lifecycle` (registration, status pushes and the workers' run).
//! Administrative side: `waiter` (fixed-interval polling for a state), `admin`
//! (the removal policy and step sessions), `features` (the commands).

pub mod error;
pub mod state;

pub mod control;
pub mod lifecycle;
pub mod reporter;
pub mod worker;

pub mod admin;
pub mod features;
pub mod waiter;
