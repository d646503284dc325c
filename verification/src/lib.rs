//! Lifecycle engine for a stream-processing job: the state contract, the
//! transition and error model, the bounded-retry classification policy, and
//! the idempotent-resume protocol, with the compilation stage worked out in
//! full. External collaborators (the compiler service, the scheduler, status
//! persistence, logging) are consumed at their interface boundary only: a
//! stage's decisions are pure functions from its context and the
//! collaborator's response, so an unverified outer loop owns nothing but the
//! calls themselves.

pub mod compiling;
pub mod context;
pub mod driver;
pub mod error;
pub mod job;
pub mod stage;
