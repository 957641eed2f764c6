//! Supervision of a local backend service: choosing the TCP port it binds,
//! launching it through a prioritised list of strategies, waiting until it
//! answers health requests, and tearing it down again.
//!
//! The crate performs no input or output. Every component is a transition
//! function from the current state and the outcome of the last effect to the
//! next state and the next effect to perform; the embedding program carries
//! the effects out and reports back. What the steps add up to is stated and
//! proved beside them: which port a scan ends on, when a probe ends as
//! healthy, where a whole start ends, and that no process is ever lost.
//!
//! - [`port`]: the preferred port and the scan of the ephemeral range.
//! - [`discovery`]: the conventional places of the directories to look for.
//! - [`spawn`]: the launch strategies, their command lines and their order.
//! - [`readiness`]: the attempt-counted health probe.
//! - [`address`]: the URLs of the backend, as text.
//! - [`supervisor`]: the owner of the process, from start to teardown.
//! - [`startup`]: a whole start, followed through given surroundings.

pub mod address;
pub mod discovery;
pub mod port;
pub mod readiness;
pub mod spawn;
pub mod startup;
pub mod supervisor;
