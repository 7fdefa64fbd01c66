//! Bring-up of a wireless station interface, as a verified decision core.
//!
//! The radio, the network stack and the prober belong to the caller. This
//! library decides: which channel a scan result yields, what configuration is
//! handed to the radio, which step follows which outcome, and whether the
//! gateway counts as reachable.
//!
//! A caller makes a [`identity::TargetIdentity`] and an
//! [`orchestrator::Orchestrator`] for it, reports
//! [`orchestrator::Event::Start`], and from then on performs each
//! [`orchestrator::Action`] it is handed and reports the outcome as the next
//! event, until [`orchestrator::Orchestrator::result`] has the result.
//!
//! - [`identity`]: the target network and the limits on its name and secret
//! - [`scan`]: scan records, and the selection of the channel
//! - [`config`]: the configuration of both radio roles
//! - [`lease`]: addresses, the lease, and the handle of a finished bring-up
//! - [`probe`]: the counts of a probe run, and what they prove
//! - [`machine`]: the state machine of bring-up over plain values
//! - [`orchestrator`]: the executable orchestrator
//! - [`laws`]: what holds of the state machine on every input
//! - [`failure`]: the reasons for which bring-up fails

pub mod config;
pub mod failure;
pub mod identity;
pub mod laws;
pub mod lease;
pub mod machine;
pub mod orchestrator;
pub mod probe;
pub mod scan;
