//! A minimal discrete-time resource-transfer environment.
//!
//! The model has two kinds of objects: containers, which hold a volume of
//! some material, and grabbers, which move volume from a source container to
//! a target container over a fixed transfer duration.
//!
//! Volumes and times are measured in whole units of type `u64`; the caller
//! chooses the granularity (for example, one unit per millilitre and one unit
//! per millisecond). All accounting is exact integer arithmetic, and volumes
//! and durations are non-negative by construction, so creation-time inputs
//! need no validation.
//!
//! The environment is a pure, synchronous state machine: an external driver
//! repeatedly activates grabbers and supplies time deltas. Time progression
//! policy, agent decisions and termination conditions all live in that
//! driver, not here.

mod container;
mod environment;
mod laws;
mod model;

pub use container::take_amount;
pub use container::Container;
pub use environment::ContainerId;
pub use environment::Environment;
pub use environment::Grabber;
pub use environment::GrabberId;
pub use environment::GrabberState;
pub use laws::lemma_advance_conserves_volume;
pub use laws::lemma_advance_preserves_idle_empty;
pub use laws::lemma_busy_exclusivity;
pub use laws::lemma_conservation_full_cycle;
pub use laws::lemma_conservation_split_cycle;
pub use laws::lemma_grab_conserves_volume;
pub use laws::lemma_grab_preserves_idle_empty;
pub use laws::lemma_no_early_deposit;
pub use laws::lemma_no_early_deposit_two_steps;
pub use model::EnvModel;
