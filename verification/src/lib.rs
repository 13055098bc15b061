//! A battery-charge watcher that is run once per poll.
//!
//! Each run compares the charge that was recorded by the previous run with the
//! charge observed now and raises an alert only when the charge has fallen
//! through a threshold in between. The library holds the rules: which alert a
//! pair of readings calls for, what the alert says, how the recorded charge is
//! laid out in bytes, and which of the enumerated batteries is the one asked
//! for. Reading the hardware, touching the disk and showing the alert are left
//! to the caller, which hands in and takes back plain values.

pub mod monitor;
pub mod notice;
pub mod probe;
pub mod state;
pub mod threshold;
