//! Typed event dispatch: listeners registered under distinct identities,
//! emissions that work from a snapshot of the registry, and listeners that
//! steer each emission by what they return.

mod dispatch;
mod laws;
mod signal;

pub use laws::{
    break_halts, clear_empties, fan_out, holds_once, lemma_without, registration_round_trip,
    removal_correctness, snapshot_isolation, unsubscribe_halts,
};
pub use dispatch::{after_emission, is_emission, settled, Dispatch, Invocation};
pub use signal::{is_registry, without, Callback, ListenerId, Signal, SignalCtor};
