use vstd::prelude::*;

/// The bounded conversation log and its rendered context.
pub mod conversation;
/// The state machine that drives one streamed answer.
pub mod driver;
/// Line splitting and small text comparisons.
pub mod lines;
/// Backend selection, request bodies and wire-format parsers.
pub mod provider;

verus! {

} // verus!
