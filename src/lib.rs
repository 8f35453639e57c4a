//! Early bring-up of a multi-core machine: electing the bootstrap core,
//! resolving the hardware descriptor once, laying out per-core stacks,
//! planning which cores to wake, and rendering console text.

pub mod coordinator;
pub mod descriptor;
pub mod election;
pub mod launcher;
pub mod stack;
pub mod text;
