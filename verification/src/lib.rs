//! Update-gating decision layer of a host-local update agent.
//!
//! The library decides, at any moment, whether the agent may check for and
//! fetch a new update, whether it may finalize an already-fetched one, and
//! whether it should report itself as back in a quiescent steady state.
//! One strategy is selected from configuration at startup and held for the
//! agent's lifetime; every query into it settles to a boolean, never an
//! error, through a uniform fail-closed wrapper.

pub mod config;
pub mod identity;
pub mod strategy;
