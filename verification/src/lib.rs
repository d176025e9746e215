//! Resolution, provisioning and launch planning for the intelephense
//! language-analysis server, together with the workspace sub-command
//! dispatcher.
//!
//! The library decides, for one workspace, whether a usable server binary
//! already exists, whether it is current, whether it must be installed, and
//! how the final process invocation is built (directly, or bridged through a
//! proxy script). All filesystem, network and host lookups are performed by
//! the caller: the resolver hands out one [`resolve::Action`] at a time and is
//! fed the outcome as a [`resolve::Event`], so every decision along the way is
//! verified.

pub mod launch;
pub mod resolve;
pub mod slash;
