//! Message relay core for the Mythos desktop shell.
//!
//! The shell embeds a web-view editor inside a host GUI runtime. Two pieces
//! of logic connect them, and both live here, verified:
//!
//! - the editor bridge, which republishes a text payload from the web view
//!   on the host event bus under a fixed topic;
//! - the deep-link listener, which registers a custom URL scheme once at
//!   startup and republishes every URL the OS later delivers, in order,
//!   under a fixed topic.
//!
//! The host runtime itself (windows, the event bus transport, OS scheme
//! registration) stays outside: the functions here compute, from plain
//! values, exactly which events to publish and which setup decision to
//! take, and the unverified shell around the library performs them.

pub mod bridge;
pub mod deep_link;
pub mod event;
