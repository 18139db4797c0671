//! Safe layer over the ROS client library's context lifecycle and its
//! node name and namespace validation.
//!
//! The native runtime itself is driven by the application; this library holds
//! the decisions around each native call: what may be handed to it, what its
//! result codes mean, and in which order the lifecycle calls may come.

pub mod context;
pub mod node;

pub use context::{ContextPhase, OptionsPhase, Ros, RosContext, RosInitError, RosOptions};
pub use node::{
    Node, NodeBuilder, NodeNameValidationError, NodeNamespaceValidationError, NodeOptions,
};
