//! Pass execution and resource binding for a render graph: graph resource
//! references become descriptor bindings, pipeline binds materialize only the
//! descriptors that a pipeline's layout declares, render passes reuse
//! framebuffers by the shape of their attachments, and everything is recorded
//! as commands in call order.
pub mod resource;
pub mod attachments;
pub mod command;
pub mod pipeline;
pub mod registry;
pub mod framebuffer;
pub mod descriptor_set;
pub mod pass_api;
