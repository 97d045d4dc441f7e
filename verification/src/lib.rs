//! Build-time shader pipeline: structure registration, source resolution,
//! placeholder substitution and stage classification, with the decisions of a
//! shader build expressed as a state machine whose outside work is done by the caller.

pub mod attribute;
pub mod error;
pub mod mapper;
pub mod placeholder;
pub mod registry;
pub mod shader;
pub mod source;
pub mod stage;
pub mod structure;
pub mod text;
