//! A uniform query gateway: a connection registry keyed by caller-chosen
//! identifiers, a dispatcher that routes query text to the backend owning an
//! identifier, and decoders that turn each backend's probed cell values into
//! one backend-agnostic result shape.

pub mod binary;
pub mod cascade;
pub mod command;
pub mod dispatch;
pub mod registry;
pub mod render;
pub mod values;

