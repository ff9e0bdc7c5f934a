//! A typed event layer over the tagged objects of a messaging backend.

pub mod correlator;
pub mod decoder;
pub mod dispatcher;
pub mod errors;
pub mod family;
pub mod raw;
pub mod session;
pub mod text;
pub mod types;
pub mod wire;
