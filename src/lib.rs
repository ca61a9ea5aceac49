//! Connect-event handlers: typed extraction from the connection context,
//! handlers of up to sixteen extracted parameters, and their type-erased form.
pub mod extract;
pub mod handler;
pub mod socket;
