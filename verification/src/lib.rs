//! Bridge from publish/subscribe channels to invocation targets: the rules
//! that decide which channels feed which targets, how a raw message becomes a
//! queue-shaped event, and how each channel's worker reacts to what happens
//! on its subscription.

pub mod attributes;
pub mod digest;
pub mod error;
pub mod ident;
pub mod invoke;
pub mod json;
pub mod message;
pub mod mode;
pub mod pairs;
pub mod resolve;
pub mod supervisor;
pub mod text;
pub mod worker;
