//! The request side: error replies, query parameters, and the decisions each
//! request goes through between arriving and being answered.

pub mod error;
pub mod exchange;
pub mod handlers;
