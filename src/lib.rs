//! Problem-details responses for error enums: each variant's attributes are
//! resolved and validated, and from them come the response metadata that an
//! API description registers and the rules that classify a value and build
//! its problem-details payload.

pub mod attr;
pub mod dispatch;
pub mod docs;
pub mod generate;
pub mod laws;
pub mod template;
