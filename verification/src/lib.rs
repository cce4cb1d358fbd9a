//! Verified core of a webhook relay that translates Azure Monitor
//! common-schema alerts into Slack notification messages.
//!
//! The library decodes an inbound alert payload into a typed model,
//! derives display attributes from it, renders a deterministic text
//! message, and plans the outbound forwarding request.  The HTTP
//! plumbing around it lives outside the library.

pub mod decode;
pub mod json;
pub mod model;
pub mod payload;
pub mod relay;
pub mod render;
pub mod text;
