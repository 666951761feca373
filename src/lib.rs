//! Headset chat-mix agent core: report decoding, the reader and connection
//! state machines, device selection and audio routing decisions.

pub mod report;
pub mod reader;
pub mod supervisor;
pub mod text;
pub mod sidetone;
pub mod backoff;
pub mod locator;
pub mod router;
