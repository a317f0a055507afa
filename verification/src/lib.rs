//! Native-messaging helper that bridges code questions to a terminal
//! multiplexer session: length-prefixed framing, request decoding, message
//! formatting, target resolution, dispatch planning, and response encoding.

pub mod decode;
pub mod dispatch;
pub mod format;
pub mod framing;
pub mod jsontext;
pub mod laws;
pub mod lines;
pub mod msg;
pub mod numfmt;
pub mod target;
