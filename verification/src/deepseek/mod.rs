//! The DeepSeek backend: its wire messages, the encoding of requests, the
//! decoding of responses and the reconstruction of streamed responses.

pub mod message;
pub mod tool;
pub mod rsp_req;
pub mod streaming;
pub mod completion;
