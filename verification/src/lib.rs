//! Error-catching pipeline: when a request ends in an HTTP error status and no
//! body has been written, an ordered chain of interception handlers runs and,
//! failing custom interception, a negotiated default error page is rendered.

pub mod catcher;
pub mod digits;
pub mod encode;
pub mod http;
pub mod media;
pub mod serve_fs;
pub mod serve_static;
pub mod status;
