//! A shared in-memory counter service: a counter that starts at zero and
//! only ever grows, the handlers that read and increment it, and the exact
//! text of the responses they build.

pub mod counter;
pub mod handlers;
pub mod text;
