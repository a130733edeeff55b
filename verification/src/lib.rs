//! A disk-imaging library: device reference parsing, device enumeration,
//! open-with-fallback resolution, and a chunked copy engine.

pub mod copy;
pub mod enumerate;
pub mod identifier;
pub mod memio;
pub mod opener;
pub mod sim;
pub mod stream;
