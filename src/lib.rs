//! Deterministic, seed-driven text mangling: each character of the input is
//! replaced by a noise character, upper-cased or lower-cased, as decided by
//! the output stream of a ChaCha12 generator seeded from a `u64`.

pub mod stream;
pub mod engine;
pub mod envelope;

pub use engine::{wobble, WobbleOptions, DEFAULT_CHANCE};
pub use envelope::{wobble_api, WobbleRequest, WobbleResponse};
pub use stream::CHANCE_ONE;
