//! Request handling for a character preview service: parameter normalization,
//! packed-color decoding, name lookups, the enrichment rate gate and the
//! serialized render queue.

pub mod float_bits;
pub mod color;
pub mod names;
pub mod params;
pub mod gate;
pub mod queue;
