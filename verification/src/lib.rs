//! Control logic of a small arcade driving game: which keys turn into which
//! driving events, how the car's velocity and suspension tuning are nudged,
//! when the car respawns, how tires are steered and which tires push on the
//! car. The engine side (rendering, physics, the floating-point maths) lives
//! around this library and hands it plain values.

pub mod input;
pub mod forcer;
pub mod character;
