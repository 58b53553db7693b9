//! The verified core of a space-landing game: its random generator, its
//! sprite drawing and the decisions of each tick of flight.
pub mod flight;
pub mod raster;
pub mod rng;
