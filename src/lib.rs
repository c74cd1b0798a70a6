pub mod hit;
pub mod interval;
pub mod ppm;
