//! Calendar-time computations for astronomical position work: the Julian
//! Date of a UTC instant, counted exactly in seconds.
pub mod time;
