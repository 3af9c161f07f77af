//! Everything a guest meets first: the host stand and the serving staff.

pub mod hosting;

pub mod serving;
