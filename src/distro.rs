//! The distro catalog and its entries.

pub mod name;
pub mod definition;
pub mod adelie;
pub mod debian;
pub mod arch;
pub mod redhat;
pub mod others;
pub mod catalog;
pub mod meta;
