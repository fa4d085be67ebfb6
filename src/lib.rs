//! Provisioning of Linux root-filesystem instances: the distro catalog,
//! architecture names, the configuration file format, instance metadata,
//! instance-ID allocation, progress parsing and the install plan.

pub mod text;
pub mod error;
pub mod arch;
pub mod distro;
pub mod config;
pub mod instance;
pub mod progress;
pub mod installer;
pub mod ui;
pub mod i18n;
pub mod cli;
pub mod permissions;
