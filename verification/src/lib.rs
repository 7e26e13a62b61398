//! A terminal interface for setting up a dotfiles repository: the verified
//! decisions behind it.
pub mod status;
pub mod tab;
pub mod text;
pub mod config;
pub mod tools;
pub mod symlink;
pub mod app;
pub mod app_laws;
pub mod installer;
pub mod plans;
pub mod installer_laws;
pub mod catalogue_laws;
pub mod view;
