//! The logic of the WaspScripts Simba installer: the installation run, the
//! wizard's pages, the silent mode and the icon.

pub mod action;
pub mod behaviour;
pub mod course;
pub mod http;
pub mod icon;
pub mod install;
pub mod laws;
pub mod message;
pub mod release;
pub mod silent;
pub mod text;
pub mod wizard;
