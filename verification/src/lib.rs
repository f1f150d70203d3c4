pub mod backend;
pub mod config;
pub mod fetch;
pub mod icons;
pub mod geodata;
pub mod log_buffer;
pub mod notification;
pub mod manager;
pub mod parser;
pub mod persistence;
pub mod pid;
pub mod ping;
pub mod proxy;
pub mod routing;
pub mod settings;
pub mod state;
pub mod strutil;
pub mod subscription;
pub mod tray;
pub mod sys;
pub mod update;
pub mod validation;

use vstd::prelude::*;

verus! {

} // verus!
