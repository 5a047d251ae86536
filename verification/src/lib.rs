use vstd::prelude::*;

pub mod text;
pub mod version;
pub mod daemon;
pub mod settings;
pub mod commands;
pub mod control;
pub mod number;
pub mod smc;
pub mod hardware;
pub mod mock;
pub mod install;
pub mod sensors;
pub mod cpu;
pub mod ui;
pub mod login;
pub mod platform;
pub mod setup;
pub mod dashboard;
pub mod ranking;
pub mod selection;
pub mod float_order;
pub mod local_control;
pub mod messages;
pub mod app_update;
pub mod cpu_headline;
