//! State and decisions of a Bluetooth service that follows BlueZ over D-Bus.

pub mod calls;
pub mod commands;
pub mod data;
pub mod dbus;
pub mod error;
pub mod laws;
pub mod listener;
pub mod objects;
pub mod readings;
pub mod rfkill;
pub mod service;
pub mod signals;
pub mod text;
pub mod traces;
pub mod values;
pub mod views;
