//! Verified core of a desktop controller for a Home Assistant climate device.
pub mod auto_power_on;
pub mod commands;
pub mod config;
pub mod ha_client;
pub mod models;
pub mod secure_store;
pub mod startup;
pub mod text;
pub mod tray;
