//! A plugin host: the policy, registry and gateway rules by which sandboxed
//! plugins are loaded, looked up and allowed to reach the outside world.

pub mod host;
pub mod host_name;
pub mod http;
pub mod plugin_config;
pub mod plugin_manager;
pub mod plugin_runtime;
pub mod rest;
pub mod server;
pub mod text;
pub mod wasm;
