//! The agent's settings.
use vstd::prelude::*;

verus! {

/// Broker access, device identity, sandbox options, storage and bundle
/// location, and the main loop's interval.
pub struct Config {
    pub eea_broker: String,
    pub eea_device_id: String,
    pub eea_access_key: String,
    pub eea_access_secret: String,
    pub eea_base_topic: String,
    pub eea_trace_topic_level: i32,
    pub eea_version: String,
    pub eea_stack_size: i32,
    pub eea_export_memory: bool,
    pub eea_disable_debug_msg: bool,
    pub eea_debug_symbols: bool,
    pub eea_bundle_gzip: bool,
    pub eea_bundle_path: String,
    pub eea_storage_size: i32,
    pub eea_storage_interval: i32,
    pub eea_storage_path: String,
    pub eea_main_loop_interval: u64,
}

} // verus!
