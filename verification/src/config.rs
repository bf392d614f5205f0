//! The validated configuration value the pipeline is handed at startup.

use vstd::prelude::*;

use crate::allow_list::AllowList;

verus! {

/// Verbosity vocabulary of the stream client.
#[derive(Clone, Copy, Debug, PartialEq, Eq, Structural)]
pub enum LogLevel {
    Emerg,
    Alert,
    Critical,
    Error,
    Warning,
    Notice,
    Info,
    Debug,
}

/// Verbosity vocabulary of the process-wide logger.
#[derive(Clone, Copy, Debug, PartialEq, Eq, Structural)]
pub enum GlobalLogLevel {
    Off,
    Error,
    Warn,
    Info,
    Debug,
    Trace,
}

/// Connection endpoints, topic names, allow-lists and tuning values,
/// already validated by the bootstrap layer.
pub struct FilterConfig {
    pub filter_log_path: String,
    pub bootstrap_servers: String,
    pub kafka_consumer_group_id: String,
    pub postgres_connection_str: String,
    pub sasl_username: String,
    pub sasl_password: String,
    pub sasl_mechanism: String,
    pub security_protocol: String,
    pub update_account_topic: Option<String>,
    pub update_slot_topic: Option<String>,
    pub notify_block_topic: Option<String>,
    pub session_timeout_ms: String,
    pub fetch_message_max_bytes: String,
    /// Account events whose owner encodes to a member are persisted.
    pub filter_include_owners: AllowList,
    /// Account events whose public key encodes to a member are persisted.
    pub filter_include_pubkeys: AllowList,
    pub kafka_log_level: LogLevel,
    pub global_log_level: GlobalLogLevel,
}

} // verus!
