pub mod available_skills_instructions;
pub mod diagnostics_switch;
pub mod format_text;
pub mod log_words;
pub mod message;
pub mod probe_lines;
pub mod probe_options;
pub mod probe_proxy;
pub mod probe_seconds;
pub mod probe_session;
pub mod redacted_uri;
pub mod skill_chunks;
pub mod skills_config;
pub mod socket_lines;
pub mod socket_snapshot;
pub mod tokens;
pub mod transport_diagnostics;
pub mod transport_event;
pub mod transport_history;
pub mod transport_lines;
pub mod transport_records;
pub mod transport_stream;
pub mod utf8_text;
pub mod websocket_connection;
