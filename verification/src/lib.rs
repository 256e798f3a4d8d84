//! Bootstrap and shared-state coordination for a chat-gateway bot that runs
//! alongside an HTTP API server.
//!
//! The crate holds the decision logic of that process: loading the settings
//! exactly once, resolving the bot's own identity from the platform's
//! application-info response, building the command dispatch table and matching
//! inbound text against it, keeping the write-once registry of shared
//! resources, and the state machines of the gateway connection and of the
//! process as a whole. All I/O stays with the caller, which hands plain
//! values in and carries the returned actions out.

mod dispatch;
mod gateway;
mod identity;
mod process;
mod text;
mod registry;
mod settings;

pub use dispatch::CommandEntry;
pub use dispatch::before_log_line;
pub use dispatch::entry_matches;
pub use dispatch::group_has_match;
pub use dispatch::help_name;
pub use dispatch::is_first_match;
pub use dispatch::mention_bytes;
pub use dispatch::nick_mention_bytes;
pub use dispatch::spec_invocation;
pub use dispatch::spec_render_help;
pub use dispatch::spec_strip;
pub use dispatch::table_has_match;
pub use dispatch::CommandGroup;
pub use dispatch::CommandMatch;
pub use dispatch::CommandTable;
pub use dispatch::DispatchOutcome;
pub use dispatch::before_hook;
pub use dispatch::dispatch;
pub use dispatch::find_command;
pub use dispatch::handle_message;
pub use dispatch::help_name_bytes;
pub use dispatch::lemma_help_idempotent;
pub use dispatch::match_message;
pub use dispatch::render_help;
pub use dispatch::render_mention;
pub use gateway::FrameworkConfig;
pub use gateway::ready_log_line;
pub use gateway::resumed_lit;
pub use gateway::GatewayAction;
pub use gateway::GatewayBootstrap;
pub use gateway::GatewayEvent;
pub use gateway::GatewayState;
pub use gateway::bootstrap_gateway;
pub use gateway::gateway_step;
pub use gateway::render_ready_line;
pub use gateway::render_resumed_line;
pub use identity::AppInfo;
pub use identity::Identity;
pub use identity::ResolveError;
pub use identity::resolve;
pub use registry::Registry;
pub use registry::RegistryError;
pub use text::after_token;
pub use text::bytes_eq;
pub use text::copy_bytes;
pub use text::has_prefix;
pub use text::is_prefix_of;
pub use text::skip_spaces;
pub use text::spec_digits;
pub use text::token_of;
pub use text::u64_to_digits;
pub use settings::Settings;
pub use settings::SettingsProvider;
pub use settings::ConfigError;
pub use settings::lemma_settings_load_once;
pub use process::ProcessAction;
pub use process::ProcessEvent;
pub use process::ProcessState;
pub use process::exit_code_for;
pub use process::lemma_exit_absorbing;
pub use process::lemma_failures_exit_nonzero;
pub use process::lemma_launch_needs_settings;
pub use process::process_step;
pub use process::spec_process_step;
