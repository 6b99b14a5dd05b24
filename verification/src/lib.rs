//! The logic of a desktop shell around the DeepSeek Harness (`dsh`).
//!
//! The shell launches the web server of the Harness, waits until it is up, and shows it in windows
//! of its own. This library decides: which command is launched, when the server counts as up, what
//! happens to processes and windows on each event. It touches neither processes nor windows; what
//! it needs to know is handed in, and what is to be done is handed out.
pub mod command;
pub mod faults;
pub mod paths;
pub mod readiness;
pub mod server;
pub mod settings;
pub mod shell;
pub mod text;
pub mod theme;
pub mod upgrade;
pub mod version;
pub mod zorder;
