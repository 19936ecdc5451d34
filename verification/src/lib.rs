//! Desktop shell control plane for an embedded media-player front end.
//!
//! The library holds the verified logic of the shell: building the outbound
//! relay requests that carry spoofed identification headers, the tray-icon
//! window state machine, and the global-shortcut dispatcher that feeds the
//! event bridge. The surrounding process (OS event loop, HTTP transport)
//! lives outside the library and hands it plain values.

pub mod encode;
pub mod numfmt;
pub mod relay;
pub mod shortcut;
pub mod tray;
