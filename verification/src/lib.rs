//! Verified core of a portable proxy-client shell: directory layout,
//! window geometry, HTTP request planning and core lifecycle decisions.

pub mod external;
pub mod text;
pub mod path;
pub mod dirs;
pub mod portable;
pub mod window_state;
pub mod network;
pub mod service;
pub mod lifecycle;
pub mod runtime;
