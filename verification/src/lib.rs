//! The decisions of a campus-network auto-login client: which form it posts to
//! the captive portal, how it reads the portal's replies, how it tracks the daily
//! data allowance, and what it notifies and shows in the tray at each step.
use vstd::prelude::*;

pub mod text;
pub mod data;
pub mod notification;
pub mod portal;
pub mod traffic;
pub mod tray;
pub mod connect;
pub mod monitor;
pub mod launch;
pub mod laws;
