//! Desktop notifications for incoming chat events: which events are shown,
//! under which name, and with what text.

pub mod body;
pub mod decode;
pub mod dispatch;
pub mod event;
pub mod extract;
pub mod laws;
