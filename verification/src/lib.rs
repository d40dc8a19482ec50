//! Verified core of a WebDriver BiDi browser-driving component.
//!
//! The library holds the decisions of the component: which capability classes
//! a session grants, how outgoing commands are framed, how incoming frames are
//! classified and correlated with the awaited command, and the bounded console
//! buffer that collects events in between.

pub mod addr;
pub mod caps;
pub mod conn;
pub mod demux;
pub mod json;
pub mod logbuf;
pub mod proto;
pub mod reply;
pub mod text;
pub mod tools;
