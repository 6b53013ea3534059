//! Frontend proxies for menus and menu items that live in a host process.
//!
//! A proxy holds the host's resource handle for its object and, where the
//! object emits events, an event channel. Every operation on a proxy is
//! framed here as a [`Request`] value; sending it over a transport and
//! handing the answer back is left to the caller.
use vstd::prelude::*;

pub mod channel;
pub mod item;
pub mod menu;
pub mod options;
pub mod request;
pub mod wire;

pub use channel::{Channel, ChannelId, ChannelIds, Message};
pub use item::{MenuItem, PendingMenuItem};
pub use menu::{Menu, PendingMenu};
pub use options::{MenuId, MenuItemOptions, MenuOptions};
pub use request::{collapse_reply, ItemKind, Position, Request};
pub use wire::{find_field, Scalar};

verus! {

} // verus!
