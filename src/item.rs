//! Menu item proxies.
use vstd::prelude::*;

use crate::channel::{marker_record, Channel, ChannelId, Message};
use crate::options::{item_options_record, ItemOptionsModel, MenuId, MenuItemOptions};
use crate::request::{kind_name, ItemKind, Request, RequestModel};

verus! {

/// A menu item that lives in the host, with the channel its events arrive on.
#[derive(Debug)]
pub struct MenuItem {
    rid: usize,
    id: MenuId,
    channel: Channel<Message<String>>,
}

/// A menu item whose creation request is built and not yet answered.
#[derive(Debug)]
pub struct PendingMenuItem {
    request: Request,
    channel: Channel<Message<String>>,
}

/// The creation request of a menu item with `options`, whose events go to the
/// channel `channel`.
pub open spec fn new_item_request(options: ItemOptionsModel, channel: nat) -> RequestModel {
    RequestModel::New {
        kind: ItemKind::MenuItem,
        options: item_options_record(options),
        handler: marker_record(channel),
    }
}

impl MenuItem {
    /// The host's handle of this item.
    pub closed spec fn handle(&self) -> usize {
        self.rid
    }

    /// The identifier the host gave this item.
    pub closed spec fn entity_id(&self) -> Seq<char> {
        self.id@
    }

    /// The channel this item's events arrive on.
    pub closed spec fn events(&self) -> Channel<Message<String>> {
        self.channel
    }

    /// Starts creating an item with the given text and identifier; its events
    /// will arrive on `channel`.
    pub fn with_id(text: String, id: MenuId, channel: Channel<Message<String>>) -> (r:
        PendingMenuItem)
        ensures
            r.spec_request() == new_item_request(
                ItemOptionsModel { id: Some(id@), text: text@, enabled: None, accelerator: None },
                channel@.0,
            ),
            r.spec_channel() == channel,
    {
        let mut options = MenuItemOptions::new(text);
        options.set_id(id);
        Self::with_options(options, channel)
    }

    /// Starts creating an item from `options`; its events will arrive on
    /// `channel`.
    pub fn with_options(options: MenuItemOptions, channel: Channel<Message<String>>) -> (r:
        PendingMenuItem)
        ensures
            r.spec_request() == new_item_request(options@, channel@.0),
            r.spec_channel() == channel,
    {
        let handler = ChannelId::from(&channel);
        let request = Request::New {
            kind: ItemKind::MenuItem,
            options: options.encode(),
            handler: handler.serialize(),
        };
        PendingMenuItem { request, channel }
    }

    /// Releases this item. The host offers no release operation, so no
    /// request is sent and the host-side object stays alive.
    pub fn close(self) -> (r: Option<Request>)
        ensures
            r is None,
    {
        None
    }

    /// The host's handle of this item.
    pub fn rid(&self) -> (r: usize)
        ensures
            r == self.handle(),
    {
        self.rid
    }

    /// The identifier the host gave this item.
    pub fn id(&self) -> (r: &MenuId)
        ensures
            r@ == self.entity_id(),
    {
        &self.id
    }

    /// The kind tag of every menu item.
    pub fn kind() -> (r: &'static str)
        ensures
            r@ == kind_name(ItemKind::MenuItem),
    {
        ItemKind::MenuItem.as_str()
    }

    /// The channel this item's events arrive on; the handle and identifier
    /// stay as they are.
    pub fn listen(&mut self) -> (r: &mut Channel<Message<String>>)
        ensures
            *r == old(self).events(),
            final(self).events() == *final(r),
            final(self).handle() == old(self).handle(),
            final(self).entity_id() == old(self).entity_id(),
    {
        &mut self.channel
    }
}

impl PendingMenuItem {
    /// The creation request as it stands.
    pub closed spec fn spec_request(&self) -> RequestModel {
        self.request@
    }

    /// The channel the item's events will arrive on.
    pub closed spec fn spec_channel(&self) -> Channel<Message<String>> {
        self.channel
    }

    /// The creation request to send to the host.
    pub fn request(&self) -> (r: &Request)
        ensures
            r@ == self.spec_request(),
    {
        &self.request
    }

    /// Finishes creation with the host's answer: the handle `rid` and the
    /// identifier `id`.
    pub fn complete(self, rid: usize, id: String) -> (r: MenuItem)
        ensures
            r.handle() == rid,
            r.entity_id() == id@,
            r.events() == self.spec_channel(),
    {
        MenuItem { rid, id: MenuId(id), channel: self.channel }
    }
}

} // verus!
