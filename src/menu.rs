//! Menu proxies.
use vstd::prelude::*;

use crate::channel::{marker_record, Channel, ChannelId, Message};
use crate::item::MenuItem;
use crate::options::{menu_options_record, MenuId, MenuOptions, MenuOptionsModel};
use crate::request::{kind_name, ItemKind, Request, RequestModel};

verus! {

/// A menu that lives in the host. A menu created by identifier has a channel
/// for its events; the host's default menu has none.
#[derive(Debug)]
pub struct Menu {
    rid: usize,
    id: MenuId,
    channel: Option<Channel<Message<String>>>,
}

/// A menu whose creation request is built and not yet answered.
#[derive(Debug)]
pub struct PendingMenu {
    request: Request,
    channel: Option<Channel<Message<String>>>,
}

/// The creation request of a menu with identifier `id`, whose events go to
/// the channel `channel`.
pub open spec fn new_menu_request(id: Seq<char>, channel: nat) -> RequestModel {
    RequestModel::New {
        kind: ItemKind::Menu,
        options: menu_options_record(MenuOptionsModel { id: Some(id) }),
        handler: marker_record(channel),
    }
}

impl Menu {
    /// The host's handle of this menu.
    pub closed spec fn handle(&self) -> usize {
        self.rid
    }

    /// The identifier the host gave this menu.
    pub closed spec fn entity_id(&self) -> Seq<char> {
        self.id@
    }

    /// The channel this menu's events arrive on, if it has one.
    pub closed spec fn events(&self) -> Option<Channel<Message<String>>> {
        self.channel
    }

    /// Starts creating a menu with identifier `id`; its events will arrive on
    /// `channel`.
    pub fn with_id(id: MenuId, channel: Channel<Message<String>>) -> (r: PendingMenu)
        ensures
            r.spec_request() == new_menu_request(id@, channel@.0),
            r.spec_channel() == Some(channel),
    {
        let options = MenuOptions { id: Some(id) };
        let handler = ChannelId::from(&channel);
        let request = Request::New {
            kind: ItemKind::Menu,
            options: options.encode(),
            handler: handler.serialize(),
        };
        PendingMenu { request, channel: Some(channel) }
    }

    /// Starts creating the host's default menu, which has no channel.
    pub fn default() -> (r: PendingMenu)
        ensures
            r.spec_request() == RequestModel::CreateDefault,
            r.spec_channel() is None,
    {
        PendingMenu { request: Request::CreateDefault, channel: None }
    }

    /// Releases this menu. The host offers no release operation, so no
    /// request is sent and the host-side object stays alive.
    pub fn close(self) -> (r: Option<Request>)
        ensures
            r is None,
    {
        None
    }

    /// The host's handle of this menu.
    pub fn rid(&self) -> (r: usize)
        ensures
            r == self.handle(),
    {
        self.rid
    }

    /// The identifier the host gave this menu.
    pub fn id(&self) -> (r: &MenuId)
        ensures
            r@ == self.entity_id(),
    {
        &self.id
    }

    /// The kind tag of every menu.
    pub fn kind() -> (r: &'static str)
        ensures
            r@ == kind_name(ItemKind::Menu),
    {
        ItemKind::Menu.as_str()
    }

    /// The request that appends `item` to this menu: one pair, the item's
    /// handle with the menu item kind.
    pub fn append_item(&self, item: &MenuItem) -> (r: Request)
        ensures
            r@ == (RequestModel::Append {
                rid: self.handle() as nat,
                kind: ItemKind::Menu,
                items: seq![(item.handle(), ItemKind::MenuItem)],
            }),
    {
        let mut items: Vec<(usize, ItemKind)> = Vec::new();
        items.push((item.rid(), ItemKind::MenuItem));
        assert(items@ =~= seq![(item.handle(), ItemKind::MenuItem)]);
        Request::Append { rid: self.rid, kind: ItemKind::Menu, items }
    }

    /// The request that pops this menu up as a context menu at the host's
    /// default place: no window and no position.
    pub fn popup(&self) -> (r: Request)
        ensures
            r@ == (RequestModel::Popup {
                rid: self.handle() as nat,
                kind: ItemKind::Menu,
                window: None,
                at: None,
            }),
    {
        Request::Popup { rid: self.rid, kind: ItemKind::Menu, window: None, at: None }
    }

    /// The channel this menu's events arrive on, if it has one; the handle and
    /// identifier stay as they are.
    pub fn listen(&mut self) -> (r: Option<&mut Channel<Message<String>>>)
        ensures
            match r {
                Some(c) => old(self).events() == Some(*c) && final(self).events() == Some(
                    *final(c),
                ),
                None => old(self).events() is None && final(self).events() is None,
            },
            final(self).handle() == old(self).handle(),
            final(self).entity_id() == old(self).entity_id(),
    {
        match &mut self.channel {
            Some(c) => Some(c),
            None => None,
        }
    }
}

impl PendingMenu {
    /// The creation request as it stands.
    pub closed spec fn spec_request(&self) -> RequestModel {
        self.request@
    }

    /// The channel the menu's events will arrive on, if any.
    pub closed spec fn spec_channel(&self) -> Option<Channel<Message<String>>> {
        self.channel
    }

    /// The creation request to send to the host.
    pub fn request(&self) -> (r: &Request)
        ensures
            r@ == self.spec_request(),
    {
        &self.request
    }

    /// Finishes creation with the host's answer: the handle `rid` and the
    /// identifier `id`.
    pub fn complete(self, rid: usize, id: String) -> (r: Menu)
        ensures
            r.handle() == rid,
            r.entity_id() == id@,
            r.events() == self.spec_channel(),
    {
        Menu { rid, id: MenuId(id), channel: self.channel }
    }
}

} // verus!
