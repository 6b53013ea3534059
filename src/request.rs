//! The requests that proxies send to the host, and the kind tags that travel
//! beside every resource handle.
use vstd::prelude::*;

use crate::wire::{record_model, Datum, Scalar};

verus! {

/// Which concrete kind of resource a handle refers to.
#[derive(Debug, Clone, Copy, PartialEq, Eq, Structural)]
pub enum ItemKind {
    MenuItem,
    Predefined,
    Check,
    Icon,
    Submenu,
    Menu,
}

/// The tag a kind is sent as.
pub open spec fn kind_name(k: ItemKind) -> Seq<char> {
    match k {
        ItemKind::MenuItem => "MenuItem"@,
        ItemKind::Predefined => "Predefined"@,
        ItemKind::Check => "Check"@,
        ItemKind::Icon => "Icon"@,
        ItemKind::Submenu => "Submenu"@,
        ItemKind::Menu => "Menu"@,
    }
}

impl ItemKind {
    /// The tag this kind is sent as.
    pub fn as_str(&self) -> (r: &'static str)
        ensures
            r@ == kind_name(*self),
    {
        match self {
            ItemKind::MenuItem => "MenuItem",
            ItemKind::Predefined => "Predefined",
            ItemKind::Check => "Check",
            ItemKind::Icon => "Icon",
            ItemKind::Submenu => "Submenu",
            ItemKind::Menu => "Menu",
        }
    }
}

/// A point relative to a window's top-left corner.
#[derive(Debug, Clone, Copy, PartialEq, Eq, Structural)]
pub struct Position {
    pub x: isize,
    pub y: isize,
}

/// One request to the host.
#[derive(Debug)]
pub enum Request {
    /// Creates a resource of `kind` from `options`; its events go to the
    /// channel that `handler` refers to.
    New { kind: ItemKind, options: Vec<(String, Scalar)>, handler: Vec<(String, Scalar)> },
    /// Creates the host's default menu.
    CreateDefault,
    /// Appends the `(handle, kind)` pairs of `items` to the resource `rid`.
    Append { rid: usize, kind: ItemKind, items: Vec<(usize, ItemKind)> },
    /// Shows the menu `rid` as a context menu, on `window` at `at` where given.
    Popup { rid: usize, kind: ItemKind, window: Option<String>, at: Option<Position> },
}

/// What a request says.
pub enum RequestModel {
    New {
        kind: ItemKind,
        options: Seq<(Seq<char>, Datum)>,
        handler: Seq<(Seq<char>, Datum)>,
    },
    CreateDefault,
    Append { rid: nat, kind: ItemKind, items: Seq<(usize, ItemKind)> },
    Popup { rid: nat, kind: ItemKind, window: Option<Seq<char>>, at: Option<Position> },
}

impl View for Request {
    type V = RequestModel;

    open spec fn view(&self) -> RequestModel {
        match self {
            Request::New { kind, options, handler } => RequestModel::New {
                kind: *kind,
                options: record_model(options@),
                handler: record_model(handler@),
            },
            Request::CreateDefault => RequestModel::CreateDefault,
            Request::Append { rid, kind, items } => RequestModel::Append {
                rid: *rid as nat,
                kind: *kind,
                items: items@,
            },
            Request::Popup { rid, kind, window, at } => RequestModel::Popup {
                rid: *rid as nat,
                kind: *kind,
                window: match window {
                    Some(w) => Some(w@),
                    None => None,
                },
                at: *at,
            },
        }
    }
}

/// The operation key a request is sent under.
pub open spec fn operation_name(r: RequestModel) -> Seq<char> {
    match r {
        RequestModel::New { .. } => "plugin:menu|new"@,
        RequestModel::CreateDefault => "plugin:menu|create_default"@,
        RequestModel::Append { .. } => "plugin:menu|append"@,
        RequestModel::Popup { .. } => "plugin:menu|popup"@,
    }
}

impl Request {
    /// The operation key this request is sent under.
    pub fn operation(&self) -> (r: &'static str)
        ensures
            r@ == operation_name(self@),
    {
        match self {
            Request::New { .. } => "plugin:menu|new",
            Request::CreateDefault => "plugin:menu|create_default",
            Request::Append { .. } => "plugin:menu|append",
            Request::Popup { .. } => "plugin:menu|popup",
        }
    }
}

/// The outcome of a request that the host may refuse: the host's error
/// payload is dropped, so every refusal is the same unit failure.
pub fn collapse_reply<E>(reply: Result<(), E>) -> (r: Result<(), ()>)
    ensures
        r is Ok <==> reply is Ok,
{
    match reply {
        Ok(()) => Ok(()),
        Err(_) => Err(()),
    }
}

} // verus!
