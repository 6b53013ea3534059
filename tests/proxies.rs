use tauri_menu::{
    collapse_reply, Channel, ChannelId, ChannelIds, ItemKind, Menu, MenuId, MenuItem,
    MenuItemOptions, MenuOptions, Message, Request, Scalar,
};

fn s(text: &str) -> Scalar {
    Scalar::Str(text.to_string())
}

fn field(key: &str, value: Scalar) -> (String, Scalar) {
    (key.to_string(), value)
}

fn channel(id: usize) -> Channel<Message<String>> {
    Channel::new(id)
}

#[test]
fn creating_open_item_sends_expected_request() {
    let pending = MenuItem::with_id("Open".to_string(), MenuId::from("open-item"), channel(9));
    let request = pending.request();
    assert_eq!(request.operation(), "plugin:menu|new");
    match request {
        Request::New { kind, options, handler } => {
            assert_eq!(*kind, ItemKind::MenuItem);
            assert_eq!(
                *options,
                vec![
                    field("id", s("open-item")),
                    field("text", s("Open")),
                    field("enabled", Scalar::Null),
                    field("accelerator", Scalar::Null),
                ]
            );
            assert_eq!(
                *handler,
                vec![field("__TAURI_CHANNEL_MARKER__", Scalar::Bool(true)), field("id", Scalar::Int(9))]
            );
        }
        other => panic!("unexpected request {:?}", other),
    }
    let mut item = pending.complete(42, "open-item".to_string());
    assert_eq!(item.rid(), 42);
    assert_eq!(item.id().0, "open-item");
    assert_eq!(item.listen().id(), 9);
    assert_eq!(item.rid(), 42);
}

#[test]
fn popup_without_arguments_sends_no_window_and_no_position() {
    let menu = Menu::with_id(MenuId::from("ctx"), channel(1)).complete(17, "ctx".to_string());
    let request = menu.popup();
    assert_eq!(request.operation(), "plugin:menu|popup");
    match request {
        Request::Popup { rid, kind, window, at } => {
            assert_eq!(rid, 17);
            assert_eq!(kind, ItemKind::Menu);
            assert_eq!(kind.as_str(), "Menu");
            assert!(window.is_none());
            assert!(at.is_none());
        }
        other => panic!("unexpected request {:?}", other),
    }
    assert_eq!(collapse_reply::<String>(Ok(())), Ok(()));
    assert_eq!(collapse_reply(Err("no such menu".to_string())), Err(()));
}

#[test]
fn append_item_sends_child_handle_with_item_kind() {
    let menu = Menu::with_id(MenuId::from("main"), channel(1)).complete(3, "main".to_string());
    let item = MenuItem::with_options(MenuItemOptions::new("Quit".to_string()), channel(2))
        .complete(8, "quit".to_string());
    let request = menu.append_item(&item);
    assert_eq!(request.operation(), "plugin:menu|append");
    match request {
        Request::Append { rid, kind, items } => {
            assert_eq!(rid, 3);
            assert_eq!(kind, ItemKind::Menu);
            assert_eq!(items, vec![(8, ItemKind::MenuItem)]);
        }
        other => panic!("unexpected request {:?}", other),
    }
    assert_eq!(menu.rid(), 3);
    assert_eq!(item.rid(), 8);
}

#[test]
fn menu_with_id_sends_options_and_channel_marker() {
    let pending = Menu::with_id(MenuId::from("file"), channel(5));
    match pending.request() {
        Request::New { kind, options, handler } => {
            assert_eq!(*kind, ItemKind::Menu);
            assert_eq!(*options, vec![field("id", s("file"))]);
            assert_eq!(ChannelId::decode(handler), Some(ChannelId { id: 5 }));
        }
        other => panic!("unexpected request {:?}", other),
    }
    let mut menu = pending.complete(11, "file".to_string());
    assert_eq!(menu.rid(), 11);
    assert_eq!(menu.id().0, "file");
    let events = menu.listen().expect("a menu created by id has a channel");
    events.deliver(Message::new(1, "clicked".to_string()));
    assert_eq!(menu.listen().map(|c| c.pending()), Some(1));
    assert_eq!(menu.rid(), 11);
}

#[test]
fn default_menu_has_no_channel() {
    let pending = Menu::default();
    assert_eq!(pending.request().operation(), "plugin:menu|create_default");
    assert!(matches!(pending.request(), Request::CreateDefault));
    let mut menu = pending.complete(1, "default".to_string());
    assert!(menu.listen().is_none());
    assert_eq!(menu.rid(), 1);
}

#[test]
fn kind_tags() {
    assert_eq!(ItemKind::MenuItem.as_str(), "MenuItem");
    assert_eq!(ItemKind::Predefined.as_str(), "Predefined");
    assert_eq!(ItemKind::Check.as_str(), "Check");
    assert_eq!(ItemKind::Icon.as_str(), "Icon");
    assert_eq!(ItemKind::Submenu.as_str(), "Submenu");
    assert_eq!(ItemKind::Menu.as_str(), "Menu");
    assert_eq!(Menu::kind(), "Menu");
    assert_eq!(MenuItem::kind(), "MenuItem");
}

#[test]
fn item_options_round_trip_with_every_field() {
    let mut options = MenuItemOptions::new("Save".to_string());
    options
        .set_id(MenuId::from("save".to_string()))
        .set_enabled(false)
        .set_accelerator("CmdOrCtrl+S".to_string());
    let record = options.encode();
    assert_eq!(
        record,
        vec![
            field("id", s("save")),
            field("text", s("Save")),
            field("enabled", Scalar::Bool(false)),
            field("accelerator", s("CmdOrCtrl+S")),
        ]
    );
    let back = MenuItemOptions::decode(&record).expect("decodes");
    assert_eq!(back.encode(), record);
}

#[test]
fn item_options_round_trip_keeps_unset_fields_unset() {
    let options = MenuItemOptions::new("Plain".to_string());
    let back = MenuItemOptions::decode(&options.encode()).expect("decodes");
    assert_eq!(
        back.encode(),
        vec![
            field("id", Scalar::Null),
            field("text", s("Plain")),
            field("enabled", Scalar::Null),
            field("accelerator", Scalar::Null),
        ]
    );
}

#[test]
fn item_options_decode_treats_absent_fields_as_unset() {
    let back = MenuItemOptions::decode(&vec![field("text", s("Only"))]).expect("decodes");
    assert_eq!(back.encode(), MenuItemOptions::new("Only".to_string()).encode());
}

#[test]
fn item_options_decode_requires_text() {
    assert!(MenuItemOptions::decode(&vec![field("id", s("x"))]).is_none());
    assert!(MenuItemOptions::decode(&vec![field("text", Scalar::Null)]).is_none());
    assert!(MenuItemOptions::decode(&vec![field("text", s("t")), field("enabled", s("yes"))])
        .is_none());
}

#[test]
fn menu_options_round_trip() {
    let set = MenuOptions { id: Some(MenuId::from("m")) };
    let back = MenuOptions::decode(&set.encode()).expect("decodes");
    assert_eq!(back.id.map(|i| i.0), Some("m".to_string()));
    let unset = MenuOptions { id: None };
    assert_eq!(unset.encode(), vec![field("id", Scalar::Null)]);
    let back = MenuOptions::decode(&unset.encode()).expect("decodes");
    assert!(back.id.is_none());
    assert!(MenuOptions::decode(&vec![]).expect("decodes").id.is_none());
    assert!(MenuOptions::decode(&vec![field("id", Scalar::Int(3))]).is_none());
}

#[test]
fn channel_marker_carries_sentinel_and_id() {
    let c = channel(123);
    let marker = ChannelId::from(&c);
    assert_eq!(marker.id, 123);
    let record = marker.serialize();
    assert_eq!(
        record,
        vec![field("__TAURI_CHANNEL_MARKER__", Scalar::Bool(true)), field("id", Scalar::Int(123))]
    );
    assert_eq!(ChannelId::decode(&record), Some(ChannelId { id: 123 }));
}

#[test]
fn channel_marker_decode_needs_sentinel() {
    assert_eq!(ChannelId::decode(&vec![field("id", Scalar::Int(4))]), None);
    assert_eq!(
        ChannelId::decode(&vec![
            field("__TAURI_CHANNEL_MARKER__", Scalar::Bool(false)),
            field("id", Scalar::Int(4)),
        ]),
        None
    );
    assert_eq!(
        ChannelId::decode(&vec![field("__TAURI_CHANNEL_MARKER__", Scalar::Bool(true))]),
        None
    );
}

#[test]
fn channel_delivers_in_emission_order() {
    let mut c = channel(2);
    for seq in [5usize, 6, 7] {
        c.deliver(Message::new(seq, format!("event {}", seq)));
    }
    assert_eq!(c.pending(), 3);
    let first = c.next_message().expect("first");
    assert_eq!(first.id(), 5);
    assert_eq!(first.message(), "event 5");
    assert_eq!(c.next_message().map(|m| m.id()), Some(6));
    assert_eq!(c.next_message().map(|m| m.id()), Some(7));
    assert!(c.next_message().is_none());
}

#[test]
fn channel_deliver_all_then_drain_keeps_order() {
    let mut c: Channel<Message<String>> = channel(4);
    c.deliver(Message::new(1, "a".to_string()));
    c.deliver_all(vec![Message::new(2, "b".to_string()), Message::new(3, "c".to_string())]);
    let ids: Vec<usize> = c.drain().iter().map(|m| m.id()).collect();
    assert_eq!(ids, vec![1, 2, 3]);
    assert_eq!(c.pending(), 0);
    assert_eq!(c.id(), 4);
}

#[test]
fn channel_ids_are_unique() {
    let mut ids = ChannelIds::new();
    let a: Channel<Message<String>> = ids.create().expect("fresh");
    let b: Channel<Message<String>> = ids.create().expect("fresh");
    assert_eq!(a.id(), 0);
    assert_eq!(b.id(), 1);
    assert_ne!(a.id(), b.id());
}

#[test]
fn find_field_returns_first_match() {
    let record = vec![field("k", Scalar::Int(1)), field("k", Scalar::Int(2))];
    assert_eq!(tauri_menu::find_field(&record, &"k".to_string()), Some(&Scalar::Int(1)));
    assert_eq!(tauri_menu::find_field(&record, &"x".to_string()), None);
}

#[test]
fn closing_sends_nothing() {
    let menu = Menu::default().complete(2, "d".to_string());
    assert!(menu.close().is_none());
    let item = MenuItem::with_options(MenuItemOptions::new("x".to_string()), channel(3))
        .complete(4, "x".to_string());
    assert!(item.close().is_none());
}
