//! Creation options of menus and menu items, and their record encoding.
use vstd::prelude::*;

use crate::wire::{
    decode_opt_bool, decode_opt_text, field_of, find_field, opt_bool_datum, opt_text_datum,
    record_model, Datum, Scalar,
};

verus! {

/// The application-chosen identifier of a menu entity.
#[derive(Debug, Clone)]
pub struct MenuId(pub String);

impl View for MenuId {
    type V = Seq<char>;

    open spec fn view(&self) -> Seq<char> {
        self.0@
    }
}

impl MenuId {
    /// An identifier holding the text `s`.
    pub fn new(s: &str) -> (r: MenuId)
        ensures
            r@ == s@,
    {
        MenuId(s.to_owned())
    }
}

impl From<String> for MenuId {
    fn from(value: String) -> (r: MenuId) {
        MenuId(value)
    }
}

impl vstd::std_specs::convert::FromSpecImpl<String> for MenuId {
    open spec fn obeys_from_spec() -> bool {
        true
    }

    open spec fn from_spec(v: String) -> MenuId {
        MenuId(v)
    }
}

impl From<&'static str> for MenuId {
    fn from(value: &'static str) -> (r: MenuId) {
        MenuId::new(value)
    }
}

impl vstd::std_specs::convert::FromSpecImpl<&'static str> for MenuId {
    open spec fn obeys_from_spec() -> bool {
        false
    }

    open spec fn from_spec(v: &'static str) -> MenuId {
        MenuId(arbitrary())
    }
}

/// An optional identifier as optional text.
pub open spec fn id_model(id: Option<MenuId>) -> Option<Seq<char>> {
    match id {
        Some(i) => Some(i@),
        None => None,
    }
}

/// An optional string as optional text.
pub open spec fn text_model(s: Option<String>) -> Option<Seq<char>> {
    match s {
        Some(t) => Some(t@),
        None => None,
    }
}

/// What a set of menu options says.
pub struct MenuOptionsModel {
    pub id: Option<Seq<char>>,
}

/// What a set of menu item options says.
pub struct ItemOptionsModel {
    pub id: Option<Seq<char>>,
    pub text: Seq<char>,
    pub enabled: Option<bool>,
    pub accelerator: Option<Seq<char>>,
}

/// Options for creating a menu.
#[derive(Debug, Clone)]
pub struct MenuOptions {
    pub id: Option<MenuId>,
}

impl View for MenuOptions {
    type V = MenuOptionsModel;

    open spec fn view(&self) -> MenuOptionsModel {
        MenuOptionsModel { id: id_model(self.id) }
    }
}

/// The record that menu options are sent as.
pub open spec fn menu_options_record(o: MenuOptionsModel) -> Seq<(Seq<char>, Datum)> {
    seq![("id"@, opt_text_datum(o.id))]
}

/// Reads menu options from a record; an absent or `Null` id is unset.
pub open spec fn decode_menu_options(m: Seq<(Seq<char>, Datum)>) -> Option<MenuOptionsModel> {
    match decode_opt_text(field_of(m, "id"@)) {
        Some(id) => Some(MenuOptionsModel { id }),
        None => None,
    }
}

/// Options for creating a menu item: the text is required, the rest optional.
#[derive(Debug, Clone)]
pub struct MenuItemOptions {
    /// Specify an id to use for the new menu item.
    id: Option<MenuId>,
    /// The text of the new menu item.
    text: String,
    /// Whether the new menu item is enabled or not.
    enabled: Option<bool>,
    /// Specify an accelerator for the new menu item.
    accelerator: Option<String>,
}

impl View for MenuItemOptions {
    type V = ItemOptionsModel;

    closed spec fn view(&self) -> ItemOptionsModel {
        ItemOptionsModel {
            id: id_model(self.id),
            text: self.text@,
            enabled: self.enabled,
            accelerator: text_model(self.accelerator),
        }
    }
}

/// The record that menu item options are sent as: every field is present,
/// an unset one as `Null`.
pub open spec fn item_options_record(o: ItemOptionsModel) -> Seq<(Seq<char>, Datum)> {
    seq![
        ("id"@, opt_text_datum(o.id)),
        ("text"@, Datum::Text(o.text)),
        ("enabled"@, opt_bool_datum(o.enabled)),
        ("accelerator"@, opt_text_datum(o.accelerator)),
    ]
}

/// Reads menu item options from a record: the text must be present, an
/// absent or `Null` optional field is unset.
pub open spec fn decode_item_options(m: Seq<(Seq<char>, Datum)>) -> Option<ItemOptionsModel> {
    match (
        decode_opt_text(field_of(m, "id"@)),
        field_of(m, "text"@),
        decode_opt_bool(field_of(m, "enabled"@)),
        decode_opt_text(field_of(m, "accelerator"@)),
    ) {
        (Some(id), Some(Datum::Text(text)), Some(enabled), Some(accelerator)) => Some(
            ItemOptionsModel { id, text, enabled, accelerator },
        ),
        _ => None,
    }
}

/// The value of an optional field that was looked up.
pub open spec fn found(f: Option<&Scalar>) -> Option<Datum> {
    match f {
        Some(s) => Some(s@),
        None => None,
    }
}

fn opt_text_scalar(v: &Option<String>) -> (r: Scalar)
    ensures
        r@ == opt_text_datum(text_model(*v)),
{
    match v {
        Some(s) => Scalar::Str(s.clone()),
        None => Scalar::Null,
    }
}

fn opt_id_scalar(v: &Option<MenuId>) -> (r: Scalar)
    ensures
        r@ == opt_text_datum(id_model(*v)),
{
    match v {
        Some(s) => Scalar::Str(s.0.clone()),
        None => Scalar::Null,
    }
}

fn read_opt_text(f: Option<&Scalar>) -> (r: Option<Option<String>>)
    ensures
        match r {
            Some(v) => decode_opt_text(found(f)) == Some(text_model(v)),
            None => decode_opt_text(found(f)) is None,
        },
{
    match f {
        None => Some(None),
        Some(Scalar::Null) => Some(None),
        Some(Scalar::Str(s)) => Some(Some(s.clone())),
        _ => None,
    }
}

fn read_opt_bool(f: Option<&Scalar>) -> (r: Option<Option<bool>>)
    ensures
        match r {
            Some(v) => decode_opt_bool(found(f)) == Some(v),
            None => decode_opt_bool(found(f)) is None,
        },
{
    match f {
        None => Some(None),
        Some(Scalar::Null) => Some(None),
        Some(Scalar::Bool(b)) => Some(Some(*b)),
        _ => None,
    }
}

fn read_opt_id(f: Option<&Scalar>) -> (r: Option<Option<MenuId>>)
    ensures
        match r {
            Some(v) => decode_opt_text(found(f)) == Some(id_model(v)),
            None => decode_opt_text(found(f)) is None,
        },
{
    match read_opt_text(f) {
        Some(Some(s)) => Some(Some(MenuId(s))),
        Some(None) => Some(None),
        None => None,
    }
}

impl MenuOptions {
    /// The record these options are sent as.
    pub fn encode(&self) -> (r: Vec<(String, Scalar)>)
        ensures
            record_model(r@) == menu_options_record(self@),
    {
        let mut r: Vec<(String, Scalar)> = Vec::new();
        r.push(("id".to_owned(), opt_id_scalar(&self.id)));
        assert(record_model(r@) =~= menu_options_record(self@));
        r
    }

    /// Reads options back from a record, as the host does.
    pub fn decode(fields: &Vec<(String, Scalar)>) -> (r: Option<MenuOptions>)
        ensures
            match r {
                Some(o) => decode_menu_options(record_model(fields@)) == Some(o@),
                None => decode_menu_options(record_model(fields@)) is None,
            },
    {
        let id = read_opt_id(find_field(fields, &"id".to_owned()));
        match id {
            Some(id) => Some(MenuOptions { id }),
            None => None,
        }
    }
}

impl MenuItemOptions {
    /// Options with the given text and every optional field unset.
    pub fn new(text: String) -> (r: MenuItemOptions)
        ensures
            r@ == (ItemOptionsModel { id: None, text: text@, enabled: None, accelerator: None }),
    {
        MenuItemOptions { id: None, text, enabled: None, accelerator: None }
    }

    /// Sets the identifier.
    pub fn set_id(&mut self, id: MenuId) -> (r: &mut Self)
        ensures
            r@ == (ItemOptionsModel { id: Some(id@), ..old(self)@ }),
            *final(self) == *final(r),
    {
        self.id = Some(id);
        self
    }

    /// Sets whether the item is enabled.
    pub fn set_enabled(&mut self, enabled: bool) -> (r: &mut Self)
        ensures
            r@ == (ItemOptionsModel { enabled: Some(enabled), ..old(self)@ }),
            *final(self) == *final(r),
    {
        self.enabled = Some(enabled);
        self
    }

    /// Sets the keyboard accelerator, passed to the host unchecked.
    pub fn set_accelerator(&mut self, accelerator: String) -> (r: &mut Self)
        ensures
            r@ == (ItemOptionsModel { accelerator: Some(accelerator@), ..old(self)@ }),
            *final(self) == *final(r),
    {
        self.accelerator = Some(accelerator);
        self
    }

    /// The record these options are sent as.
    pub fn encode(&self) -> (r: Vec<(String, Scalar)>)
        ensures
            record_model(r@) == item_options_record(self@),
    {
        let mut r: Vec<(String, Scalar)> = Vec::new();
        r.push(("id".to_owned(), opt_id_scalar(&self.id)));
        r.push(("text".to_owned(), Scalar::Str(self.text.clone())));
        r.push(("enabled".to_owned(), match self.enabled {
            Some(b) => Scalar::Bool(b),
            None => Scalar::Null,
        }));
        r.push(("accelerator".to_owned(), opt_text_scalar(&self.accelerator)));
        assert(record_model(r@) =~= item_options_record(self@));
        r
    }

    /// Reads options back from a record, as the host does.
    pub fn decode(fields: &Vec<(String, Scalar)>) -> (r: Option<MenuItemOptions>)
        ensures
            match r {
                Some(o) => decode_item_options(record_model(fields@)) == Some(o@),
                None => decode_item_options(record_model(fields@)) is None,
            },
    {
        let id = read_opt_id(find_field(fields, &"id".to_owned()));
        let text = find_field(fields, &"text".to_owned());
        let enabled = read_opt_bool(find_field(fields, &"enabled".to_owned()));
        let accelerator = read_opt_text(find_field(fields, &"accelerator".to_owned()));
        match (id, text, enabled, accelerator) {
            (Some(id), Some(Scalar::Str(text)), Some(enabled), Some(accelerator)) => Some(
                MenuItemOptions { id, text: text.clone(), enabled, accelerator },
            ),
            _ => None,
        }
    }
}

/// Decoding the record that menu options are sent as gives back the same
/// options: an unset id reads back as unset.
pub proof fn lemma_menu_options_round_trip(o: MenuOptionsModel)
    ensures
        decode_menu_options(menu_options_record(o)) == Some(o),
{
    let m = menu_options_record(o);
    assert(field_of(m, "id"@) == Some(opt_text_datum(o.id)));
}

/// Decoding the record that menu item options are sent as gives back the same
/// options; every unset optional field reads back as unset.
pub proof fn lemma_item_options_round_trip(o: ItemOptionsModel)
    ensures
        decode_item_options(item_options_record(o)) == Some(o),
{
    reveal_strlit("id");
    reveal_strlit("text");
    reveal_strlit("enabled");
    reveal_strlit("accelerator");
    reveal_with_fuel(field_of, 5);
    let m = item_options_record(o);
    assert(m.drop_first() =~= m.subrange(1, 4));
    assert(m.drop_first().drop_first() =~= m.subrange(2, 4));
    assert(m.drop_first().drop_first().drop_first() =~= m.subrange(3, 4));
    assert("id"@.len() == 2);
    assert("text"@.len() == 4);
    assert("enabled"@.len() == 7);
    assert("accelerator"@.len() == 11);
    assert("id"@ != "text"@);
    assert("id"@ != "enabled"@);
    assert("text"@ != "enabled"@);
    assert("id"@ != "accelerator"@);
    assert("text"@ != "accelerator"@);
    assert("enabled"@ != "accelerator"@);
    assert(field_of(m, "id"@) == Some(opt_text_datum(o.id)));
    assert(field_of(m, "text"@) == Some(Datum::Text(o.text)));
    assert(field_of(m, "enabled"@) == Some(opt_bool_datum(o.enabled)));
    assert(field_of(m, "accelerator"@) == Some(opt_text_datum(o.accelerator)));
}

} // verus!
