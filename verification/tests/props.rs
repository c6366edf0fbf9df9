use alfred::builder::ItemBuilder;
use alfred::item::{Item, ItemType, Modifier};
use alfred::json::Builder;

fn s(text: &str) -> String {
    text.to_string()
}

fn parse(text: &str) -> serde_json::Value {
    serde_json::from_str(text).unwrap()
}

#[test]
fn bare_item_has_only_title() {
    let v = Item::new(s("hello")).to_json();
    let obj = v.as_object().unwrap();
    assert_eq!(obj.len(), 1);
    assert_eq!(obj.get("title").unwrap(), &serde_json::Value::String(s("hello")));
}

#[test]
fn optional_fields_appear_exactly_when_set() {
    let bare = Item::new(s("t")).to_json();
    let bare_obj = bare.as_object().unwrap();
    for key in ["subtitle", "icon", "uid", "arg", "autocomplete", "quicklookurl"] {
        assert!(bare_obj.get(key).is_none());
    }

    let v = ItemBuilder::new(s("t")).subtitle(s("sub")).into_item().to_json();
    assert_eq!(v.as_object().unwrap().len(), 2);
    assert_eq!(v.get("subtitle").unwrap(), &serde_json::Value::String(s("sub")));

    let v = ItemBuilder::new(s("t")).icon_path(s("a.png")).into_item().to_json();
    assert_eq!(v.as_object().unwrap().len(), 2);
    assert_eq!(v.get("icon").unwrap(), &parse(r#"{"path": "a.png"}"#));

    let v = ItemBuilder::new(s("t")).uid(s("u1")).into_item().to_json();
    assert_eq!(v.as_object().unwrap().len(), 2);
    assert_eq!(v.get("uid").unwrap(), &serde_json::Value::String(s("u1")));

    let v = ItemBuilder::new(s("t")).arg(s("a")).into_item().to_json();
    assert_eq!(v.as_object().unwrap().len(), 2);
    assert_eq!(v.get("arg").unwrap(), &serde_json::Value::String(s("a")));

    let v = ItemBuilder::new(s("t")).autocomplete(s("au")).into_item().to_json();
    assert_eq!(v.as_object().unwrap().len(), 2);
    assert_eq!(v.get("autocomplete").unwrap(), &serde_json::Value::String(s("au")));

    let v = ItemBuilder::new(s("t")).quicklook_url(s("https://example.com")).into_item().to_json();
    assert_eq!(v.as_object().unwrap().len(), 2);
    assert_eq!(
        v.get("quicklookurl").unwrap(),
        &serde_json::Value::String(s("https://example.com"))
    );
}

#[test]
fn type_key_appears_for_non_default_types_only() {
    let v = ItemBuilder::new(s("t")).type_(ItemType::Default).into_item().to_json();
    assert!(v.get("type").is_none());
    let v = ItemBuilder::new(s("t")).type_(ItemType::File).into_item().to_json();
    assert_eq!(v.get("type").unwrap(), &serde_json::Value::String(s("file")));
    let v = ItemBuilder::new(s("t")).type_(ItemType::FileSkipCheck).into_item().to_json();
    assert_eq!(v.get("type").unwrap(), &serde_json::Value::String(s("file:skipcheck")));
}

#[test]
fn valid_key_appears_only_when_false() {
    let v = ItemBuilder::new(s("t")).valid(true).into_item().to_json();
    assert!(v.get("valid").is_none());
    let v = ItemBuilder::new(s("t")).valid(false).into_item().to_json();
    assert_eq!(v.get("valid").unwrap(), &serde_json::Value::Bool(false));
}

#[test]
fn text_subkeys_are_independent() {
    let v = Item::new(s("t")).to_json();
    assert!(v.get("text").is_none());
    let v = ItemBuilder::new(s("t")).text_copy(s("c")).into_item().to_json();
    assert_eq!(v.get("text").unwrap(), &parse(r#"{"copy": "c"}"#));
    let v = ItemBuilder::new(s("t")).text_large_type(s("l")).into_item().to_json();
    assert_eq!(v.get("text").unwrap(), &parse(r#"{"largetype": "l"}"#));
    let v = ItemBuilder::new(s("t"))
        .text_copy(s("c"))
        .text_large_type(s("l"))
        .into_item()
        .to_json();
    assert_eq!(v.get("text").unwrap(), &parse(r#"{"copy": "c", "largetype": "l"}"#));
}

#[test]
fn mods_wire_keys_match_modifiers() {
    let v = Item::new(s("t")).to_json();
    assert!(v.get("mods").is_none());
    let v = ItemBuilder::new(s("t"))
        .arg_mod(Modifier::Command, s("a1"))
        .arg_mod(Modifier::Option, s("a2"))
        .arg_mod(Modifier::Control, s("a3"))
        .arg_mod(Modifier::Shift, s("a4"))
        .arg_mod(Modifier::Fn, s("a5"))
        .into_item()
        .to_json();
    let mods = v.get("mods").unwrap().as_object().unwrap();
    assert_eq!(mods.len(), 5);
    assert_eq!(mods.get("cmd").unwrap(), &parse(r#"{"arg": "a1"}"#));
    assert_eq!(mods.get("alt").unwrap(), &parse(r#"{"arg": "a2"}"#));
    assert_eq!(mods.get("ctrl").unwrap(), &parse(r#"{"arg": "a3"}"#));
    assert_eq!(mods.get("shift").unwrap(), &parse(r#"{"arg": "a4"}"#));
    assert_eq!(mods.get("fn").unwrap(), &parse(r#"{"arg": "a5"}"#));
    let v = ItemBuilder::new(s("t")).valid_mod(Modifier::Shift, true).into_item().to_json();
    let mods = v.get("mods").unwrap().as_object().unwrap();
    assert_eq!(mods.len(), 1);
    assert_eq!(mods.get("shift").unwrap(), &parse(r#"{"valid": true}"#));
}

#[test]
fn variables_appear_exactly_when_bound() {
    let v = Item::new(s("t")).to_json();
    assert!(v.get("variables").is_none());
    let v = ItemBuilder::new(s("t"))
        .variable(s("fruit"), s("banana"))
        .variable(s("vegetable"), s("carrot"))
        .into_item()
        .to_json();
    assert_eq!(
        v.get("variables").unwrap(),
        &parse(r#"{"fruit": "banana", "vegetable": "carrot"}"#)
    );

    let doc = Builder::new().into_json();
    assert!(doc.get("variables").is_none());
    let doc = Builder::new().variable(s("fruit"), s("banana")).into_json();
    assert_eq!(doc.get("variables").unwrap(), &parse(r#"{"fruit": "banana"}"#));
}

#[test]
fn later_binding_for_a_key_wins() {
    let v = ItemBuilder::new(s("t"))
        .variable(s("fruit"), s("banana"))
        .variable(s("fruit"), s("cherry"))
        .into_item()
        .to_json();
    assert_eq!(v.get("variables").unwrap(), &parse(r#"{"fruit": "cherry"}"#));
}

#[test]
fn empty_document_is_items_only() {
    let v = Builder::new().into_json();
    assert_eq!(v, parse(r#"{"items": []}"#));
    assert_eq!(Builder::new().to_json_text(), r#"{"items":[]}"#);
}

#[test]
fn document_example_matches() {
    let b = Builder::with_items(vec![
        Item::new(s("Item 1")),
        ItemBuilder::new(s("Item 2")).subtitle(s("Subtitle")).into_item(),
    ])
    .variable(s("fruit"), s("banana"));
    let v = b.into_json();
    assert_eq!(
        v,
        parse(
            r#"{"items":[{"title":"Item 1"},{"title":"Item 2","subtitle":"Subtitle"}],"variables":{"fruit":"banana"}}"#
        )
    );
}

#[test]
fn document_text_is_canonical() {
    let b = Builder::with_items(vec![
        Item::new(s("Item 1")),
        ItemBuilder::new(s("Item 2")).subtitle(s("Subtitle")).into_item(),
    ])
    .variable(s("fruit"), s("banana"));
    assert_eq!(
        b.to_json_text(),
        r#"{"items":[{"title":"Item 1"},{"subtitle":"Subtitle","title":"Item 2"}],"variables":{"fruit":"banana"}}"#
    );
}

#[test]
fn encoding_is_idempotent() {
    let make = || {
        Builder::with_items(vec![
            ItemBuilder::new(s("Item 3"))
                .subtitle(s("Subtitle"))
                .icon_filetype(s("public.folder"))
                .uid(s("u1"))
                .arg(s("Argument"))
                .type_(ItemType::FileSkipCheck)
                .valid(false)
                .autocomplete(s("auto"))
                .text_copy(s("copy text"))
                .text_large_type(s("big text"))
                .quicklook_url(s("https://example.com"))
                .arg_mod(Modifier::Option, s("Alt Argument"))
                .valid_mod(Modifier::Option, false)
                .icon_path_mod(Modifier::Option, s("opt.png"))
                .subtitle_mod(Modifier::Control, s("Ctrl Subtitle"))
                .variable(s("fruit"), s("banana"))
                .into_item(),
        ])
        .variable(s("fruit"), s("banana"))
        .variable(s("vegetable"), s("carrot"))
    };
    let first = make().to_json_text();
    let second = make().to_json_text();
    assert_eq!(first, second);
    assert_eq!(first.as_bytes(), second.as_bytes());
}
