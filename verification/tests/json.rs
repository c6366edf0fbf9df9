use alfred::builder::ItemBuilder;
use alfred::item::{Item, Modifier};
use alfred::json::Builder;

fn s(text: &str) -> String {
    text.to_string()
}

fn parse(text: &str) -> serde_json::Value {
    serde_json::from_str(text).unwrap()
}

#[test]
fn test_to_json() {
    let item = Item::new(s("Item 1"));
    assert_eq!(item.to_json(), parse(r#"{"title": "Item 1"}"#));
    let item = ItemBuilder::new(s("Item 2")).subtitle(s("Subtitle")).into_item();
    assert_eq!(
        item.to_json(),
        parse(
            r#"{
                "title": "Item 2",
                "subtitle": "Subtitle"
            }"#
        )
    );
    let item = ItemBuilder::new(s("Item 3"))
        .arg(s("Argument"))
        .subtitle(s("Subtitle"))
        .icon_filetype(s("public.folder"))
        .into_item();
    assert_eq!(
        item.to_json(),
        parse(
            r#"{
                "title": "Item 3",
                "subtitle": "Subtitle",
                "arg": "Argument",
                "icon": { "type": "filetype", "path": "public.folder" }
            }"#
        )
    );
    let item = ItemBuilder::new(s("Item 4"))
        .arg(s("Argument"))
        .subtitle(s("Subtitle"))
        .arg_mod(Modifier::Option, s("Alt Argument"))
        .valid_mod(Modifier::Option, false)
        .icon_file_mod(Modifier::Option, s("opt.png"))
        .arg_mod(Modifier::Control, s("Ctrl Argument"))
        .subtitle_mod(Modifier::Control, s("Ctrl Subtitle"))
        .icon_path_mod(Modifier::Control, s("ctrl.png"))
        .arg_mod(Modifier::Shift, s("Shift Argument"))
        .into_item();
    assert_eq!(
        item.to_json(),
        parse(
            r#"{
                "title": "Item 4",
                "subtitle": "Subtitle",
                "arg": "Argument",
                "mods": {
                    "alt": {
                         "arg": "Alt Argument",
                         "valid": false,
                         "icon": { "type": "fileicon", "path": "opt.png" }
                    },
                    "ctrl": {
                        "arg": "Ctrl Argument",
                        "subtitle": "Ctrl Subtitle",
                        "icon": { "path": "ctrl.png" }
                    },
                    "shift": {
                        "arg": "Shift Argument"
                    }
                }
            }"#
        )
    );
    let item = ItemBuilder::new(s("Item 5"))
        .arg(s("Argument"))
        .variable(s("fruit"), s("banana"))
        .variable(s("vegetable"), s("carrot"))
        .into_item();
    assert_eq!(
        item.to_json(),
        parse(
            r#"{
                "title": "Item 5",
                "arg": "Argument",
                "variables": {
                    "fruit": "banana",
                    "vegetable": "carrot"
                }
            }"#
        )
    );
    let item = ItemBuilder::new(s("Item 6"))
        .subtitle(s("Subtitle"))
        .variable(s("fruit"), s("banana"))
        .variable_mod(Modifier::Option, s("vegetable"), s("carrot"))
        .into_item();
    assert_eq!(
        item.to_json(),
        parse(
            r#"{
                "title": "Item 6",
                "subtitle": "Subtitle",
                "mods": {
                    "alt": {
                        "variables": {
                            "vegetable": "carrot"
                        }
                    }
                },
                "variables": {
                    "fruit": "banana"
                }
            }"#
        )
    );
}

#[test]
fn test_builder() {
    let json = Builder::with_items(vec![
        Item::new(s("Item 1")),
        ItemBuilder::new(s("Item 2")).subtitle(s("Subtitle")).into_item(),
        ItemBuilder::new(s("Item 3"))
            .arg(s("Argument"))
            .subtitle(s("Subtitle"))
            .icon_filetype(s("public.folder"))
            .into_item(),
    ])
    .variable(s("fruit"), s("banana"))
    .variable(s("vegetable"), s("carrot"))
    .into_json();
    assert_eq!(
        json,
        parse(
            r#"{
                "items": [
                    {
                        "title": "Item 1"
                    },
                    {
                        "title": "Item 2",
                        "subtitle": "Subtitle"
                    },
                    {
                        "title": "Item 3",
                        "arg": "Argument",
                        "subtitle": "Subtitle",
                        "icon": { "type": "filetype", "path": "public.folder" }
                    }
                ],
                "variables": {
                    "fruit": "banana",
                    "vegetable": "carrot"
                }
            }"#
        )
    );
}
