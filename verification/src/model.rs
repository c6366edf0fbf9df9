//! The abstract JSON document and the specification of the encoding: for
//! every value of the data model, exactly which keys its JSON object holds
//! and what stands under each.

use vstd::prelude::*;
use crate::item::{
    IconView, ItemType, ItemView, ModifierDataView, ModsView,
};

verus! {

/// An abstract JSON value. An object is the finite map from key to value;
/// the textual key order is not part of the abstract value.
pub ghost enum JVal {
    Str(Seq<char>),
    Bool(bool),
    Arr(Seq<JVal>),
    Obj(Map<Seq<char>, JVal>),
}

/// The object with no fields.
pub open spec fn no_fields() -> Map<Seq<char>, JVal> {
    Map::empty()
}

/// `fields` with `key` mapped to the text `v` if `v` is set, else `fields`
/// unchanged.
pub open spec fn opt_str_field(
    fields: Map<Seq<char>, JVal>,
    key: Seq<char>,
    v: Option<Seq<char>>,
) -> Map<Seq<char>, JVal> {
    match v {
        Option::Some(s) => fields.insert(key, JVal::Str(s)),
        Option::None => fields,
    }
}

/// The JSON object of an icon: always a `path` key; a `type` key only for
/// the two variants that do not name an image file directly.
pub open spec fn icon_json(i: IconView) -> JVal {
    match i {
        IconView::Path(p) => JVal::Obj(Map::empty().insert("path"@, JVal::Str(p))),
        IconView::FileIcon(p) => JVal::Obj(
            Map::empty().insert("type"@, JVal::Str("fileicon"@)).insert("path"@, JVal::Str(p)),
        ),
        IconView::FileType(p) => JVal::Obj(
            Map::empty().insert("type"@, JVal::Str("filetype"@)).insert("path"@, JVal::Str(p)),
        ),
    }
}

/// The object of variable bindings: one key per bound name, a later binding
/// for a name replacing an earlier one.
pub open spec fn vars_fields(s: Seq<(Seq<char>, Seq<char>)>) -> Map<Seq<char>, JVal>
    decreases s.len(),
{
    if s.len() == 0 {
        Map::empty()
    } else {
        vars_fields(s.drop_last()).insert(s.last().0, JVal::Str(s.last().1))
    }
}

/// The fields of a modifier override object: each optional field under its
/// key iff it is set; `variables` iff at least one binding exists.
pub open spec fn mod_data_fields(d: ModifierDataView) -> Map<Seq<char>, JVal> {
    let f = opt_str_field(Map::empty(), "subtitle"@, d.subtitle);
    let f = opt_str_field(f, "arg"@, d.arg);
    let f = (match d.valid {
        Option::Some(b) => f.insert("valid"@, JVal::Bool(b)),
        Option::None => f,
    });
    let f = (match d.icon {
        Option::Some(i) => f.insert("icon"@, icon_json(i)),
        Option::None => f,
    });
    if d.variables.len() == 0 {
        f
    } else {
        f.insert("variables"@, JVal::Obj(vars_fields(d.variables)))
    }
}

/// The JSON object of a modifier override. An override with nothing set is
/// the empty object; its caller still writes it under the modifier's key.
pub open spec fn mod_data_json(d: ModifierDataView) -> JVal {
    JVal::Obj(mod_data_fields(d))
}

/// The `mods` object: one key per modifier that has an entry, under its
/// fixed wire name.
pub open spec fn mods_fields(m: ModsView) -> Map<Seq<char>, JVal> {
    let f = Map::<Seq<char>, JVal>::empty();
    let f = (match m.cmd {
        Option::Some(d) => f.insert("cmd"@, mod_data_json(d)),
        Option::None => f,
    });
    let f = (match m.alt {
        Option::Some(d) => f.insert("alt"@, mod_data_json(d)),
        Option::None => f,
    });
    let f = (match m.ctrl {
        Option::Some(d) => f.insert("ctrl"@, mod_data_json(d)),
        Option::None => f,
    });
    let f = (match m.shift {
        Option::Some(d) => f.insert("shift"@, mod_data_json(d)),
        Option::None => f,
    });
    match m.func {
        Option::Some(d) => f.insert("fn"@, mod_data_json(d)),
        Option::None => f,
    }
}

/// The `text` object: `copy` and `largetype`, each iff set.
pub open spec fn text_fields(
    copy: Option<Seq<char>>,
    large: Option<Seq<char>>,
) -> Map<Seq<char>, JVal> {
    opt_str_field(opt_str_field(Map::empty(), "copy"@, copy), "largetype"@, large)
}

/// The fields of an item's JSON object: `title` always; each optional field
/// under its key iff it is set; `type` iff not the default type; `valid`
/// iff validity is false; `text` iff one of its sub-fields is set; `mods`
/// iff some modifier has an entry; `variables` iff a binding exists.
pub open spec fn item_fields(it: ItemView) -> Map<Seq<char>, JVal> {
    let f = Map::<Seq<char>, JVal>::empty().insert("title"@, JVal::Str(it.title));
    let f = opt_str_field(f, "subtitle"@, it.subtitle);
    let f = (match it.icon {
        Option::Some(i) => f.insert("icon"@, icon_json(i)),
        Option::None => f,
    });
    let f = opt_str_field(f, "uid"@, it.uid);
    let f = opt_str_field(f, "arg"@, it.arg);
    let f = (match it.type_ {
        ItemType::Default => f,
        ItemType::File => f.insert("type"@, JVal::Str("file"@)),
        ItemType::FileSkipCheck => f.insert("type"@, JVal::Str("file:skipcheck"@)),
    });
    let f = if it.valid {
        f
    } else {
        f.insert("valid"@, JVal::Bool(false))
    };
    let f = opt_str_field(f, "autocomplete"@, it.autocomplete);
    let f = if it.text_copy is Some || it.text_large_type is Some {
        f.insert("text"@, JVal::Obj(text_fields(it.text_copy, it.text_large_type)))
    } else {
        f
    };
    let f = opt_str_field(f, "quicklookurl"@, it.quicklook_url);
    let f = if it.modifiers.is_empty() {
        f
    } else {
        f.insert("mods"@, JVal::Obj(mods_fields(it.modifiers)))
    };
    if it.variables.len() == 0 {
        f
    } else {
        f.insert("variables"@, JVal::Obj(vars_fields(it.variables)))
    }
}

/// The JSON object of one item.
pub open spec fn item_json(it: ItemView) -> JVal {
    JVal::Obj(item_fields(it))
}

/// The fields of the root document: `items` always, in input order;
/// `variables` iff a top-level binding exists.
pub open spec fn document_fields(
    items: Seq<ItemView>,
    vars: Seq<(Seq<char>, Seq<char>)>,
) -> Map<Seq<char>, JVal> {
    let f = Map::<Seq<char>, JVal>::empty().insert(
        "items"@,
        JVal::Arr(items.map_values(|it: ItemView| item_json(it))),
    );
    if vars.len() == 0 {
        f
    } else {
        f.insert("variables"@, JVal::Obj(vars_fields(vars)))
    }
}

/// The root JSON document for a sequence of items and top-level bindings.
pub open spec fn document_json(
    items: Seq<ItemView>,
    vars: Seq<(Seq<char>, Seq<char>)>,
) -> JVal {
    JVal::Obj(document_fields(items, vars))
}

} // verus!
