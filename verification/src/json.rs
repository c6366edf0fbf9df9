//! The executable encoders: each builds the `serde_json` value of its input
//! and is proved to produce exactly the object that the specification in
//! [`crate::model`] states.

use vstd::prelude::*;
use crate::item::{Icon, Item, ItemType, ModifierData, Mods};
use crate::model::{
    item_json, icon_json, mod_data_json, mods_fields, text_fields, vars_fields, document_json,
    JVal,
};
use crate::wire::{
    map_insert, map_rep, new_map, rendered, value_array, value_bool, value_object, value_rep,
    value_string, value_text,
};

verus! {

/// Encodes a list of variable bindings as a JSON object, a later binding
/// for a key replacing an earlier one.
fn vars_to_json(vars: &Vec<(String, String)>) -> (v: serde_json::Value)
    ensures
        value_rep(v) == JVal::Obj(vars_fields(crate::item::pairs_view(vars@))),
{
    let ghost pairs = crate::item::pairs_view(vars@);
    let mut m = new_map();
    let mut i: usize = 0;
    while i < vars.len()
        invariant
            i <= vars.len(),
            pairs == crate::item::pairs_view(vars@),
            pairs.len() == vars@.len(),
            map_rep(m) == vars_fields(pairs.subrange(0, i as int)),
        decreases vars.len() - i,
    {
        let s = value_string(vars[i].1.as_str());
        map_insert(&mut m, vars[i].0.as_str(), s);
        proof {
            let sub = pairs.subrange(0, i as int + 1);
            assert(sub.drop_last() =~= pairs.subrange(0, i as int));
            assert(sub.last() == pairs[i as int]);
        }
        i += 1;
    }
    proof {
        assert(pairs.subrange(0, pairs.len() as int) =~= pairs);
    }
    value_object(m)
}

impl Icon {
    /// Encodes the icon as its JSON object.
    pub fn to_json(&self) -> (v: serde_json::Value)
        ensures
            value_rep(v) == icon_json(self@),
    {
        let mut m = new_map();
        match self {
            Icon::Path(p) => {
                let s = value_string(p.as_str());
                map_insert(&mut m, "path", s);
            }
            Icon::FileIcon(p) => {
                let t = value_string("fileicon");
                map_insert(&mut m, "type", t);
                let s = value_string(p.as_str());
                map_insert(&mut m, "path", s);
            }
            Icon::FileType(p) => {
                let t = value_string("filetype");
                map_insert(&mut m, "type", t);
                let s = value_string(p.as_str());
                map_insert(&mut m, "path", s);
            }
        }
        value_object(m)
    }
}

impl ModifierData {
    /// Encodes the override as its JSON object: only the fields that are
    /// set appear; nothing set encodes to the empty object.
    pub fn to_json(&self) -> (v: serde_json::Value)
        ensures
            value_rep(v) == mod_data_json(self@),
    {
        let mut m = new_map();
        if let Option::Some(subtitle) = &self.subtitle {
            let s = value_string(subtitle.as_str());
            map_insert(&mut m, "subtitle", s);
        }
        if let Option::Some(arg) = &self.arg {
            let s = value_string(arg.as_str());
            map_insert(&mut m, "arg", s);
        }
        if let Option::Some(valid) = self.valid {
            let b = value_bool(valid);
            map_insert(&mut m, "valid", b);
        }
        if let Option::Some(icon) = &self.icon {
            let ic = icon.to_json();
            map_insert(&mut m, "icon", ic);
        }
        if self.variables.len() > 0 {
            let vars = vars_to_json(&self.variables);
            map_insert(&mut m, "variables", vars);
        }
        value_object(m)
    }
}

/// Encodes the modifier map as the `mods` object, each entry under its
/// fixed wire name.
fn mods_to_json(mods: &Mods) -> (v: serde_json::Value)
    ensures
        value_rep(v) == JVal::Obj(mods_fields(mods@)),
{
    let mut m = new_map();
    if let Option::Some(d) = &mods.cmd {
        let e = d.to_json();
        map_insert(&mut m, "cmd", e);
    }
    if let Option::Some(d) = &mods.alt {
        let e = d.to_json();
        map_insert(&mut m, "alt", e);
    }
    if let Option::Some(d) = &mods.ctrl {
        let e = d.to_json();
        map_insert(&mut m, "ctrl", e);
    }
    if let Option::Some(d) = &mods.shift {
        let e = d.to_json();
        map_insert(&mut m, "shift", e);
    }
    if let Option::Some(d) = &mods.func {
        let e = d.to_json();
        map_insert(&mut m, "fn", e);
    }
    value_object(m)
}

impl Item {
    /// Encodes the item as its JSON object, with every key present exactly
    /// under the condition the specification states.
    pub fn to_json(&self) -> (v: serde_json::Value)
        ensures
            value_rep(v) == item_json(self@),
    {
        let mut m = new_map();
        let t = value_string(self.title.as_str());
        map_insert(&mut m, "title", t);
        if let Option::Some(subtitle) = &self.subtitle {
            let s = value_string(subtitle.as_str());
            map_insert(&mut m, "subtitle", s);
        }
        if let Option::Some(icon) = &self.icon {
            let ic = icon.to_json();
            map_insert(&mut m, "icon", ic);
        }
        if let Option::Some(uid) = &self.uid {
            let s = value_string(uid.as_str());
            map_insert(&mut m, "uid", s);
        }
        if let Option::Some(arg) = &self.arg {
            let s = value_string(arg.as_str());
            map_insert(&mut m, "arg", s);
        }
        match self.type_ {
            ItemType::Default => {}
            ItemType::File => {
                let s = value_string("file");
                map_insert(&mut m, "type", s);
            }
            ItemType::FileSkipCheck => {
                let s = value_string("file:skipcheck");
                map_insert(&mut m, "type", s);
            }
        }
        if !self.valid {
            let b = value_bool(false);
            map_insert(&mut m, "valid", b);
        }
        if let Option::Some(autocomplete) = &self.autocomplete {
            let s = value_string(autocomplete.as_str());
            map_insert(&mut m, "autocomplete", s);
        }
        if self.text_copy.is_some() || self.text_large_type.is_some() {
            let mut text = new_map();
            if let Option::Some(copy) = &self.text_copy {
                let s = value_string(copy.as_str());
                map_insert(&mut text, "copy", s);
            }
            if let Option::Some(large) = &self.text_large_type {
                let s = value_string(large.as_str());
                map_insert(&mut text, "largetype", s);
            }
            proof {
                assert(map_rep(text) == text_fields(self@.text_copy, self@.text_large_type));
            }
            let tv = value_object(text);
            map_insert(&mut m, "text", tv);
        }
        if let Option::Some(url) = &self.quicklook_url {
            let s = value_string(url.as_str());
            map_insert(&mut m, "quicklookurl", s);
        }
        if !self.modifiers.is_empty() {
            let mv = mods_to_json(&self.modifiers);
            map_insert(&mut m, "mods", mv);
        }
        if self.variables.len() > 0 {
            let vars = vars_to_json(&self.variables);
            map_insert(&mut m, "variables", vars);
        }
        value_object(m)
    }
}

/// Gathers a sequence of items and a top-level variable mapping, and
/// encodes them as the root JSON document.
pub struct Builder {
    /// The items written out, in display order.
    pub items: Vec<Item>,
    /// The top-level variable bindings; a later binding for a key replaces
    /// an earlier one.
    pub variables: Vec<(String, String)>,
}

/// The abstract value of a [`Builder`].
#[verifier::ext_equal]
pub ghost struct BuilderView {
    pub items: Seq<crate::item::ItemView>,
    pub variables: Seq<(Seq<char>, Seq<char>)>,
}

impl View for Builder {
    type V = BuilderView;

    open spec fn view(&self) -> BuilderView {
        BuilderView {
            items: self.items@.map_values(|it: Item| it@),
            variables: crate::item::pairs_view(self.variables@),
        }
    }
}

impl BuilderView {
    /// The root document this builder encodes to.
    pub open spec fn document(self) -> JVal {
        document_json(self.items, self.variables)
    }
}

impl Builder {
    /// A builder with no items and no variables.
    pub fn new() -> (b: Builder)
        ensures
            b@.items =~= Seq::<crate::item::ItemView>::empty(),
            b@.variables =~= Seq::<(Seq<char>, Seq<char>)>::empty(),
    {
        Builder { items: Vec::new(), variables: Vec::new() }
    }

    /// A builder with the given items and no variables.
    pub fn with_items(items: Vec<Item>) -> (b: Builder)
        ensures
            b@.items =~= items@.map_values(|it: Item| it@),
            b@.variables =~= Seq::<(Seq<char>, Seq<char>)>::empty(),
    {
        Builder { items, variables: Vec::new() }
    }

    /// Replaces the builder's items with `items`.
    pub fn items(self, items: Vec<Item>) -> (b: Builder)
        ensures
            b@ == (BuilderView { items: items@.map_values(|it: Item| it@), ..self@ }),
    {
        let mut b = self;
        b.set_items(items);
        b
    }

    /// Replaces the builder's variables with `variables`.
    pub fn variables(self, variables: Vec<(String, String)>) -> (b: Builder)
        ensures
            b@ == (BuilderView { variables: crate::item::pairs_view(variables@), ..self@ }),
    {
        let mut b = self;
        b.set_variables(variables);
        b
    }

    /// Adds one variable binding to the builder's variables.
    pub fn variable(self, key: String, value: String) -> (b: Builder)
        ensures
            b@ == (BuilderView { variables: self@.variables.push((key@, value@)), ..self@ }),
    {
        let mut b = self;
        b.set_variable(key, value);
        b
    }

    /// Replaces the builder's items with `items`.
    pub fn set_items(&mut self, items: Vec<Item>)
        ensures
            final(self)@ == (BuilderView {
                items: items@.map_values(|it: Item| it@),
                ..old(self)@
            }),
    {
        self.items = items;
    }

    /// Replaces the builder's variables with `variables`.
    pub fn set_variables(&mut self, variables: Vec<(String, String)>)
        ensures
            final(self)@ == (BuilderView {
                variables: crate::item::pairs_view(variables@),
                ..old(self)@
            }),
    {
        self.variables = variables;
    }

    /// Adds one variable binding to the builder's variables.
    pub fn set_variable(&mut self, key: String, value: String)
        ensures
            final(self)@ == (BuilderView {
                variables: old(self)@.variables.push((key@, value@)),
                ..old(self)@
            }),
    {
        self.variables.push((key, value));
        proof {
            assert(crate::item::pairs_view(self.variables@) =~= old(self)@.variables.push(
                (key@, value@),
            ));
        }
    }

    /// Encodes the items and variables as the root JSON document.
    pub fn into_json(self) -> (v: serde_json::Value)
        ensures
            value_rep(v) == self@.document(),
    {
        let mut arr: Vec<serde_json::Value> = Vec::new();
        let mut i: usize = 0;
        while i < self.items.len()
            invariant
                i <= self.items.len(),
                arr@.len() == i,
                forall|j: int|
                    0 <= j < i ==> value_rep(arr@[j]) == item_json(self.items@[j]@),
            decreases self.items.len() - i,
        {
            let v = self.items[i].to_json();
            arr.push(v);
            i += 1;
        }
        let mut root = new_map();
        proof {
            assert(arr@.map_values(|x: serde_json::Value| value_rep(x)) =~= self@.items.map_values(
                |it: crate::item::ItemView| item_json(it),
            ));
        }
        let items_value = value_array(arr);
        map_insert(&mut root, "items", items_value);
        if self.variables.len() > 0 {
            let vars = vars_to_json(&self.variables);
            map_insert(&mut root, "variables", vars);
        }
        value_object(root)
    }

    /// Encodes the items and variables and returns the document's compact
    /// JSON text. Equal builders give byte-identical text.
    pub fn to_json_text(self) -> (s: String)
        ensures
            s@ == rendered(self@.document()),
    {
        let v = self.into_json();
        value_text(&v)
    }
}

} // verus!
