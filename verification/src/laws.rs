//! Proved laws of the encoding: for each JSON key, exactly when it appears
//! and what stands under it; and that the rendered text is determined by
//! the encoded value alone.

use vstd::prelude::*;
use crate::item::{ItemType, ItemView, ModifierDataView, ModsView};
use crate::json::BuilderView;
use crate::model::{
    document_fields, icon_json, item_fields, mod_data_fields, mod_data_json, mods_fields,
    text_fields, vars_fields, JVal,
};
use crate::wire::rendered;

verus! {

/// Whether some pair in `s` binds the key `k`.
pub open spec fn binds(s: Seq<(Seq<char>, Seq<char>)>, k: Seq<char>) -> bool {
    exists|i: int| 0 <= i < s.len() && (#[trigger] s[i]).0 == k
}

/// A variable object holds exactly the bound keys, and it is empty exactly
/// when no binding exists.
pub proof fn lemma_vars_keys(s: Seq<(Seq<char>, Seq<char>)>)
    ensures
        forall|k: Seq<char>| #[trigger] vars_fields(s).contains_key(k) <==> binds(s, k),
        s.len() == 0 <==> vars_fields(s) == Map::<Seq<char>, JVal>::empty(),
    decreases s.len(),
{
    if s.len() == 0 {
    } else {
        lemma_vars_keys(s.drop_last());
        assert forall|k: Seq<char>| #[trigger] vars_fields(s).contains_key(k) implies binds(
            s,
            k,
        ) by {
            if s.last().0 == k {
                assert((#[trigger] s[s.len() - 1]).0 == k);
            } else {
                assert(vars_fields(s.drop_last()).contains_key(k));
                let i = choose|i: int|
                    0 <= i < s.drop_last().len() && (#[trigger] s.drop_last()[i]).0 == k;
                assert((#[trigger] s[i]).0 == k);
            }
        }
        assert forall|k: Seq<char>| binds(s, k) implies vars_fields(s).contains_key(k) by {
            let i = choose|i: int| 0 <= i < s.len() && (#[trigger] s[i]).0 == k;
            if i < s.len() - 1 {
                assert((#[trigger] s.drop_last()[i]).0 == k);
                assert(binds(s.drop_last(), k));
            }
        }
        assert((#[trigger] s[s.len() - 1]).0 == s.last().0);
        assert(vars_fields(s).contains_key(s.last().0));
    }
}

/// With unique keys, every binding comes through exactly: the object maps
/// each bound key to its bound text.
pub proof fn lemma_vars_roundtrip(s: Seq<(Seq<char>, Seq<char>)>)
    requires
        forall|i: int, j: int| 0 <= i < j < s.len() ==> (#[trigger] s[i]).0 != (#[trigger] s[j]).0,
    ensures
        forall|i: int|
            0 <= i < s.len() ==> vars_fields(s).contains_key((#[trigger] s[i]).0)
                && vars_fields(s)[s[i].0] == JVal::Str(s[i].1),
    decreases s.len(),
{
    if s.len() > 0 {
        lemma_vars_roundtrip(s.drop_last());
        lemma_vars_keys(s.drop_last());
        assert forall|i: int|
            0 <= i < s.len() implies vars_fields(s).contains_key((#[trigger] s[i]).0)
            && vars_fields(s)[s[i].0] == JVal::Str(s[i].1) by {
            if i < s.len() - 1 {
                assert(s.drop_last()[i] == s[i]);
                assert(s[i].0 != s[s.len() - 1].0);
            }
        }
    }
}

/// The icon object: a `path` key always, holding the icon's path text; a
/// `type` key exactly for the two variants that do not name an image file,
/// holding `fileicon` or `filetype`; nothing else.
pub proof fn lemma_icon_json(i: crate::item::IconView)
    ensures
        icon_json(i) is Obj,
        icon_json(i)->Obj_0.contains_key("path"@),
        icon_json(i)->Obj_0.contains_key("type"@) <==> !(i is Path),
        forall|k: Seq<char>|
            #[trigger] icon_json(i)->Obj_0.contains_key(k) ==> k == "path"@ || k == "type"@,
        i matches crate::item::IconView::Path(p) ==> icon_json(i)->Obj_0["path"@] == JVal::Str(p),
        i matches crate::item::IconView::FileIcon(p) ==> icon_json(i)->Obj_0["path"@] == JVal::Str(p)
            && icon_json(i)->Obj_0["type"@] == JVal::Str("fileicon"@),
        i matches crate::item::IconView::FileType(p) ==> icon_json(i)->Obj_0["path"@] == JVal::Str(
            p,
        ) && icon_json(i)->Obj_0["type"@] == JVal::Str("filetype"@),
{
    reveal_strlit("path");
    reveal_strlit("type");
    assert("path"@[0] == 'p' && "type"@[0] == 't');
    assert("path"@ != "type"@);
}

/// The modifier override object: each of its five fields under its key
/// exactly when the field is set, `variables` exactly when a binding
/// exists, and no other key.
pub proof fn lemma_mod_data_fields(d: ModifierDataView)
    ensures
        mod_data_fields(d).contains_key("subtitle"@) <==> d.subtitle is Some,
        d.subtitle is Some ==> mod_data_fields(d)["subtitle"@] == JVal::Str(d.subtitle.unwrap()),
        mod_data_fields(d).contains_key("arg"@) <==> d.arg is Some,
        d.arg is Some ==> mod_data_fields(d)["arg"@] == JVal::Str(d.arg.unwrap()),
        mod_data_fields(d).contains_key("valid"@) <==> d.valid is Some,
        d.valid is Some ==> mod_data_fields(d)["valid"@] == JVal::Bool(d.valid.unwrap()),
        mod_data_fields(d).contains_key("icon"@) <==> d.icon is Some,
        d.icon is Some ==> mod_data_fields(d)["icon"@] == icon_json(d.icon.unwrap()),
        mod_data_fields(d).contains_key("variables"@) <==> d.variables.len() != 0,
        d.variables.len() != 0 ==> mod_data_fields(d)["variables"@] == JVal::Obj(
            vars_fields(d.variables),
        ),
        forall|k: Seq<char>|
            #[trigger] mod_data_fields(d).contains_key(k) ==> k == "subtitle"@ || k == "arg"@
                || k == "valid"@ || k == "icon"@ || k == "variables"@,
{
    reveal_strlit("subtitle");
    reveal_strlit("arg");
    reveal_strlit("valid");
    reveal_strlit("icon");
    reveal_strlit("variables");
    assert("subtitle"@.len() == 8 && "arg"@.len() == 3 && "valid"@.len() == 5 && "icon"@.len()
        == 4 && "variables"@.len() == 9);
}

/// An override with nothing set encodes to the empty object; its caller
/// still writes that object under the modifier's key.
pub proof fn lemma_empty_mod_data(d: ModifierDataView)
    requires
        d == ModifierDataView::empty(),
    ensures
        mod_data_json(d) == JVal::Obj(Map::<Seq<char>, JVal>::empty()),
{
}

/// The `mods` object: one key per modifier that has an entry, under its
/// fixed wire name (`cmd`, `alt`, `ctrl`, `shift`, `fn`), holding that
/// entry's override object; no other key; empty exactly when no modifier
/// has an entry.
pub proof fn lemma_mods_fields(m: ModsView)
    ensures
        mods_fields(m).contains_key("cmd"@) <==> m.cmd is Some,
        m.cmd is Some ==> mods_fields(m)["cmd"@] == mod_data_json(m.cmd.unwrap()),
        mods_fields(m).contains_key("alt"@) <==> m.alt is Some,
        m.alt is Some ==> mods_fields(m)["alt"@] == mod_data_json(m.alt.unwrap()),
        mods_fields(m).contains_key("ctrl"@) <==> m.ctrl is Some,
        m.ctrl is Some ==> mods_fields(m)["ctrl"@] == mod_data_json(m.ctrl.unwrap()),
        mods_fields(m).contains_key("shift"@) <==> m.shift is Some,
        m.shift is Some ==> mods_fields(m)["shift"@] == mod_data_json(m.shift.unwrap()),
        mods_fields(m).contains_key("fn"@) <==> m.func is Some,
        m.func is Some ==> mods_fields(m)["fn"@] == mod_data_json(m.func.unwrap()),
        forall|k: Seq<char>|
            #[trigger] mods_fields(m).contains_key(k) ==> k == "cmd"@ || k == "alt"@
                || k == "ctrl"@ || k == "shift"@ || k == "fn"@,
        m.is_empty() <==> mods_fields(m) == Map::<Seq<char>, JVal>::empty(),
{
    reveal_strlit("cmd");
    reveal_strlit("alt");
    reveal_strlit("ctrl");
    reveal_strlit("shift");
    reveal_strlit("fn");
    assert("cmd"@.len() == 3 && "alt"@.len() == 3 && "ctrl"@.len() == 4 && "shift"@.len() == 5
        && "fn"@.len() == 2);
    assert("cmd"@[0] == 'c' && "alt"@[0] == 'a');
    assert("cmd"@ != "alt"@);
    if !m.is_empty() {
        if m.cmd is Some {
            assert(mods_fields(m).contains_key("cmd"@));
        } else if m.alt is Some {
            assert(mods_fields(m).contains_key("alt"@));
        } else if m.ctrl is Some {
            assert(mods_fields(m).contains_key("ctrl"@));
        } else if m.shift is Some {
            assert(mods_fields(m).contains_key("shift"@));
        } else {
            assert(mods_fields(m).contains_key("fn"@));
        }
    }
}

/// The `text` object: `copy` and `largetype`, each present exactly when
/// its own field is set, independently of the other; no other key.
pub proof fn lemma_text_fields(copy: Option<Seq<char>>, large: Option<Seq<char>>)
    ensures
        text_fields(copy, large).contains_key("copy"@) <==> copy is Some,
        copy is Some ==> text_fields(copy, large)["copy"@] == JVal::Str(copy.unwrap()),
        text_fields(copy, large).contains_key("largetype"@) <==> large is Some,
        large is Some ==> text_fields(copy, large)["largetype"@] == JVal::Str(large.unwrap()),
        forall|k: Seq<char>|
            #[trigger] text_fields(copy, large).contains_key(k) ==> k == "copy"@
                || k == "largetype"@,
{
    reveal_strlit("copy");
    reveal_strlit("largetype");
    assert("copy"@.len() == 4 && "largetype"@.len() == 9);
    assert("copy"@ != "largetype"@);
}

/// The item object, key by key: `title` always, with the item's title;
/// each optional text field under its key exactly when set; `type` exactly
/// when the type is not the default, with value `file` or `file:skipcheck`;
/// `valid` exactly when validity is false, and then `false`; `text` exactly
/// when one of its sub-fields is set; `mods` exactly when some modifier has
/// an entry; `variables` exactly when a binding exists; and no key beyond
/// these twelve.
pub proof fn lemma_item_fields(it: ItemView)
    ensures
        item_fields(it).contains_key("title"@),
        item_fields(it)["title"@] == JVal::Str(it.title),
        item_fields(it).contains_key("subtitle"@) <==> it.subtitle is Some,
        it.subtitle is Some ==> item_fields(it)["subtitle"@] == JVal::Str(it.subtitle.unwrap()),
        item_fields(it).contains_key("icon"@) <==> it.icon is Some,
        it.icon is Some ==> item_fields(it)["icon"@] == icon_json(it.icon.unwrap()),
        item_fields(it).contains_key("uid"@) <==> it.uid is Some,
        it.uid is Some ==> item_fields(it)["uid"@] == JVal::Str(it.uid.unwrap()),
        item_fields(it).contains_key("arg"@) <==> it.arg is Some,
        it.arg is Some ==> item_fields(it)["arg"@] == JVal::Str(it.arg.unwrap()),
        item_fields(it).contains_key("type"@) <==> !(it.type_ is Default),
        it.type_ is File ==> item_fields(it)["type"@] == JVal::Str("file"@),
        it.type_ is FileSkipCheck ==> item_fields(it)["type"@] == JVal::Str("file:skipcheck"@),
        item_fields(it).contains_key("valid"@) <==> !it.valid,
        !it.valid ==> item_fields(it)["valid"@] == JVal::Bool(false),
        item_fields(it).contains_key("autocomplete"@) <==> it.autocomplete is Some,
        it.autocomplete is Some ==> item_fields(it)["autocomplete"@] == JVal::Str(
            it.autocomplete.unwrap(),
        ),
        item_fields(it).contains_key("text"@) <==> (it.text_copy is Some
            || it.text_large_type is Some),
        (it.text_copy is Some || it.text_large_type is Some) ==> item_fields(it)["text"@]
            == JVal::Obj(text_fields(it.text_copy, it.text_large_type)),
        item_fields(it).contains_key("quicklookurl"@) <==> it.quicklook_url is Some,
        it.quicklook_url is Some ==> item_fields(it)["quicklookurl"@] == JVal::Str(
            it.quicklook_url.unwrap(),
        ),
        item_fields(it).contains_key("mods"@) <==> !it.modifiers.is_empty(),
        !it.modifiers.is_empty() ==> item_fields(it)["mods"@] == JVal::Obj(
            mods_fields(it.modifiers),
        ),
        item_fields(it).contains_key("variables"@) <==> it.variables.len() != 0,
        it.variables.len() != 0 ==> item_fields(it)["variables"@] == JVal::Obj(
            vars_fields(it.variables),
        ),
        forall|k: Seq<char>|
            #[trigger] item_fields(it).contains_key(k) ==> k == "title"@ || k == "subtitle"@
                || k == "icon"@ || k == "uid"@ || k == "arg"@ || k == "type"@ || k == "valid"@
                || k == "autocomplete"@ || k == "text"@ || k == "quicklookurl"@ || k == "mods"@
                || k == "variables"@,
{
    reveal_strlit("title");
    reveal_strlit("subtitle");
    reveal_strlit("icon");
    reveal_strlit("uid");
    reveal_strlit("arg");
    reveal_strlit("type");
    reveal_strlit("valid");
    reveal_strlit("autocomplete");
    reveal_strlit("text");
    reveal_strlit("quicklookurl");
    reveal_strlit("mods");
    reveal_strlit("variables");
    assert("title"@.len() == 5 && "subtitle"@.len() == 8 && "icon"@.len() == 4 && "uid"@.len()
        == 3 && "arg"@.len() == 3 && "type"@.len() == 4 && "valid"@.len() == 5
        && "autocomplete"@.len() == 12 && "text"@.len() == 4 && "quicklookurl"@.len() == 12
        && "mods"@.len() == 4 && "variables"@.len() == 9);
    assert("title"@[0] == 't' && "valid"@[0] == 'v');
    assert("icon"@[0] == 'i' && "type"@[0] == 't' && "text"@[0] == 't' && "mods"@[0] == 'm');
    assert("type"@[1] == 'y' && "text"@[1] == 'e');
    assert("uid"@[0] == 'u' && "arg"@[0] == 'a');
    assert("autocomplete"@[0] == 'a' && "quicklookurl"@[0] == 'q');
    assert("title"@ != "valid"@ && "icon"@ != "type"@ && "icon"@ != "text"@ && "icon"@ != "mods"@
        && "type"@ != "text"@ && "type"@ != "mods"@ && "text"@ != "mods"@ && "uid"@ != "arg"@
        && "autocomplete"@ != "quicklookurl"@);
}

/// An item with no optional field set encodes to an object with exactly
/// one key, `title`, equal to the item's title.
pub proof fn lemma_bare_item_encoding(it: ItemView)
    requires
        it.subtitle is None,
        it.icon is None,
        it.uid is None,
        it.arg is None,
        it.type_ is Default,
        it.valid,
        it.autocomplete is None,
        it.text_copy is None,
        it.text_large_type is None,
        it.quicklook_url is None,
        it.modifiers.is_empty(),
        it.variables.len() == 0,
    ensures
        item_fields(it) == Map::<Seq<char>, JVal>::empty().insert("title"@, JVal::Str(it.title)),
        item_fields(it).dom() == Set::<Seq<char>>::empty().insert("title"@),
{
    lemma_item_fields(it);
    assert(item_fields(it) =~= Map::<Seq<char>, JVal>::empty().insert(
        "title"@,
        JVal::Str(it.title),
    ));
    assert(item_fields(it).dom() =~= Set::<Seq<char>>::empty().insert("title"@));
}

/// The root document: `items` always, holding one encoded object per item
/// in input order; `variables` exactly when a top-level binding exists;
/// no other key.
pub proof fn lemma_document_fields(items: Seq<ItemView>, vars: Seq<(Seq<char>, Seq<char>)>)
    ensures
        document_fields(items, vars).contains_key("items"@),
        document_fields(items, vars)["items"@] == JVal::Arr(
            items.map_values(|it: ItemView| crate::model::item_json(it)),
        ),
        document_fields(items, vars).contains_key("variables"@) <==> vars.len() != 0,
        vars.len() != 0 ==> document_fields(items, vars)["variables"@] == JVal::Obj(
            vars_fields(vars),
        ),
        forall|k: Seq<char>|
            #[trigger] document_fields(items, vars).contains_key(k) ==> k == "items"@
                || k == "variables"@,
{
    reveal_strlit("items");
    reveal_strlit("variables");
    assert("items"@.len() == 5 && "variables"@.len() == 9);
    assert("items"@ != "variables"@);
}

/// Encoding an empty item sequence with no top-level binding gives the
/// document whose one key is `items`, holding the empty array.
pub proof fn lemma_empty_document(items: Seq<ItemView>, vars: Seq<(Seq<char>, Seq<char>)>)
    requires
        items.len() == 0,
        vars.len() == 0,
    ensures
        document_fields(items, vars) == Map::<Seq<char>, JVal>::empty().insert(
            "items"@,
            JVal::Arr(Seq::<JVal>::empty()),
        ),
{
    lemma_document_fields(items, vars);
    assert(items.map_values(|it: ItemView| crate::model::item_json(it)) =~= Seq::<JVal>::empty());
    assert(document_fields(items, vars) =~= Map::<Seq<char>, JVal>::empty().insert(
        "items"@,
        JVal::Arr(Seq::<JVal>::empty()),
    ));
}

/// Encoding is deterministic: equal builder values render to the same
/// JSON text, byte for byte.
pub proof fn lemma_rendering_deterministic(a: BuilderView, b: BuilderView)
    requires
        a == b,
    ensures
        rendered(a.document()) == rendered(b.document()),
{
}

} // verus!
