//! A fluent facade over [`Item`]: each method sets one field of the item
//! under construction and hands the builder back. It carries no encoding
//! logic of its own.

use vstd::prelude::*;
use crate::item::{
    Icon, IconView, Item, ItemType, ItemView, Modifier, ModifierData, ModifierDataView, ModsView,
    pairs_view,
};

verus! {

/// Proof that removing an entry before replacing it changes nothing: the
/// replacement alone decides what the entry becomes.
pub proof fn lemma_cleared_with_entry(a: ModsView, m: Modifier, d: ModifierDataView)
    ensures
        a.cleared(m).with_entry(m, d) == a.with_entry(m, d),
{
    assert(a.cleared(m).with_entry(m, d) =~= a.with_entry(m, d));
}

/// Builds an [`Item`] by setting one field at a time.
pub struct ItemBuilder {
    /// The item built so far.
    pub item: Item,
}

impl ItemBuilder {
    /// A builder for a new item with the given title and nothing else set.
    pub fn new(title: String) -> (b: ItemBuilder)
        ensures
            b.item@ == ItemView::bare(title@),
    {
        ItemBuilder { item: Item::new(title) }
    }

    /// Hands out the finished item.
    pub fn into_item(self) -> (it: Item)
        ensures
            it@ == self.item@,
    {
        self.item
    }

    /// Replaces the item's title.
    pub fn title(self, title: String) -> (b: ItemBuilder)
        ensures
            b.item@ == (ItemView { title: title@, ..self.item@ }),
    {
        let mut item = self.item;
        item.title = title;
        ItemBuilder { item }
    }

    /// Sets the item's subtitle.
    pub fn subtitle(self, subtitle: String) -> (b: ItemBuilder)
        ensures
            b.item@ == (ItemView { subtitle: Option::Some(subtitle@), ..self.item@ }),
    {
        let mut item = self.item;
        item.subtitle = Option::Some(subtitle);
        ItemBuilder { item }
    }

    /// Sets the item's icon to the image file at `path`.
    pub fn icon_path(self, path: String) -> (b: ItemBuilder)
        ensures
            b.item@ == (ItemView {
                icon: Option::Some(IconView::Path(path@)),
                ..self.item@
            }),
    {
        let mut item = self.item;
        item.icon = Option::Some(Icon::Path(path));
        ItemBuilder { item }
    }

    /// Sets the item's icon to the icon of the file at `path`.
    pub fn icon_file(self, path: String) -> (b: ItemBuilder)
        ensures
            b.item@ == (ItemView {
                icon: Option::Some(IconView::FileIcon(path@)),
                ..self.item@
            }),
    {
        let mut item = self.item;
        item.icon = Option::Some(Icon::FileIcon(path));
        ItemBuilder { item }
    }

    /// Sets the item's icon to the icon for the given file type.
    pub fn icon_filetype(self, filetype: String) -> (b: ItemBuilder)
        ensures
            b.item@ == (ItemView {
                icon: Option::Some(IconView::FileType(filetype@)),
                ..self.item@
            }),
    {
        let mut item = self.item;
        item.icon = Option::Some(Icon::FileType(filetype));
        ItemBuilder { item }
    }

    /// Sets the item's uid.
    pub fn uid(self, uid: String) -> (b: ItemBuilder)
        ensures
            b.item@ == (ItemView { uid: Option::Some(uid@), ..self.item@ }),
    {
        let mut item = self.item;
        item.uid = Option::Some(uid);
        ItemBuilder { item }
    }

    /// Sets the item's argument.
    pub fn arg(self, arg: String) -> (b: ItemBuilder)
        ensures
            b.item@ == (ItemView { arg: Option::Some(arg@), ..self.item@ }),
    {
        let mut item = self.item;
        item.arg = Option::Some(arg);
        ItemBuilder { item }
    }

    /// Sets the item's type.
    pub fn type_(self, type_: ItemType) -> (b: ItemBuilder)
        ensures
            b.item@ == (ItemView { type_: type_, ..self.item@ }),
    {
        let mut item = self.item;
        item.type_ = type_;
        ItemBuilder { item }
    }

    /// Sets whether the item is actionable.
    pub fn valid(self, valid: bool) -> (b: ItemBuilder)
        ensures
            b.item@ == (ItemView { valid: valid, ..self.item@ }),
    {
        let mut item = self.item;
        item.valid = valid;
        ItemBuilder { item }
    }

    /// Sets the item's autocompletion text.
    pub fn autocomplete(self, autocomplete: String) -> (b: ItemBuilder)
        ensures
            b.item@ == (ItemView {
                autocomplete: Option::Some(autocomplete@),
                ..self.item@
            }),
    {
        let mut item = self.item;
        item.autocomplete = Option::Some(autocomplete);
        ItemBuilder { item }
    }

    /// Sets the text copied to the clipboard.
    pub fn text_copy(self, text: String) -> (b: ItemBuilder)
        ensures
            b.item@ == (ItemView { text_copy: Option::Some(text@), ..self.item@ }),
    {
        let mut item = self.item;
        item.text_copy = Option::Some(text);
        ItemBuilder { item }
    }

    /// Sets the text shown as large type.
    pub fn text_large_type(self, text: String) -> (b: ItemBuilder)
        ensures
            b.item@ == (ItemView {
                text_large_type: Option::Some(text@),
                ..self.item@
            }),
    {
        let mut item = self.item;
        item.text_large_type = Option::Some(text);
        ItemBuilder { item }
    }

    /// Sets the item's quicklook URL.
    pub fn quicklook_url(self, url: String) -> (b: ItemBuilder)
        ensures
            b.item@ == (ItemView {
                quicklook_url: Option::Some(url@),
                ..self.item@
            }),
    {
        let mut item = self.item;
        item.quicklook_url = Option::Some(url);
        ItemBuilder { item }
    }

    /// Adds one variable binding to the item.
    pub fn variable(self, key: String, value: String) -> (b: ItemBuilder)
        ensures
            b.item@ == (ItemView {
                variables: self.item@.variables.push((key@, value@)),
                ..self.item@
            }),
    {
        let mut item = self.item;
        let ghost before = item.variables@;
        item.variables.push((key, value));
        proof {
            assert(pairs_view(item.variables@) =~= pairs_view(before).push((key@, value@)));
        }
        ItemBuilder { item }
    }

    /// Sets the subtitle shown while `modifier` is held.
    pub fn subtitle_mod(self, modifier: Modifier, subtitle: String) -> (b: ItemBuilder)
        ensures
            b.item@ == (ItemView {
                modifiers: self.item@.modifiers.with_entry(modifier, (ModifierDataView {
                    subtitle: Option::Some(subtitle@),
                    ..self.item@.modifiers.entry_or_empty(modifier)
                })),
                ..self.item@
            }),
    {
        let mut item = self.item;
        let mods = item.modifiers;
        let ghost orig = mods@;
        let (rest, d0) = mods.take_entry(modifier);
        let d = ModifierData { subtitle: Option::Some(subtitle), ..d0 };
        item.modifiers = rest.put_entry(modifier, d);
        proof {
            lemma_cleared_with_entry(orig, modifier, d@);
        }
        ItemBuilder { item }
    }

    /// Sets the argument passed on while `modifier` is held.
    pub fn arg_mod(self, modifier: Modifier, arg: String) -> (b: ItemBuilder)
        ensures
            b.item@ == (ItemView {
                modifiers: self.item@.modifiers.with_entry(modifier, (ModifierDataView {
                    arg: Option::Some(arg@),
                    ..self.item@.modifiers.entry_or_empty(modifier)
                })),
                ..self.item@
            }),
    {
        let mut item = self.item;
        let mods = item.modifiers;
        let ghost orig = mods@;
        let (rest, d0) = mods.take_entry(modifier);
        let d = ModifierData { arg: Option::Some(arg), ..d0 };
        item.modifiers = rest.put_entry(modifier, d);
        proof {
            lemma_cleared_with_entry(orig, modifier, d@);
        }
        ItemBuilder { item }
    }

    /// Sets whether the item is actionable while `modifier` is held.
    pub fn valid_mod(self, modifier: Modifier, valid: bool) -> (b: ItemBuilder)
        ensures
            b.item@ == (ItemView {
                modifiers: self.item@.modifiers.with_entry(modifier, (ModifierDataView {
                    valid: Option::Some(valid),
                    ..self.item@.modifiers.entry_or_empty(modifier)
                })),
                ..self.item@
            }),
    {
        let mut item = self.item;
        let mods = item.modifiers;
        let ghost orig = mods@;
        let (rest, d0) = mods.take_entry(modifier);
        let d = ModifierData { valid: Option::Some(valid), ..d0 };
        item.modifiers = rest.put_entry(modifier, d);
        proof {
            lemma_cleared_with_entry(orig, modifier, d@);
        }
        ItemBuilder { item }
    }

    /// Sets the icon shown while `modifier` is held to the image at `path`.
    pub fn icon_path_mod(self, modifier: Modifier, path: String) -> (b: ItemBuilder)
        ensures
            b.item@ == (ItemView {
                modifiers: self.item@.modifiers.with_entry(modifier, (ModifierDataView {
                    icon: Option::Some(IconView::Path(path@)),
                    ..self.item@.modifiers.entry_or_empty(modifier)
                })),
                ..self.item@
            }),
    {
        let mut item = self.item;
        let mods = item.modifiers;
        let ghost orig = mods@;
        let (rest, d0) = mods.take_entry(modifier);
        let d = ModifierData { icon: Option::Some(Icon::Path(path)), ..d0 };
        item.modifiers = rest.put_entry(modifier, d);
        proof {
            lemma_cleared_with_entry(orig, modifier, d@);
        }
        ItemBuilder { item }
    }

    /// Sets the icon shown while `modifier` is held to the icon of the file
    /// at `path`.
    pub fn icon_file_mod(self, modifier: Modifier, path: String) -> (b: ItemBuilder)
        ensures
            b.item@ == (ItemView {
                modifiers: self.item@.modifiers.with_entry(modifier, (ModifierDataView {
                    icon: Option::Some(IconView::FileIcon(path@)),
                    ..self.item@.modifiers.entry_or_empty(modifier)
                })),
                ..self.item@
            }),
    {
        let mut item = self.item;
        let mods = item.modifiers;
        let ghost orig = mods@;
        let (rest, d0) = mods.take_entry(modifier);
        let d = ModifierData { icon: Option::Some(Icon::FileIcon(path)), ..d0 };
        item.modifiers = rest.put_entry(modifier, d);
        proof {
            lemma_cleared_with_entry(orig, modifier, d@);
        }
        ItemBuilder { item }
    }

    /// Sets the icon shown while `modifier` is held to the icon for the
    /// given file type.
    pub fn icon_filetype_mod(self, modifier: Modifier, filetype: String) -> (b: ItemBuilder)
        ensures
            b.item@ == (ItemView {
                modifiers: self.item@.modifiers.with_entry(modifier, (ModifierDataView {
                    icon: Option::Some(IconView::FileType(filetype@)),
                    ..self.item@.modifiers.entry_or_empty(modifier)
                })),
                ..self.item@
            }),
    {
        let mut item = self.item;
        let mods = item.modifiers;
        let ghost orig = mods@;
        let (rest, d0) = mods.take_entry(modifier);
        let d = ModifierData { icon: Option::Some(Icon::FileType(filetype)), ..d0 };
        item.modifiers = rest.put_entry(modifier, d);
        proof {
            lemma_cleared_with_entry(orig, modifier, d@);
        }
        ItemBuilder { item }
    }

    /// Adds one variable binding active while `modifier` is held.
    pub fn variable_mod(self, modifier: Modifier, key: String, value: String) -> (b: ItemBuilder)
        ensures
            b.item@ == (ItemView {
                modifiers: self.item@.modifiers.with_entry(modifier, (ModifierDataView {
                    variables: self.item@.modifiers.entry_or_empty(modifier).variables.push(
                        (key@, value@),
                    ),
                    ..self.item@.modifiers.entry_or_empty(modifier)
                })),
                ..self.item@
            }),
    {
        let mut item = self.item;
        let mods = item.modifiers;
        let ghost orig = mods@;
        let (rest, mut d) = mods.take_entry(modifier);
        let ghost before = d.variables@;
        d.variables.push((key, value));
        proof {
            assert(pairs_view(d.variables@) =~= pairs_view(before).push((key@, value@)));
            assert(d@ =~= (ModifierDataView {
                variables: orig.entry_or_empty(modifier).variables.push((key@, value@)),
                ..orig.entry_or_empty(modifier)
            }));
        }
        item.modifiers = rest.put_entry(modifier, d);
        proof {
            lemma_cleared_with_entry(orig, modifier, d@);
        }
        ItemBuilder { item }
    }
}

} // verus!
