//! The data model: icons, item types, keyboard modifiers and result items.

use vstd::prelude::*;

verus! {

/// An icon for a result item.
#[derive(Clone)]
pub enum Icon {
    /// Use the image file at the given path.
    Path(String),
    /// Use the icon of the file at the given path.
    FileIcon(String),
    /// Use the icon associated with the given file type (UTI string).
    FileType(String),
}

/// The abstract value of an [`Icon`].
pub ghost enum IconView {
    Path(Seq<char>),
    FileIcon(Seq<char>),
    FileType(Seq<char>),
}

impl View for Icon {
    type V = IconView;

    open spec fn view(&self) -> IconView {
        match self {
            Icon::Path(s) => IconView::Path(s@),
            Icon::FileIcon(s) => IconView::FileIcon(s@),
            Icon::FileType(s) => IconView::FileType(s@),
        }
    }
}

/// The type of a result item, as understood by the host.
#[derive(Clone, Copy, PartialEq, Eq, Structural)]
pub enum ItemType {
    /// An ordinary item; the encoding carries no `type` key.
    Default,
    /// The item is a file on disk.
    File,
    /// The item is a file on disk, and the host skips checking that it exists.
    FileSkipCheck,
}

/// A keyboard modifier key. Holding one while acting on an item selects the
/// overrides recorded for it.
#[derive(Clone, Copy, PartialEq, Eq, Structural)]
pub enum Modifier {
    Command,
    Option,
    Control,
    Shift,
    Fn,
}

/// The abstract value of an optional string field: the text if set.
pub open spec fn opt_view(o: Option<String>) -> Option<Seq<char>> {
    match o {
        Option::Some(s) => Option::Some(s@),
        Option::None => Option::None,
    }
}

/// The abstract value of a list of variable bindings: each pair as text.
pub open spec fn pairs_view(s: Seq<(String, String)>) -> Seq<(Seq<char>, Seq<char>)> {
    s.map_values(|p: (String, String)| (p.0@, p.1@))
}

/// Overrides that replace fields of an item while one modifier key is held.
/// Every field is optional; an absent field inherits the item's own value.
#[derive(Clone)]
pub struct ModifierData {
    pub subtitle: Option<String>,
    pub arg: Option<String>,
    pub valid: Option<bool>,
    pub icon: Option<Icon>,
    /// Variable bindings; a later binding for a key replaces an earlier one.
    pub variables: Vec<(String, String)>,
}

/// The abstract value of a [`ModifierData`].
#[verifier::ext_equal]
pub ghost struct ModifierDataView {
    pub subtitle: Option<Seq<char>>,
    pub arg: Option<Seq<char>>,
    pub valid: Option<bool>,
    pub icon: Option<IconView>,
    pub variables: Seq<(Seq<char>, Seq<char>)>,
}

impl View for ModifierData {
    type V = ModifierDataView;

    open spec fn view(&self) -> ModifierDataView {
        ModifierDataView {
            subtitle: opt_view(self.subtitle),
            arg: opt_view(self.arg),
            valid: self.valid,
            icon: match self.icon {
                Option::Some(i) => Option::Some(i@),
                Option::None => Option::None,
            },
            variables: pairs_view(self.variables@),
        }
    }
}

impl ModifierData {
    /// A `ModifierData` with every field absent.
    pub fn empty() -> (d: ModifierData)
        ensures
            d@ == ModifierDataView::empty(),
    {
        ModifierData {
            subtitle: Option::None,
            arg: Option::None,
            valid: Option::None,
            icon: Option::None,
            variables: Vec::new(),
        }
    }
}

impl ModifierDataView {
    /// The abstract value with every field absent.
    pub open spec fn empty() -> ModifierDataView {
        ModifierDataView {
            subtitle: Option::None,
            arg: Option::None,
            valid: Option::None,
            icon: Option::None,
            variables: Seq::empty(),
        }
    }
}

/// The modifier map of an item: at most one entry per modifier key, held in
/// one field per key so that exhaustiveness over the five keys is structural.
#[derive(Clone)]
pub struct Mods {
    pub cmd: Option<ModifierData>,
    pub alt: Option<ModifierData>,
    pub ctrl: Option<ModifierData>,
    pub shift: Option<ModifierData>,
    pub func: Option<ModifierData>,
}

/// The abstract value of a [`Mods`].
#[verifier::ext_equal]
pub ghost struct ModsView {
    pub cmd: Option<ModifierDataView>,
    pub alt: Option<ModifierDataView>,
    pub ctrl: Option<ModifierDataView>,
    pub shift: Option<ModifierDataView>,
    pub func: Option<ModifierDataView>,
}

/// The abstract value of one optional modifier entry.
pub open spec fn mod_opt_view(o: Option<ModifierData>) -> Option<ModifierDataView> {
    match o {
        Option::Some(d) => Option::Some(d@),
        Option::None => Option::None,
    }
}

impl View for Mods {
    type V = ModsView;

    open spec fn view(&self) -> ModsView {
        ModsView {
            cmd: mod_opt_view(self.cmd),
            alt: mod_opt_view(self.alt),
            ctrl: mod_opt_view(self.ctrl),
            shift: mod_opt_view(self.shift),
            func: mod_opt_view(self.func),
        }
    }
}

impl ModsView {
    /// The entry recorded for a modifier key, if any.
    pub open spec fn entry(self, m: Modifier) -> Option<ModifierDataView> {
        match m {
            Modifier::Command => self.cmd,
            Modifier::Option => self.alt,
            Modifier::Control => self.ctrl,
            Modifier::Shift => self.shift,
            Modifier::Fn => self.func,
        }
    }

    /// This map with the entry for `m` replaced by `d`.
    pub open spec fn with_entry(self, m: Modifier, d: ModifierDataView) -> ModsView {
        match m {
            Modifier::Command => ModsView { cmd: Option::Some(d), ..self },
            Modifier::Option => ModsView { alt: Option::Some(d), ..self },
            Modifier::Control => ModsView { ctrl: Option::Some(d), ..self },
            Modifier::Shift => ModsView { shift: Option::Some(d), ..self },
            Modifier::Fn => ModsView { func: Option::Some(d), ..self },
        }
    }

    /// This map with the entry for `m` removed.
    pub open spec fn cleared(self, m: Modifier) -> ModsView {
        match m {
            Modifier::Command => ModsView { cmd: Option::None, ..self },
            Modifier::Option => ModsView { alt: Option::None, ..self },
            Modifier::Control => ModsView { ctrl: Option::None, ..self },
            Modifier::Shift => ModsView { shift: Option::None, ..self },
            Modifier::Fn => ModsView { func: Option::None, ..self },
        }
    }

    /// The entry for `m`, or the empty override if none is recorded.
    pub open spec fn entry_or_empty(self, m: Modifier) -> ModifierDataView {
        match self.entry(m) {
            Option::Some(d) => d,
            Option::None => ModifierDataView::empty(),
        }
    }

    /// Whether no modifier key has an entry.
    pub open spec fn is_empty(self) -> bool {
        self.cmd is None && self.alt is None && self.ctrl is None && self.shift is None
            && self.func is None
    }

    /// The abstract value of an empty modifier map.
    pub open spec fn empty() -> ModsView {
        ModsView {
            cmd: Option::None,
            alt: Option::None,
            ctrl: Option::None,
            shift: Option::None,
            func: Option::None,
        }
    }
}

impl Mods {
    /// A modifier map with no entries.
    pub fn new() -> (m: Mods)
        ensures
            m@ == ModsView::empty(),
    {
        Mods {
            cmd: Option::None,
            alt: Option::None,
            ctrl: Option::None,
            shift: Option::None,
            func: Option::None,
        }
    }

    /// Whether no modifier key has an entry.
    pub fn is_empty(&self) -> (r: bool)
        ensures
            r == self@.is_empty(),
    {
        self.cmd.is_none() && self.alt.is_none() && self.ctrl.is_none() && self.shift.is_none()
            && self.func.is_none()
    }

    /// Removes and returns the entry for `m`, or the empty override if none
    /// is recorded.
    pub fn take_entry(self, m: Modifier) -> (r: (Mods, ModifierData))
        ensures
            r.1@ == self@.entry_or_empty(m),
            r.0@ == self@.cleared(m),
    {
        let Mods { cmd, alt, ctrl, shift, func } = self;
        match m {
            Modifier::Command => {
                let d = unwrap_or_empty(cmd);
                (Mods { cmd: Option::None, alt, ctrl, shift, func }, d)
            }
            Modifier::Option => {
                let d = unwrap_or_empty(alt);
                (Mods { cmd, alt: Option::None, ctrl, shift, func }, d)
            }
            Modifier::Control => {
                let d = unwrap_or_empty(ctrl);
                (Mods { cmd, alt, ctrl: Option::None, shift, func }, d)
            }
            Modifier::Shift => {
                let d = unwrap_or_empty(shift);
                (Mods { cmd, alt, ctrl, shift: Option::None, func }, d)
            }
            Modifier::Fn => {
                let d = unwrap_or_empty(func);
                (Mods { cmd, alt, ctrl, shift, func: Option::None }, d)
            }
        }
    }

    /// This map with the entry for `m` replaced by `d`.
    pub fn put_entry(self, m: Modifier, d: ModifierData) -> (r: Mods)
        ensures
            r@ == self@.with_entry(m, d@),
    {
        match m {
            Modifier::Command => Mods { cmd: Option::Some(d), ..self },
            Modifier::Option => Mods { alt: Option::Some(d), ..self },
            Modifier::Control => Mods { ctrl: Option::Some(d), ..self },
            Modifier::Shift => Mods { shift: Option::Some(d), ..self },
            Modifier::Fn => Mods { func: Option::Some(d), ..self },
        }
    }
}

/// The entry if present, or the empty override.
fn unwrap_or_empty(o: Option<ModifierData>) -> (d: ModifierData)
    ensures
        d@ == (match mod_opt_view(o) {
            Option::Some(dv) => dv,
            Option::None => ModifierDataView::empty(),
        }),
{
    match o {
        Option::Some(d) => d,
        Option::None => ModifierData::empty(),
    }
}

/// One result item shown by the host.
#[derive(Clone)]
pub struct Item {
    /// The title shown for the item; the one required field.
    pub title: String,
    pub subtitle: Option<String>,
    pub icon: Option<Icon>,
    /// A stable identity the host uses for ranking; opaque here.
    pub uid: Option<String>,
    pub arg: Option<String>,
    pub type_: ItemType,
    /// Whether the item is actionable. Defaults to true; only `false` is
    /// ever written out.
    pub valid: bool,
    pub autocomplete: Option<String>,
    /// The text copied to the clipboard on copy.
    pub text_copy: Option<String>,
    /// The text shown as large type.
    pub text_large_type: Option<String>,
    pub quicklook_url: Option<String>,
    pub modifiers: Mods,
    /// Variable bindings; a later binding for a key replaces an earlier one.
    pub variables: Vec<(String, String)>,
}

/// The abstract value of an [`Item`].
#[verifier::ext_equal]
pub ghost struct ItemView {
    pub title: Seq<char>,
    pub subtitle: Option<Seq<char>>,
    pub icon: Option<IconView>,
    pub uid: Option<Seq<char>>,
    pub arg: Option<Seq<char>>,
    pub type_: ItemType,
    pub valid: bool,
    pub autocomplete: Option<Seq<char>>,
    pub text_copy: Option<Seq<char>>,
    pub text_large_type: Option<Seq<char>>,
    pub quicklook_url: Option<Seq<char>>,
    pub modifiers: ModsView,
    pub variables: Seq<(Seq<char>, Seq<char>)>,
}

impl View for Item {
    type V = ItemView;

    open spec fn view(&self) -> ItemView {
        ItemView {
            title: self.title@,
            subtitle: opt_view(self.subtitle),
            icon: match self.icon {
                Option::Some(i) => Option::Some(i@),
                Option::None => Option::None,
            },
            uid: opt_view(self.uid),
            arg: opt_view(self.arg),
            type_: self.type_,
            valid: self.valid,
            autocomplete: opt_view(self.autocomplete),
            text_copy: opt_view(self.text_copy),
            text_large_type: opt_view(self.text_large_type),
            quicklook_url: opt_view(self.quicklook_url),
            modifiers: self.modifiers@,
            variables: pairs_view(self.variables@),
        }
    }
}

impl ItemView {
    /// The abstract value of a freshly created item with the given title:
    /// every optional field absent, the default type, validity true.
    pub open spec fn bare(title: Seq<char>) -> ItemView {
        ItemView {
            title: title,
            subtitle: Option::None,
            icon: Option::None,
            uid: Option::None,
            arg: Option::None,
            type_: ItemType::Default,
            valid: true,
            autocomplete: Option::None,
            text_copy: Option::None,
            text_large_type: Option::None,
            quicklook_url: Option::None,
            modifiers: ModsView::empty(),
            variables: Seq::empty(),
        }
    }
}

impl Item {
    /// A new item with the given title and every optional field unset.
    pub fn new(title: String) -> (it: Item)
        ensures
            it@ == ItemView::bare(title@),
    {
        let it = Item {
            title,
            subtitle: Option::None,
            icon: Option::None,
            uid: Option::None,
            arg: Option::None,
            type_: ItemType::Default,
            valid: true,
            autocomplete: Option::None,
            text_copy: Option::None,
            text_large_type: Option::None,
            quicklook_url: Option::None,
            modifiers: Mods::new(),
            variables: Vec::new(),
        };
        proof {
            assert(it@.variables =~= Seq::<(Seq<char>, Seq<char>)>::empty());
            assert(it@ =~= ItemView::bare(it.title@));
        }
        it
    }
}

} // verus!
