use vstd::prelude::*;

use crate::input::handler::{
    MENU_CHANGE_SKIN,
    MENU_FEED,
    MENU_PET,
    MENU_PLAY,
    MENU_QUIT,
    MENU_REMOVE_BG,
    MENU_SETTINGS,
};

verus! {

/// An entry of the pet's context menu.
#[derive(Debug, Clone, Copy, PartialEq, Eq)]
pub enum MenuEntry {
    Item { id: u32, label: &'static str },
    Separator,
}

/// The view of an entry: its command and label, or `None` for a separator.
pub open spec fn entry_view(e: MenuEntry) -> Option<(u32, Seq<char>)> {
    match e {
        MenuEntry::Item { id, label } => Some((id, label@)),
        MenuEntry::Separator => None,
    }
}

/// The context menu, top to bottom.
pub open spec fn spec_menu() -> Seq<Option<(u32, Seq<char>)>> {
    seq![
        Some((MENU_CHANGE_SKIN, "\u{1f3a8} \u{6362}\u{76ae}\u{80a4}"@)),
        Some((MENU_FEED, "\u{1f356} \u{5582}\u{98df}"@)),
        Some((MENU_PET, "\u{1f90a} \u{6478}\u{6478}"@)),
        Some((MENU_PLAY, "\u{1f3ae} \u{73a9}\u{800d}"@)),
        None,
        Some((MENU_REMOVE_BG, "\u{2728} \u{53bb}\u{9664}\u{767d}\u{5e95}"@)),
        Some((MENU_SETTINGS, "\u{2699} \u{8bbe}\u{7f6e}"@)),
        Some((MENU_QUIT, "\u{274c} \u{9000}\u{51fa}"@)),
    ]
}

/// The entries of the pet's context menu, in the order they are shown.
pub fn context_menu_entries() -> (v: Vec<MenuEntry>)
    ensures
        v@.len() == spec_menu().len(),
        forall|i: int| 0 <= i < v@.len() ==> entry_view(#[trigger] v@[i]) == spec_menu()[i],
{
    let v = vec![
        MenuEntry::Item { id: MENU_CHANGE_SKIN, label: "\u{1f3a8} \u{6362}\u{76ae}\u{80a4}" },
        MenuEntry::Item { id: MENU_FEED, label: "\u{1f356} \u{5582}\u{98df}" },
        MenuEntry::Item { id: MENU_PET, label: "\u{1f90a} \u{6478}\u{6478}" },
        MenuEntry::Item { id: MENU_PLAY, label: "\u{1f3ae} \u{73a9}\u{800d}" },
        MenuEntry::Separator,
        MenuEntry::Item { id: MENU_REMOVE_BG, label: "\u{2728} \u{53bb}\u{9664}\u{767d}\u{5e95}" },
        MenuEntry::Item { id: MENU_SETTINGS, label: "\u{2699} \u{8bbe}\u{7f6e}" },
        MenuEntry::Item { id: MENU_QUIT, label: "\u{274c} \u{9000}\u{51fa}" },
    ];
    assert(forall|i: int| 0 <= i < v@.len() ==> entry_view(#[trigger] v@[i]) == spec_menu()[i]);
    v
}

/// Every menu entry carries the command its label names: skin change,
/// feeding, petting, playing, background removal, settings and quitting,
/// each under its own label; the separator stands between play and
/// background removal.
pub proof fn law_menu_ids_match_labels()
    ensures
        forall|i: int|
            0 <= i < spec_menu().len() ==> (#[trigger] spec_menu()[i] matches Some((id, l)) ==> {
                &&& (l == "\u{1f3a8} \u{6362}\u{76ae}\u{80a4}"@ <==> id == MENU_CHANGE_SKIN)
                &&& (l == "\u{1f356} \u{5582}\u{98df}"@ <==> id == MENU_FEED)
                &&& (l == "\u{1f90a} \u{6478}\u{6478}"@ <==> id == MENU_PET)
                &&& (l == "\u{1f3ae} \u{73a9}\u{800d}"@ <==> id == MENU_PLAY)
                &&& (l == "\u{2728} \u{53bb}\u{9664}\u{767d}\u{5e95}"@ <==> id == MENU_REMOVE_BG)
                &&& (l == "\u{2699} \u{8bbe}\u{7f6e}"@ <==> id == MENU_SETTINGS)
                &&& (l == "\u{274c} \u{9000}\u{51fa}"@ <==> id == MENU_QUIT)
            }),
        spec_menu()[4] is None,
        spec_menu()[3] matches Some((id, _)) && id == MENU_PLAY,
        spec_menu()[5] matches Some((id, _)) && id == MENU_REMOVE_BG,
{
    reveal_strlit("\u{1f3a8} \u{6362}\u{76ae}\u{80a4}");
    reveal_strlit("\u{1f356} \u{5582}\u{98df}");
    reveal_strlit("\u{1f90a} \u{6478}\u{6478}");
    reveal_strlit("\u{1f3ae} \u{73a9}\u{800d}");
    reveal_strlit("\u{2728} \u{53bb}\u{9664}\u{767d}\u{5e95}");
    reveal_strlit("\u{2699} \u{8bbe}\u{7f6e}");
    reveal_strlit("\u{274c} \u{9000}\u{51fa}");
    assert("\u{1f3a8} \u{6362}\u{76ae}\u{80a4}"@[0] == '\u{1f3a8}');
    assert("\u{1f356} \u{5582}\u{98df}"@[0] == '\u{1f356}');
    assert("\u{1f90a} \u{6478}\u{6478}"@[0] == '\u{1f90a}');
    assert("\u{1f3ae} \u{73a9}\u{800d}"@[0] == '\u{1f3ae}');
    assert("\u{2728} \u{53bb}\u{9664}\u{767d}\u{5e95}"@[0] == '\u{2728}');
    assert("\u{2699} \u{8bbe}\u{7f6e}"@[0] == '\u{2699}');
    assert("\u{274c} \u{9000}\u{51fa}"@[0] == '\u{274c}');
}

} // verus!
