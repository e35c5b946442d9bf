//! The save viewer's tab logic: which tabs a save offers and which one to
//! show.

use vstd::prelude::*;

verus! {

/// The viewer's tabs.
#[derive(Clone, Copy, Debug, PartialEq, Eq)]
pub enum Tab {
    Navi,
    Folder,
    PatchCards,
    AutoBattleData,
}

/// Which views a save exposes.
#[derive(Clone, Copy, Debug, PartialEq, Eq)]
pub struct SaveViewCaps {
    pub navi: bool,
    pub chips: bool,
    pub patch_cards: bool,
    pub auto_battle_data: bool,
}

/// The tabs a save offers, in display order.
pub open spec fn spec_available_tabs(caps: SaveViewCaps) -> Seq<Tab> {
    (if caps.navi {
        seq![Tab::Navi]
    } else {
        Seq::empty()
    }) + (if caps.chips {
        seq![Tab::Folder]
    } else {
        Seq::empty()
    }) + (if caps.patch_cards {
        seq![Tab::PatchCards]
    } else {
        Seq::empty()
    }) + (if caps.auto_battle_data {
        seq![Tab::AutoBattleData]
    } else {
        Seq::empty()
    })
}

/// Exec form of `spec_available_tabs`.
pub fn available_tabs(caps: SaveViewCaps) -> (r: Vec<Tab>)
    ensures
        r@ == spec_available_tabs(caps),
{
    let mut v: Vec<Tab> = Vec::new();
    if caps.navi {
        v.push(Tab::Navi);
    }
    if caps.chips {
        v.push(Tab::Folder);
    }
    if caps.patch_cards {
        v.push(Tab::PatchCards);
    }
    if caps.auto_battle_data {
        v.push(Tab::AutoBattleData);
    }
    assert(v@ =~= spec_available_tabs(caps));
    v
}

/// Which tab to show: the current one if any; otherwise, outside streamer
/// mode, the first available tab; in streamer mode none, which shows the
/// cover.
pub fn select_tab(current: Option<Tab>, caps: SaveViewCaps, streamer_mode: bool) -> (r: Option<
    Tab,
>)
    ensures
        current is Some ==> r == current,
        current is None && streamer_mode ==> r is None,
        current is None && !streamer_mode ==> r == (if spec_available_tabs(caps).len() > 0 {
            Some(spec_available_tabs(caps)[0])
        } else {
            None::<Tab>
        }),
{
    match current {
        Some(t) => Some(t),
        None => {
            if streamer_mode {
                None
            } else {
                let tabs = available_tabs(caps);
                if tabs.len() > 0 {
                    Some(tabs[0])
                } else {
                    None
                }
            }
        },
    }
}

} // verus!
