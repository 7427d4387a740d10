//! What the card bar shows about each plant card.

use vstd::prelude::*;

verus! {

/// The state a card's label tells.
#[derive(Clone, Copy, Debug, PartialEq, Eq, Structural)]
pub enum CardStatus {
    /// Still recovering (the label shows the seconds left).
    Cooling,
    /// Recovered, but the bank cannot pay for it.
    NoSun,
    /// Can be planted.
    Plantable,
}

/// How a card is coloured.
#[derive(Clone, Copy, Debug, PartialEq, Eq, Structural)]
pub enum CardLook {
    Selected,
    Disabled,
    Normal,
}

/// The card's status from its remaining cooldown (nanoseconds), the bank and
/// the plant's price.
pub fn card_status(remaining: u64, bank: u32, price: u32) -> (r: CardStatus)
    ensures
        r == if remaining > 0 {
            CardStatus::Cooling
        } else if bank < price {
            CardStatus::NoSun
        } else {
            CardStatus::Plantable
        },
{
    if remaining > 0 {
        CardStatus::Cooling
    } else if bank < price {
        CardStatus::NoSun
    } else {
        CardStatus::Plantable
    }
}

/// The colour of a card's label: the selected card stands out; a card that
/// is cooling or too dear is dimmed.
pub fn card_label_look(selected: bool, remaining: u64, bank: u32, price: u32) -> (r: CardLook)
    ensures
        r == if selected {
            CardLook::Selected
        } else if remaining > 0 || bank < price {
            CardLook::Disabled
        } else {
            CardLook::Normal
        },
{
    if selected {
        CardLook::Selected
    } else if remaining > 0 || bank < price {
        CardLook::Disabled
    } else {
        CardLook::Normal
    }
}

/// The colour of a card's panel: the selected card stands out; a card that
/// is not ready or too dear is dimmed.
pub fn card_panel_look(selected: bool, ready: bool, bank: u32, price: u32) -> (r: CardLook)
    ensures
        r == if selected {
            CardLook::Selected
        } else if !ready || bank < price {
            CardLook::Disabled
        } else {
            CardLook::Normal
        },
{
    if selected {
        CardLook::Selected
    } else if !ready || bank < price {
        CardLook::Disabled
    } else {
        CardLook::Normal
    }
}

} // verus!
