//! The sun economy and the plant cards' cooldowns.

use std::collections::HashMap;

use vstd::prelude::*;

use crate::catalog::{first_plant_at, has_plant, ContentCatalog, PlantDefinition};
use crate::kinds::PlantKind;
use crate::level::PlantCardDefinition;

verus! {

broadcast use vstd::std_specs::hash::group_hash_axioms;

/// The sun the player holds.
#[derive(Clone, Copy, Debug, PartialEq, Eq, Structural)]
pub struct SunBank {
    pub amount: u32,
}

impl SunBank {
    /// Spends `amount` if the bank holds that much; otherwise changes nothing.
    pub fn try_spend(&mut self, amount: u32) -> (spent: bool)
        ensures
            spent == (old(self).amount >= amount),
            spent ==> final(self).amount == old(self).amount - amount,
            !spent ==> final(self).amount == old(self).amount,
    {
        if self.amount < amount {
            return false;
        }
        self.amount = self.amount - amount;
        true
    }

    /// Adds collected sun.
    pub fn deposit(&mut self, amount: u32)
        requires
            old(self).amount + amount <= u32::MAX,
        ensures
            final(self).amount == old(self).amount + amount,
    {
        self.amount = self.amount + amount;
    }
}

/// The definition that the catalog gives for a plant kind: its first one.
pub open spec fn plant_definition(catalog: ContentCatalog, kind: PlantKind) -> PlantDefinition {
    catalog.plants@[choose|i: int| first_plant_at(catalog.plants@, kind, i)]
}

/// There is one first definition of each kind that the catalog has.
pub proof fn lemma_first_plant_unique(catalog: ContentCatalog, kind: PlantKind, i: int)
    requires
        first_plant_at(catalog.plants@, kind, i),
    ensures
        plant_definition(catalog, kind) == catalog.plants@[i],
{
    let j = choose|j: int| first_plant_at(catalog.plants@, kind, j);
    if j < i {
        assert(catalog.plants@[j].kind != kind);
    } else if i < j {
        assert(catalog.plants@[i].kind != kind);
    }
}

/// `value - delta`, or 0 where `delta` is larger.
pub open spec fn saturating_less(value: u64, delta: u64) -> u64 {
    if value >= delta {
        (value - delta) as u64
    } else {
        0
    }
}

/// The remaining cooldown (in nanoseconds) of each plant card of the level.
/// A card is ready when its remaining cooldown is zero.
#[derive(Debug)]
pub struct PlantCards {
    remaining: HashMap<u8, u64>,
}

/// The table key of a kind: its code.
pub open spec fn card_key(kind: PlantKind) -> u8 {
    kind.code_spec() as u8
}

impl View for PlantCards {
    type V = Map<PlantKind, u64>;

    /// The remaining cooldown of each card of the level.
    closed spec fn view(&self) -> Map<PlantKind, u64> {
        Map::new(
            |kind: PlantKind| self.remaining@.contains_key(card_key(kind)),
            |kind: PlantKind| self.remaining@[card_key(kind)],
        )
    }
}

/// Whether one of the first `n` cards is for the kind.
pub open spec fn card_among(cards: Seq<PlantCardDefinition>, n: int, kind: PlantKind) -> bool {
    exists|j: int| 0 <= j < n && (#[trigger] cards[j]).plant == kind
}

proof fn lemma_card_key_injective(a: PlantKind, b: PlantKind)
    ensures
        card_key(a) == card_key(b) ==> a == b,
{
    PlantKind::lemma_code_injective(a, b);
}

impl PlantCards {
    /// No card at all.
    pub fn new() -> (r: PlantCards)
        ensures
            r@ == Map::<PlantKind, u64>::empty(),
    {
        let r = PlantCards { remaining: HashMap::new() };
        assert(r@ =~= Map::<PlantKind, u64>::empty());
        r
    }

    /// One ready card for each card of the level.
    pub fn from_cards(cards: &Vec<PlantCardDefinition>) -> (r: PlantCards)
        ensures
            r@ == Map::new(|kind: PlantKind| card_among(cards@, cards@.len() as int, kind), |kind: PlantKind| 0u64),
    {
        let mut r = PlantCards::new();
        let mut i: usize = 0;
        while i < cards.len()
            invariant
                i <= cards@.len(),
                r@ == Map::new(|kind: PlantKind| card_among(cards@, i as int, kind), |kind: PlantKind| 0u64),
            decreases cards@.len() - i,
        {
            let ghost before = r@;
            r.set_remaining(cards[i].plant, 0);
            proof {
                assert forall|kind: PlantKind| #[trigger] card_among(cards@, i + 1, kind) == (kind == cards@[i as int].plant || card_among(cards@, i as int, kind)) by {
                    if card_among(cards@, i + 1, kind) {
                        let j = choose|j: int| 0 <= j < i + 1 && (#[trigger] cards@[j]).plant == kind;
                        if j < i {
                            assert(card_among(cards@, i as int, kind));
                        }
                    }
                    if card_among(cards@, i as int, kind) {
                        let j = choose|j: int| 0 <= j < i && (#[trigger] cards@[j]).plant == kind;
                        assert(0 <= j < i + 1);
                    }
                    if kind == cards@[i as int].plant {
                        assert(cards@[i as int].plant == kind);
                    }
                }
                assert(r@ =~= Map::new(|kind: PlantKind| card_among(cards@, i + 1, kind), |kind: PlantKind| 0u64));
            }
            i = i + 1;
        }
        r
    }

    /// Whether the kind has a card and the card has recovered.
    pub fn ready(&self, kind: PlantKind) -> (r: bool)
        ensures
            r == (self@.contains_key(kind) && self@[kind] == 0),
    {
        match self.remaining.get(&kind.code()) {
            Some(left) => *left == 0,
            None => false,
        }
    }

    /// The card's remaining cooldown, zero where the kind has no card.
    pub fn remaining(&self, kind: PlantKind) -> (r: u64)
        ensures
            r == (if self@.contains_key(kind) {
                self@[kind]
            } else {
                0
            }),
    {
        match self.remaining.get(&kind.code()) {
            Some(left) => *left,
            None => 0,
        }
    }

    /// Sets the card's remaining cooldown (giving the kind a card).
    pub fn set_remaining(&mut self, kind: PlantKind, left: u64)
        ensures
            final(self)@ == old(self)@.insert(kind, left),
    {
        self.remaining.insert(kind.code(), left);
        proof {
            assert forall|k: PlantKind| #[trigger] final(self)@.contains_key(k) == old(self)@.insert(kind, left).contains_key(k) by {
                lemma_card_key_injective(k, kind);
            }
            assert forall|k: PlantKind| final(self)@.contains_key(k) implies #[trigger] final(self)@[k] == old(self)@.insert(kind, left)[k] by {
                lemma_card_key_injective(k, kind);
            }
            assert(final(self)@ =~= old(self)@.insert(kind, left));
        }
    }

    /// Starts the card's cooldown after a placement: the catalog's cooldown
    /// for the kind.
    pub fn trigger(&mut self, kind: PlantKind, catalog: &ContentCatalog)
        requires
            has_plant(catalog.plants@, kind),
        ensures
            final(self)@ == old(self)@.insert(kind, plant_definition(*catalog, kind).card_cooldown),
    {
        let definition = catalog.plant(kind);
        proof {
            let i = choose|i: int| first_plant_at(catalog.plants@, kind, i) && *definition == catalog.plants@[i];
            lemma_first_plant_unique(*catalog, kind, i);
        }
        self.set_remaining(kind, definition.card_cooldown);
    }

    /// Lets `delta` nanoseconds pass for every card.
    pub fn tick(&mut self, delta: u64)
        ensures
            final(self)@.dom() == old(self)@.dom(),
            forall|kind: PlantKind| #[trigger] final(self)@.contains_key(kind) ==> final(self)@[kind] == saturating_less(old(self)@[kind], delta),
    {
        let ghost before = self.remaining@;
        let mut code: u8 = 0;
        while code < 8
            invariant
                code <= 8,
                forall|c: u8| #[trigger] self.remaining@.contains_key(c) == before.contains_key(c),
                forall|c: u8| c < code && #[trigger] self.remaining@.contains_key(c) ==> self.remaining@[c] == saturating_less(before[c], delta),
                forall|c: u8| code <= c && #[trigger] self.remaining@.contains_key(c) ==> self.remaining@[c] == before[c],
            decreases 8 - code,
        {
            match self.remaining.get(&code) {
                Some(left) => {
                    let next = left.saturating_sub(delta);
                    self.remaining.insert(code, next);
                },
                None => {},
            }
            code = code + 1;
        }
        proof {
            assert forall|kind: PlantKind| #[trigger] final(self)@.contains_key(kind) implies final(self)@[kind] == saturating_less(old(self)@[kind], delta) by {
                assert(card_key(kind) < 8);
            }
            assert(final(self)@.dom() =~= old(self)@.dom());
        }
    }

    /// Number of cards.
    pub fn len(&self) -> (r: usize)
        ensures
            r as nat == self@.dom().len(),
    {
        let mut count: usize = 0;
        let mut code: u8 = 0;
        assert(kinds_with_card(self.remaining@, 0) =~= Set::empty());
        while code < 8
            invariant
                code <= 8,
                count <= code,
                count as nat == kinds_with_card(self.remaining@, code as int).len(),
            decreases 8 - code,
        {
            proof {
                lemma_kinds_with_card_step(self.remaining@, code as int);
            }
            if self.remaining.contains_key(&code) {
                count = count + 1;
            }
            code = code + 1;
        }
        proof {
            assert(kinds_with_card(self.remaining@, 8) =~= self@.dom());
        }
        count
    }
}

/// The kinds among the first `n` codes that have a card.
pub open spec fn kinds_with_card(table: Map<u8, u64>, n: int) -> Set<PlantKind> {
    Set::new(|kind: PlantKind| kind.code_spec() < n && table.contains_key(card_key(kind)))
}

proof fn lemma_kinds_with_card_step(table: Map<u8, u64>, i: int)
    requires
        0 <= i < PlantKind::count(),
    ensures
        kinds_with_card(table, i).finite(),
        kinds_with_card(table, i + 1).len() == kinds_with_card(table, i).len() + if table.contains_key(i as u8) {
            1nat
        } else {
            0nat
        },
{
    lemma_kinds_with_card_finite(table, i);
    let k = PlantKind::from_code_spec(i as nat);
    lemma_card_key_injective(k, k);
    assert forall|x: PlantKind| kinds_with_card(table, i + 1).contains(x) && x != k implies #[trigger] kinds_with_card(table, i).contains(x) by {
        lemma_card_key_injective(x, k);
    }
    if table.contains_key(i as u8) {
        assert(kinds_with_card(table, i + 1) =~= kinds_with_card(table, i).insert(k));
        assert(!kinds_with_card(table, i).contains(k));
    } else {
        assert(kinds_with_card(table, i + 1) =~= kinds_with_card(table, i));
    }
}

proof fn lemma_kinds_with_card_finite(table: Map<u8, u64>, i: int)
    requires
        0 <= i <= PlantKind::count(),
    ensures
        kinds_with_card(table, i).finite(),
    decreases i,
{
    if i == 0 {
        assert(kinds_with_card(table, i) =~= Set::empty());
    } else {
        lemma_kinds_with_card_finite(table, i - 1);
        let k = PlantKind::from_code_spec((i - 1) as nat);
        lemma_card_key_injective(k, k);
        assert forall|x: PlantKind| #[trigger] kinds_with_card(table, i).contains(x) implies kinds_with_card(table, i - 1).insert(k).contains(x) by {
            lemma_card_key_injective(x, k);
        }
        assert(kinds_with_card(table, i).subset_of(kinds_with_card(table, i - 1).insert(k)));
        vstd::set_lib::lemma_set_subset_finite(kinds_with_card(table, i - 1).insert(k), kinds_with_card(table, i));
    }
}

} // verus!
