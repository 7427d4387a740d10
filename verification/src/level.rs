//! The level: its definition (cards, waves, lawn), its runtime counters, the
//! wave timeline and the outcome checks.

use vstd::prelude::*;

use crate::catalog::{has_plant, has_zombie, ContentCatalog};
use crate::combat::Team;
use crate::economy::{card_among, PlantCards, SunBank};
use crate::kinds::{PlantKind, ZombieKind};
use crate::lawn::{CellOccupancy, GridCell, LawnLayout};
use crate::text::{decimal, decimal_text, is_blank, text_is_blank};

verus! {

/// A plant card of the level: its slot in the card bar and its plant.
#[derive(Clone, Copy, Debug, PartialEq, Eq, Structural)]
pub struct PlantCardDefinition {
    pub slot: u8,
    pub plant: PlantKind,
}

/// The level's identifier.
#[derive(Clone, Debug)]
pub struct LevelId(pub String);

/// What a pea does when it reaches the end of its path.
#[derive(Clone, Copy, Debug, PartialEq, Eq, Structural)]
pub enum PeaPathArrivalEffect {
    Straight,
    RowThreePhysicsLine,
}

impl PeaPathArrivalEffect {
    /// The effect a level has when it names none.
    pub fn default_effect() -> (r: PeaPathArrivalEffect)
        ensures
            r == PeaPathArrivalEffect::Straight,
    {
        PeaPathArrivalEffect::Straight
    }
}

/// One wave: the kinds of its zombies in spawn order. (The spawn times are
/// floating point and are kept beside the game's clock.)
#[derive(Clone, Debug)]
pub struct ZombieWaveDefinition {
    pub spawns: Vec<ZombieKind>,
}

/// A level.
#[derive(Clone, Debug)]
pub struct LevelDefinition {
    pub id: LevelId,
    pub display_name: String,
    pub starting_sun: u32,
    pub always_shoot: bool,
    pub pea_path_arrival_effect: PeaPathArrivalEffect,
    pub gatling_pea_upgrade_only: bool,
    pub lawn: LawnLayout,
    pub cards: Vec<PlantCardDefinition>,
    pub waves: Vec<ZombieWaveDefinition>,
}

/// The verdicts of the checks on a level's floating-point values: whether the
/// lawn's cell size and origin are finite and positive, and, for each spawn of
/// each wave in order, `Some(message)` when its time is not finite and
/// non-negative or comes before the previous spawn's time. A missing entry
/// means that nothing failed.
#[derive(Clone, Debug)]
pub struct LevelChecks {
    pub lawn_geometry_valid: bool,
    pub spawn_time_issues: Vec<Vec<Option<String>>>,
}

/// The plant order of the default card bar.
pub open spec fn default_card_plant(i: int) -> PlantKind {
    if i == 0 {
        PlantKind::Sunflower
    } else if i == 1 {
        PlantKind::TwinSunflower
    } else if i == 2 {
        PlantKind::Peashooter
    } else if i == 3 {
        PlantKind::Repeater
    } else if i == 4 {
        PlantKind::GatlingPea
    } else if i == 5 {
        PlantKind::SnowPea
    } else if i == 6 {
        PlantKind::WallNut
    } else {
        PlantKind::Torchwood
    }
}

/// The default card bar: the eight plants, in slots 1 to 8.
pub fn default_plant_cards() -> (r: Vec<PlantCardDefinition>)
    ensures
        r@.len() == 8,
        forall|i: int|
            0 <= i < 8 ==> #[trigger] r@[i] == (PlantCardDefinition { slot: (i + 1) as u8, plant: default_card_plant(i) }),
{
    let plants = [
        PlantKind::Sunflower,
        PlantKind::TwinSunflower,
        PlantKind::Peashooter,
        PlantKind::Repeater,
        PlantKind::GatlingPea,
        PlantKind::SnowPea,
        PlantKind::WallNut,
        PlantKind::Torchwood,
    ];
    let mut r: Vec<PlantCardDefinition> = Vec::new();
    let mut i: usize = 0;
    while i < 8
        invariant
            i <= 8,
            forall|j: int| 0 <= j < 8 ==> #[trigger] plants@[j] == default_card_plant(j),
            r@.len() == i,
            forall|j: int|
                0 <= j < i ==> #[trigger] r@[j] == (PlantCardDefinition { slot: (j + 1) as u8, plant: default_card_plant(j) }),
        decreases 8 - i,
    {
        r.push(PlantCardDefinition { slot: (i + 1) as u8, plant: plants[i] });
        i = i + 1;
    }
    r
}

/// The default card bar as a sequence.
pub open spec fn default_cards() -> Seq<PlantCardDefinition> {
    Seq::new(8, |i: int| PlantCardDefinition { slot: (i + 1) as u8, plant: default_card_plant(i) })
}

/// A level's card bar: the cards its file lists, or the default bar when it
/// lists none.
pub fn card_bar(listed: Option<Vec<PlantCardDefinition>>) -> (r: Vec<PlantCardDefinition>)
    ensures
        match listed {
            Some(cards) => r@ == cards@,
            None => r@ == default_cards(),
        },
{
    match listed {
        Some(cards) => cards,
        None => {
            let r = default_plant_cards();
            assert(r@ =~= default_cards());
            r
        },
    }
}

/// The message of spawn `s` of wave `w` among the floating-point verdicts.
pub open spec fn spawn_issue(issues: Seq<Vec<Option<String>>>, w: int, s: int) -> Option<Seq<char>> {
    if 0 <= w < issues.len() && 0 <= s < issues[w]@.len() {
        match issues[w]@[s] {
            Some(m) => Some(m@),
            None => None,
        }
    } else {
        None
    }
}

fn spawn_issue_of(issues: &Vec<Vec<Option<String>>>, w: usize, s: usize) -> (r: Option<String>)
    ensures
        match r {
            Some(m) => spawn_issue(issues@, w as int, s as int) == Some(m@),
            None => spawn_issue(issues@, w as int, s as int) is None,
        },
{
    if w < issues.len() && s < issues[w].len() {
        match &issues[w][s] {
            Some(m) => Some(m.clone()),
            None => None,
        }
    } else {
        None
    }
}

/// The verdict on card `i` of the level.
pub open spec fn card_error(cards: Seq<PlantCardDefinition>, catalog: ContentCatalog, i: int) -> Option<Seq<char>> {
    let card = cards[i];
    if !has_plant(catalog.plants@, card.plant) {
        Some("card "@ + decimal(card.slot as nat) + " references missing plant "@ + card.plant.name_spec())
    } else if exists|j: int| 0 <= j < i && (#[trigger] cards[j]).slot == card.slot {
        Some("duplicate card slot "@ + decimal(card.slot as nat))
    } else if card_among(cards, i, card.plant) {
        Some("duplicate plant card "@ + card.plant.name_spec())
    } else {
        None
    }
}

/// The first failing card from position `i` on.
pub open spec fn first_card_error(cards: Seq<PlantCardDefinition>, catalog: ContentCatalog, i: int) -> Option<
    Seq<char>,
>
    decreases cards.len() - i,
{
    if i < 0 || i >= cards.len() {
        None
    } else if card_error(cards, catalog, i) is Some {
        card_error(cards, catalog, i)
    } else {
        first_card_error(cards, catalog, i + 1)
    }
}

/// The verdict on spawn `s` of wave `w`.
pub open spec fn spawn_error(d: LevelDefinition, catalog: ContentCatalog, checks: LevelChecks, w: int, s: int) -> Option<
    Seq<char>,
> {
    let kind = d.waves@[w].spawns@[s];
    if spawn_issue(checks.spawn_time_issues@, w, s) is Some {
        spawn_issue(checks.spawn_time_issues@, w, s)
    } else if !has_zombie(catalog.zombies@, kind) {
        Some(
            "wave "@ + decimal(w as nat) + " spawn "@ + decimal(s as nat) + " references missing zombie "@
                + kind.name_spec(),
        )
    } else {
        None
    }
}

/// The first failing spawn of wave `w` from position `s` on.
pub open spec fn first_spawn_error(d: LevelDefinition, catalog: ContentCatalog, checks: LevelChecks, w: int, s: int) -> Option<
    Seq<char>,
>
    decreases d.waves@[w].spawns@.len() - s,
{
    if s < 0 || s >= d.waves@[w].spawns@.len() {
        None
    } else if spawn_error(d, catalog, checks, w, s) is Some {
        spawn_error(d, catalog, checks, w, s)
    } else {
        first_spawn_error(d, catalog, checks, w, s + 1)
    }
}

/// The verdict on wave `w`.
pub open spec fn wave_error(d: LevelDefinition, catalog: ContentCatalog, checks: LevelChecks, w: int) -> Option<
    Seq<char>,
> {
    if d.waves@[w].spawns@.len() == 0 {
        Some("wave "@ + decimal(w as nat) + " must contain at least one zombie"@)
    } else {
        first_spawn_error(d, catalog, checks, w, 0)
    }
}

/// The first failing wave from position `w` on.
pub open spec fn first_wave_error(d: LevelDefinition, catalog: ContentCatalog, checks: LevelChecks, w: int) -> Option<
    Seq<char>,
>
    decreases d.waves@.len() - w,
{
    if w < 0 || w >= d.waves@.len() {
        None
    } else if wave_error(d, catalog, checks, w) is Some {
        wave_error(d, catalog, checks, w)
    } else {
        first_wave_error(d, catalog, checks, w + 1)
    }
}

/// What `LevelDefinition::validate` reports: the names, the lawn, the cards
/// and then every wave and spawn in order; the first failure is the answer.
pub open spec fn level_error(d: LevelDefinition, catalog: ContentCatalog, checks: LevelChecks) -> Option<Seq<char>> {
    if is_blank(d.id.0@) {
        Some("level id must not be empty"@)
    } else if is_blank(d.display_name@) {
        Some("level display name must not be empty"@)
    } else if d.lawn.columns == 0 || !checks.lawn_geometry_valid {
        Some("lawn dimensions must be finite and positive"@)
    } else if d.cards@.len() == 0 {
        Some("level must contain at least one plant card"@)
    } else if first_card_error(d.cards@, catalog, 0) is Some {
        first_card_error(d.cards@, catalog, 0)
    } else if d.waves@.len() == 0 {
        Some("level must contain at least one zombie wave"@)
    } else {
        first_wave_error(d, catalog, checks, 0)
    }
}

fn check_card(cards: &Vec<PlantCardDefinition>, catalog: &ContentCatalog, i: usize) -> (r: Result<(), String>)
    requires
        i < cards@.len(),
    ensures
        match r {
            Ok(_) => card_error(cards@, *catalog, i as int) is None,
            Err(e) => card_error(cards@, *catalog, i as int) == Some(e@),
        },
{
    let card = cards[i];
    if !catalog.contains_plant(card.plant) {
        let mut message = String::from_str("card ");
        message.append(decimal_text(card.slot as u64).as_str());
        message.append(" references missing plant ");
        message.append(card.plant.name());
        return Err(message);
    }
    let mut j: usize = 0;
    while j < i
        invariant
            i < cards@.len(),
            card == cards@[i as int],
            has_plant(catalog.plants@, card.plant),
            j <= i,
            forall|k: int| 0 <= k < j ==> (#[trigger] cards@[k]).slot != card.slot,
        decreases i - j,
    {
        if cards[j].slot == card.slot {
            assert(cards@[j as int].slot == card.slot);
            let mut message = String::from_str("duplicate card slot ");
            message.append(decimal_text(card.slot as u64).as_str());
            return Err(message);
        }
        j = j + 1;
    }
    let mut j: usize = 0;
    while j < i
        invariant
            i < cards@.len(),
            card == cards@[i as int],
            has_plant(catalog.plants@, card.plant),
            forall|k: int| 0 <= k < i ==> (#[trigger] cards@[k]).slot != card.slot,
            j <= i,
            forall|k: int| 0 <= k < j ==> (#[trigger] cards@[k]).plant != card.plant,
        decreases i - j,
    {
        if cards[j].plant == card.plant {
            assert(cards@[j as int].plant == card.plant);
            let mut message = String::from_str("duplicate plant card ");
            message.append(card.plant.name());
            return Err(message);
        }
        j = j + 1;
    }
    Ok(())
}

impl LevelDefinition {
    /// Checks the level against the catalog, with the verdicts of the checks
    /// on its floating-point values. Returns the first failure.
    pub fn validate(&self, catalog: &ContentCatalog, checks: &LevelChecks) -> (r: Result<(), String>)
        ensures
            match r {
                Ok(_) => level_error(*self, *catalog, *checks) is None,
                Err(e) => level_error(*self, *catalog, *checks) == Some(e@),
            },
    {
        if text_is_blank(self.id.0.as_str()) {
            return Err(String::from_str("level id must not be empty"));
        }
        if text_is_blank(self.display_name.as_str()) {
            return Err(String::from_str("level display name must not be empty"));
        }
        if self.lawn.columns == 0 || !checks.lawn_geometry_valid {
            return Err(String::from_str("lawn dimensions must be finite and positive"));
        }
        if self.cards.len() == 0 {
            return Err(String::from_str("level must contain at least one plant card"));
        }
        let mut i: usize = 0;
        while i < self.cards.len()
            invariant
                i <= self.cards@.len(),
                !is_blank(self.id.0@),
                !is_blank(self.display_name@),
                !(self.lawn.columns == 0 || !checks.lawn_geometry_valid),
                self.cards@.len() != 0,
                first_card_error(self.cards@, *catalog, 0) == first_card_error(self.cards@, *catalog, i as int),
            decreases self.cards@.len() - i,
        {
            check_card(&self.cards, catalog, i)?;
            i = i + 1;
        }
        if self.waves.len() == 0 {
            return Err(String::from_str("level must contain at least one zombie wave"));
        }
        let mut w: usize = 0;
        while w < self.waves.len()
            invariant
                w <= self.waves@.len(),
                !is_blank(self.id.0@),
                !is_blank(self.display_name@),
                !(self.lawn.columns == 0 || !checks.lawn_geometry_valid),
                self.cards@.len() != 0,
                first_card_error(self.cards@, *catalog, 0) is None,
                self.waves@.len() != 0,
                first_wave_error(*self, *catalog, *checks, 0) == first_wave_error(*self, *catalog, *checks, w as int),
            decreases self.waves@.len() - w,
        {
            let spawns = &self.waves[w].spawns;
            if spawns.len() == 0 {
                let mut message = String::from_str("wave ");
                message.append(decimal_text(w as u64).as_str());
                message.append(" must contain at least one zombie");
                return Err(message);
            }
            let mut s: usize = 0;
            while s < spawns.len()
                invariant
                    w < self.waves@.len(),
                    !is_blank(self.id.0@),
                    !is_blank(self.display_name@),
                    !(self.lawn.columns == 0 || !checks.lawn_geometry_valid),
                    self.cards@.len() != 0,
                    first_card_error(self.cards@, *catalog, 0) is None,
                    self.waves@.len() != 0,
                    first_wave_error(*self, *catalog, *checks, 0) == first_wave_error(*self, *catalog, *checks, w as int),
                    spawns@.len() != 0,
                    *spawns == self.waves@[w as int].spawns,
                    s <= spawns@.len(),
                    first_spawn_error(*self, *catalog, *checks, w as int, 0) == first_spawn_error(
                        *self,
                        *catalog,
                        *checks,
                        w as int,
                        s as int,
                    ),
                decreases spawns@.len() - s,
            {
                if let Some(message) = spawn_issue_of(&checks.spawn_time_issues, w, s) {
                    return Err(message);
                }
                let kind = spawns[s];
                if !catalog.contains_zombie(kind) {
                    let mut message = String::from_str("wave ");
                    message.append(decimal_text(w as u64).as_str());
                    message.append(" spawn ");
                    message.append(decimal_text(s as u64).as_str());
                    message.append(" references missing zombie ");
                    message.append(kind.name());
                    return Err(message);
                }
                s = s + 1;
            }
            w = w + 1;
        }
        Ok(())
    }
}

/// The counters of the level being played.
#[derive(Clone, Copy, Debug, PartialEq, Eq, Structural)]
pub struct LevelRuntime {
    /// Nanoseconds since the level began.
    pub elapsed: u64,
    /// The wave whose spawns come next.
    pub next_wave: usize,
    /// The spawn of that wave that comes next.
    pub next_spawn_in_wave: usize,
    /// Zombies defeated so far.
    pub defeated_zombies: usize,
}

/// The kinds of each wave's spawns, in order.
pub open spec fn wave_kinds(d: LevelDefinition) -> Seq<Seq<ZombieKind>> {
    d.waves@.map_values(|w: ZombieWaveDefinition| w.spawns@)
}

/// The flags telling which spawns are due, by wave and spawn.
pub open spec fn due_view(due: Seq<Vec<bool>>) -> Seq<Seq<bool>> {
    due.map_values(|v: Vec<bool>| v@)
}

/// Whether spawn `s` of wave `w` is due; a missing flag is not due.
pub open spec fn due_at(due: Seq<Seq<bool>>, w: int, s: int) -> bool {
    0 <= w < due.len() && 0 <= s < due[w].len() && due[w][s]
}

/// What one step of the wave timeline does from the cursor `(w, s)`: it emits
/// the due spawns of the current wave in order, stops at the first spawn that
/// is not due yet, and moves on to the next wave when the current one is
/// exhausted. The result is the emitted kinds and the new cursor.
pub open spec fn timeline_run(waves: Seq<Seq<ZombieKind>>, due: Seq<Seq<bool>>, w: int, s: int) -> (
    Seq<ZombieKind>,
    int,
    int,
)
    decreases waves.len() - w, (if 0 <= w < waves.len() && s <= waves[w].len() {
        waves[w].len() - s
    } else {
        0
    }),
{
    if w < 0 || w >= waves.len() {
        (Seq::empty(), w, s)
    } else if 0 <= s < waves[w].len() {
        if due_at(due, w, s) {
            let rest = timeline_run(waves, due, w, s + 1);
            (seq![waves[w][s]] + rest.0, rest.1, rest.2)
        } else {
            (Seq::empty(), w, s)
        }
    } else {
        timeline_run(waves, due, w + 1, 0)
    }
}

/// The spawns that the timeline has still to emit from the cursor `(w, s)`.
pub open spec fn schedule_from(waves: Seq<Seq<ZombieKind>>, w: int, s: int) -> Seq<ZombieKind>
    decreases waves.len() - w, (if 0 <= w < waves.len() && s <= waves[w].len() {
        waves[w].len() - s
    } else {
        0
    }),
{
    if w < 0 || w >= waves.len() {
        Seq::empty()
    } else if 0 <= s < waves[w].len() {
        seq![waves[w][s]] + schedule_from(waves, w, s + 1)
    } else {
        schedule_from(waves, w + 1, 0)
    }
}

fn due_flag(due: &Vec<Vec<bool>>, w: usize, s: usize) -> (r: bool)
    ensures
        r == due_at(due_view(due@), w as int, s as int),
{
    if w < due.len() && s < due[w].len() {
        due[w][s]
    } else {
        false
    }
}

impl LevelRuntime {
    /// The counters at the start of a level.
    pub fn new() -> (r: LevelRuntime)
        ensures
            r == (LevelRuntime { elapsed: 0, next_wave: 0, next_spawn_in_wave: 0, defeated_zombies: 0 }),
    {
        LevelRuntime { elapsed: 0, next_wave: 0, next_spawn_in_wave: 0, defeated_zombies: 0 }
    }

    /// How many waves have begun: the finished ones, and the current one once
    /// one of its zombies has spawned.
    pub fn waves_started(&self) -> (r: usize)
        requires
            self.next_wave < usize::MAX,
        ensures
            r == self.next_wave + if self.next_spawn_in_wave > 0 {
                1usize
            } else {
                0usize
            },
    {
        self.next_wave + if self.next_spawn_in_wave > 0 {
            1
        } else {
            0
        }
    }

    /// Lets `delta` nanoseconds of level time pass.
    pub fn add_elapsed(&mut self, delta: u64)
        requires
            old(self).elapsed + delta <= u64::MAX,
        ensures
            *final(self) == (LevelRuntime { elapsed: (old(self).elapsed + delta) as u64, ..*old(self) }),
    {
        self.elapsed = self.elapsed + delta;
    }

    /// Counts a death: a zombie's death adds one to the defeated zombies.
    pub fn record_death(&mut self, team: Team)
        requires
            old(self).defeated_zombies < usize::MAX,
        ensures
            final(self).defeated_zombies == old(self).defeated_zombies + if team == Team::Zombies {
                1usize
            } else {
                0usize
            },
            final(self).elapsed == old(self).elapsed,
            final(self).next_wave == old(self).next_wave,
            final(self).next_spawn_in_wave == old(self).next_spawn_in_wave,
    {
        if team == Team::Zombies {
            self.defeated_zombies = self.defeated_zombies + 1;
        }
    }

    /// One step of the wave timeline: emits the spawns that are due, in
    /// order, and moves the cursor past them (see `timeline_run`). `due` tells,
    /// by wave and spawn, whether the level time has reached the spawn's time.
    pub fn advance_timeline(&mut self, definition: &LevelDefinition, due: &Vec<Vec<bool>>) -> (spawned: Vec<ZombieKind>)
        ensures
            ({
                let run = timeline_run(
                    wave_kinds(*definition),
                    due_view(due@),
                    old(self).next_wave as int,
                    old(self).next_spawn_in_wave as int,
                );
                &&& spawned@ == run.0
                &&& final(self).next_wave == run.1
                &&& final(self).next_spawn_in_wave == run.2
            }),
            final(self).elapsed == old(self).elapsed,
            final(self).defeated_zombies == old(self).defeated_zombies,
    {
        let ghost waves = wave_kinds(*definition);
        let ghost flags = due_view(due@);
        let ghost start = timeline_run(waves, flags, self.next_wave as int, self.next_spawn_in_wave as int);
        let mut spawned: Vec<ZombieKind> = Vec::new();
        let mut stalled = false;
        while !stalled && self.next_wave < definition.waves.len()
            invariant
                waves == wave_kinds(*definition),
                flags == due_view(due@),
                self.elapsed == old(self).elapsed,
                self.defeated_zombies == old(self).defeated_zombies,
                !stalled ==> ({
                    let run = timeline_run(waves, flags, self.next_wave as int, self.next_spawn_in_wave as int);
                    &&& start.0 == spawned@ + run.0
                    &&& start.1 == run.1
                    &&& start.2 == run.2
                }),
                stalled ==> start.0 == spawned@ && start.1 == self.next_wave && start.2
                    == self.next_spawn_in_wave,
            decreases definition.waves@.len() - self.next_wave, if stalled {
                0nat
            } else {
                1nat
            },
        {
            let wave = &definition.waves[self.next_wave];
            let ghost w = self.next_wave as int;
            assert(waves[w] == wave.spawns@);
            while self.next_spawn_in_wave < wave.spawns.len() && due_flag(due, self.next_wave, self.next_spawn_in_wave)
                invariant
                    waves == wave_kinds(*definition),
                    flags == due_view(due@),
                    w == self.next_wave,
                    0 <= w < waves.len(),
                    waves[w] == wave.spawns@,
                    self.elapsed == old(self).elapsed,
                    self.defeated_zombies == old(self).defeated_zombies,
                    ({
                        let run = timeline_run(waves, flags, self.next_wave as int, self.next_spawn_in_wave as int);
                        &&& start.0 == spawned@ + run.0
                        &&& start.1 == run.1
                        &&& start.2 == run.2
                    }),
                decreases wave.spawns@.len() - self.next_spawn_in_wave,
            {
                let ghost before = spawned@;
                spawned.push(wave.spawns[self.next_spawn_in_wave]);
                self.next_spawn_in_wave = self.next_spawn_in_wave + 1;
                assert(spawned@ + timeline_run(waves, flags, w, self.next_spawn_in_wave as int).0
                    =~= before + timeline_run(waves, flags, w, self.next_spawn_in_wave - 1).0);
            }
            if self.next_spawn_in_wave < wave.spawns.len() {
                assert(spawned@ + Seq::<ZombieKind>::empty() =~= spawned@);
                stalled = true;
            } else {
                self.next_wave = self.next_wave + 1;
                self.next_spawn_in_wave = 0;
            }
        }
        if !stalled {
            assert(spawned@ + Seq::<ZombieKind>::empty() =~= spawned@);
        }
        spawned
    }

    /// Whether the level is won: every wave has spawned and no zombie is left.
    pub fn is_won(&self, wave_count: usize, living_zombies: usize) -> (r: bool)
        ensures
            r == (self.next_wave == wave_count && living_zombies == 0),
    {
        self.next_wave == wave_count && living_zombies == 0
    }
}

/// A step of the timeline emits a prefix of the spawns still to come and
/// moves the cursor exactly past it: what was emitted followed by what is
/// still to come from the new cursor is what was to come from the old one. So
/// across steps every spawn is emitted once, in the order of the waves.
pub proof fn law_timeline_emits_schedule_in_order(waves: Seq<Seq<ZombieKind>>, due: Seq<Seq<bool>>, w: int, s: int)
    requires
        0 <= s,
    ensures
        ({
            let run = timeline_run(waves, due, w, s);
            run.0 + schedule_from(waves, run.1, run.2) == schedule_from(waves, w, s)
        }),
    decreases waves.len() - w, (if 0 <= w < waves.len() && s <= waves[w].len() {
        waves[w].len() - s
    } else {
        0
    }),
{
    if w < 0 || w >= waves.len() {
        assert(Seq::<ZombieKind>::empty() + schedule_from(waves, w, s) =~= schedule_from(waves, w, s));
    } else if 0 <= s < waves[w].len() {
        if due_at(due, w, s) {
            law_timeline_emits_schedule_in_order(waves, due, w, s + 1);
            let rest = timeline_run(waves, due, w, s + 1);
            assert(seq![waves[w][s]] + rest.0 + schedule_from(waves, rest.1, rest.2) =~= seq![waves[w][s]] + (rest.0
                + schedule_from(waves, rest.1, rest.2)));
        } else {
            assert(Seq::<ZombieKind>::empty() + schedule_from(waves, w, s) =~= schedule_from(waves, w, s));
        }
    } else {
        law_timeline_emits_schedule_in_order(waves, due, w + 1, 0);
    }
}

/// The timeline never moves backwards: the new cursor is at or after the old
/// one, and when it stops inside a wave, the spawn it stops at is not due.
pub proof fn law_timeline_moves_forward(waves: Seq<Seq<ZombieKind>>, due: Seq<Seq<bool>>, w: int, s: int)
    requires
        0 <= w,
        0 <= s,
    ensures
        ({
            let run = timeline_run(waves, due, w, s);
            &&& (run.1 > w || (run.1 == w && run.2 >= s))
            &&& run.1 < waves.len() ==> 0 <= run.2 < waves[run.1].len() && !due_at(due, run.1, run.2)
            &&& run.1 >= waves.len() ==> run.1 == w || run.1 == waves.len()
        }),
    decreases waves.len() - w, (if 0 <= w < waves.len() && s <= waves[w].len() {
        waves[w].len() - s
    } else {
        0
    }),
{
    if w >= waves.len() {
    } else if s < waves[w].len() {
        if due_at(due, w, s) {
            law_timeline_moves_forward(waves, due, w, s + 1);
        }
    } else {
        law_timeline_moves_forward(waves, due, w + 1, 0);
    }
}

/// The level is won only once every spawn of every wave has been emitted.
pub proof fn law_victory_needs_every_spawn(waves: Seq<Seq<ZombieKind>>, next_wave: int, next_spawn: int)
    requires
        next_wave == waves.len(),
    ensures
        schedule_from(waves, next_wave, next_spawn) == Seq::<ZombieKind>::empty(),
{
}

proof fn lemma_cards_ok(cards: Seq<PlantCardDefinition>, catalog: ContentCatalog, i: int)
    requires
        0 <= i,
        first_card_error(cards, catalog, i) is None,
    ensures
        forall|k: int| i <= k < cards.len() ==> #[trigger] card_error(cards, catalog, k) is None,
    decreases cards.len() - i,
{
    if i < cards.len() {
        lemma_cards_ok(cards, catalog, i + 1);
    }
}

proof fn lemma_spawns_ok(d: LevelDefinition, catalog: ContentCatalog, checks: LevelChecks, w: int, s: int)
    requires
        0 <= s,
        first_spawn_error(d, catalog, checks, w, s) is None,
    ensures
        forall|k: int| s <= k < d.waves@[w].spawns@.len() ==> #[trigger] spawn_error(d, catalog, checks, w, k) is None,
    decreases d.waves@[w].spawns@.len() - s,
{
    if s < d.waves@[w].spawns@.len() {
        lemma_spawns_ok(d, catalog, checks, w, s + 1);
    }
}

proof fn lemma_waves_ok(d: LevelDefinition, catalog: ContentCatalog, checks: LevelChecks, w: int)
    requires
        0 <= w,
        first_wave_error(d, catalog, checks, w) is None,
    ensures
        forall|v: int| w <= v < d.waves@.len() ==> #[trigger] wave_error(d, catalog, checks, v) is None,
    decreases d.waves@.len() - w,
{
    if w < d.waves@.len() {
        lemma_waves_ok(d, catalog, checks, w + 1);
    }
}

/// A level that passes validation has a non-blank id and name, a lawn with
/// columns and sound geometry, at least one card, every card's plant in the
/// catalog and no two cards sharing a slot or a plant, at least one wave,
/// no empty wave, and every spawn's zombie in the catalog with a sound time.
pub proof fn law_valid_level_is_well_formed(d: LevelDefinition, catalog: ContentCatalog, checks: LevelChecks)
    requires
        level_error(d, catalog, checks) is None,
    ensures
        !is_blank(d.id.0@),
        !is_blank(d.display_name@),
        d.lawn.columns > 0,
        checks.lawn_geometry_valid,
        d.cards@.len() > 0,
        forall|i: int| 0 <= i < d.cards@.len() ==> has_plant(catalog.plants@, (#[trigger] d.cards@[i]).plant),
        forall|i: int, j: int|
            0 <= i < j < d.cards@.len() ==> (#[trigger] d.cards@[i]).slot != (#[trigger] d.cards@[j]).slot
                && d.cards@[i].plant != d.cards@[j].plant,
        d.waves@.len() > 0,
        forall|w: int| 0 <= w < d.waves@.len() ==> (#[trigger] d.waves@[w]).spawns@.len() > 0,
        forall|w: int, s: int|
            0 <= w < d.waves@.len() && 0 <= s < d.waves@[w].spawns@.len() ==> has_zombie(
                catalog.zombies@,
                #[trigger] d.waves@[w].spawns@[s],
            ) && spawn_issue(checks.spawn_time_issues@, w, s) is None,
{
    let cards = d.cards@;
    lemma_cards_ok(cards, catalog, 0);
    assert forall|i: int, j: int| 0 <= i < j < cards.len() implies (#[trigger] cards[i]).slot != (#[trigger] cards[j]).slot
        && cards[i].plant != cards[j].plant by {
        assert(card_error(cards, catalog, j) is None);
        if cards[i].plant == cards[j].plant {
            assert(card_among(cards, j, cards[j].plant));
        }
    }
    assert forall|i: int| 0 <= i < cards.len() implies has_plant(catalog.plants@, (#[trigger] cards[i]).plant) by {
        assert(card_error(cards, catalog, i) is None);
    }
    lemma_valid_waves(d, catalog, checks);
}

proof fn lemma_valid_waves(d: LevelDefinition, catalog: ContentCatalog, checks: LevelChecks)
    requires
        first_wave_error(d, catalog, checks, 0) is None,
    ensures
        forall|w: int| 0 <= w < d.waves@.len() ==> (#[trigger] d.waves@[w]).spawns@.len() > 0,
        forall|w: int, s: int|
            0 <= w < d.waves@.len() && 0 <= s < d.waves@[w].spawns@.len() ==> has_zombie(
                catalog.zombies@,
                #[trigger] d.waves@[w].spawns@[s],
            ) && spawn_issue(checks.spawn_time_issues@, w, s) is None,
{
    lemma_waves_ok(d, catalog, checks, 0);
    assert forall|w: int| 0 <= w < d.waves@.len() implies (#[trigger] d.waves@[w]).spawns@.len() > 0 by {
        assert(wave_error(d, catalog, checks, w) is None);
    }
    assert forall|w: int, s: int| 0 <= w < d.waves@.len() && 0 <= s < d.waves@[w].spawns@.len() implies has_zombie(
        catalog.zombies@,
        #[trigger] d.waves@[w].spawns@[s],
    ) && spawn_issue(checks.spawn_time_issues@, w, s) is None by {
        assert(wave_error(d, catalog, checks, w) is None);
        lemma_spawns_ok(d, catalog, checks, w, 0);
        assert(spawn_error(d, catalog, checks, w, s) is None);
    }
}

/// The shovel: the entity of its preview while it is being dragged.
#[derive(Clone, Copy, Debug, PartialEq, Eq, Structural)]
pub struct ShovelMode {
    pub preview: Option<u64>,
}

impl ShovelMode {
    /// Whether the shovel is being dragged.
    pub fn active(&self) -> (r: bool)
        ensures
            r == self.preview is Some,
    {
        self.preview.is_some()
    }
}

/// Starts the level anew from its definition: fresh counters, the starting
/// sun, every card of the level ready, no shovel, the level's lawn and no
/// occupied cell.
pub fn reset_level(
    definition: &LevelDefinition,
    runtime: &mut LevelRuntime,
    bank: &mut SunBank,
    cards: &mut PlantCards,
    shovel: &mut ShovelMode,
    layout: &mut LawnLayout,
    occupancy: &mut CellOccupancy,
)
    ensures
        *final(runtime) == (LevelRuntime { elapsed: 0, next_wave: 0, next_spawn_in_wave: 0, defeated_zombies: 0 }),
        final(bank).amount == definition.starting_sun,
        final(cards)@ == Map::new(
            |kind: PlantKind| card_among(definition.cards@, definition.cards@.len() as int, kind),
            |kind: PlantKind| 0u64,
        ),
        final(shovel).preview is None,
        *final(layout) == definition.lawn,
        final(occupancy)@ == Map::<GridCell, u64>::empty(),
{
    *runtime = LevelRuntime::new();
    bank.amount = definition.starting_sun;
    *cards = PlantCards::from_cards(&definition.cards);
    shovel.preview = None;
    *layout = definition.lawn;
    occupancy.clear();
}

} // verus!
