//! The built-in content catalog: the one source of the plants', zombies' and
//! projectiles' rules. Durations are whole nanoseconds. Sizes, speeds, health
//! and colours are floating point and are kept beside the game's renderer.

use vstd::prelude::*;

use crate::kinds::{PlantKind, ProjectileKind, ZombieKind};
use crate::text::{decimal, decimal_text};

verus! {

/// One millisecond, in nanoseconds.
pub const MILLISECOND: u64 = 1_000_000;

/// One second, in nanoseconds.
pub const SECOND: u64 = 1_000_000_000;

/// What a plant does once it stands on the lawn.
#[derive(Clone, Copy, Debug, PartialEq, Eq, Structural)]
pub enum PlantBehavior {
    /// Produces `value` sun every `interval` nanoseconds.
    SunProducer { interval: u64, value: u32 },
    /// Fires a burst of `shots_per_burst` projectiles every `interval`
    /// nanoseconds, `burst_interval` nanoseconds apart.
    Shooter { interval: u64, projectile: ProjectileKind, shots_per_burst: u8, burst_interval: u64 },
    /// Only blocks the lane.
    Blocker,
}

/// The rules of one plant kind.
#[derive(Clone, Copy, Debug)]
pub struct PlantDefinition {
    pub kind: PlantKind,
    pub display_name: &'static str,
    /// Sun it costs to place.
    pub price: u32,
    /// Nanoseconds the card needs to recover after a placement.
    pub card_cooldown: u64,
    pub behavior: PlantBehavior,
}

/// The rules of one zombie kind.
#[derive(Clone, Copy, Debug)]
pub struct ZombieDefinition {
    pub kind: ZombieKind,
    pub display_name: &'static str,
    pub scene_label: &'static str,
    /// Nanoseconds between two bites.
    pub attack_interval: u64,
}

/// What happens to a projectile when it hits.
#[derive(Clone, Copy, Debug, PartialEq, Eq, Structural)]
pub struct HitPolicyDefinition {
    pub destroy_on_hit: bool,
    pub max_pierces: u8,
}

/// The rules of one projectile kind.
#[derive(Clone, Copy, Debug)]
pub struct ProjectileDefinition {
    pub kind: ProjectileKind,
    pub hit_policy: HitPolicyDefinition,
}

/// The catalog of every plant, zombie and projectile definition.
#[derive(Clone, Debug)]
pub struct ContentCatalog {
    pub plants: Vec<PlantDefinition>,
    pub zombies: Vec<ZombieDefinition>,
    pub projectiles: Vec<ProjectileDefinition>,
}

/// The verdicts of the checks on a catalog's floating-point values (health,
/// sizes, speeds, projectile motion), one per definition and in the catalog's
/// order: `Some(message)` for the first failed check of a definition. For a
/// zombie, `zombies_before` holds the checks that come before its attack
/// interval is checked and `zombies_after` the engage-range check after it.
/// A missing entry means that nothing failed.
#[derive(Clone, Debug)]
pub struct DefinitionIssues {
    pub plants: Vec<Option<String>>,
    pub zombies_before: Vec<Option<String>>,
    pub zombies_after: Vec<Option<String>>,
    pub projectiles: Vec<Option<String>>,
}

impl DefinitionIssues {
    /// No issue with any definition.
    pub fn none() -> (r: DefinitionIssues)
        ensures
            r.plants@.len() == 0,
            r.zombies_before@.len() == 0,
            r.zombies_after@.len() == 0,
            r.projectiles@.len() == 0,
    {
        DefinitionIssues {
            plants: Vec::new(),
            zombies_before: Vec::new(),
            zombies_after: Vec::new(),
            projectiles: Vec::new(),
        }
    }
}

/// The message of entry `i` of a list of verdicts, if any.
pub open spec fn issue_at(v: Seq<Option<String>>, i: int) -> Option<Seq<char>> {
    if 0 <= i < v.len() {
        match v[i] {
            Some(s) => Some(s@),
            None => None,
        }
    } else {
        None
    }
}

fn issue_of(v: &Vec<Option<String>>, i: usize) -> (r: Option<String>)
    ensures
        match r {
            Some(s) => issue_at(v@, i as int) == Some(s@),
            None => issue_at(v@, i as int) is None,
        },
{
    if i < v.len() {
        match &v[i] {
            Some(s) => Some(s.clone()),
            None => None,
        }
    } else {
        None
    }
}

/// The first error among `f(i)`, `f(i + 1)`, ..., `f(n - 1)`.
pub open spec fn first_error_from(f: spec_fn(int) -> Option<Seq<char>>, i: int, n: int) -> Option<
    Seq<char>,
>
    decreases n - i,
{
    if i >= n {
        None
    } else if f(i) is Some {
        f(i)
    } else {
        first_error_from(f, i + 1, n)
    }
}

/// Number of times `code` occurs in `codes`.
pub open spec fn occurrences(codes: Seq<u8>, code: nat) -> nat
    decreases codes.len(),
{
    if codes.len() == 0 {
        0
    } else {
        occurrences(codes.drop_last(), code) + if codes.last() as nat == code {
            1nat
        } else {
            0nat
        }
    }
}

/// The verdict on the kinds of one section of the catalog: every expected kind
/// (codes `c..names.len()`, named by `names`) must be defined exactly once, and
/// nothing else may be defined.
pub open spec fn kinds_error_from(label: Seq<char>, names: Seq<Seq<char>>, codes: Seq<u8>, c: nat) -> Option<
    Seq<char>,
>
    decreases names.len() - c,
{
    if c >= names.len() {
        if codes.len() != names.len() {
            Some(label + " catalog contains unknown definitions"@)
        } else {
            None
        }
    } else if occurrences(codes, c) != 1 {
        Some(
            label + " kind "@ + names[c as int] + " has "@ + decimal(occurrences(codes, c))
                + " definitions"@,
        )
    } else {
        kinds_error_from(label, names, codes, c + 1)
    }
}

/// Whether some projectile definition has the given kind.
pub open spec fn has_projectile(projectiles: Seq<ProjectileDefinition>, kind: ProjectileKind) -> bool {
    exists|i: int| 0 <= i < projectiles.len() && (#[trigger] projectiles[i]).kind == kind
}

/// `a * b`, or the largest `u64` where the product does not fit.
pub open spec fn saturating_product(a: u64, b: nat) -> nat {
    if a * b > u64::MAX {
        u64::MAX as nat
    } else {
        (a * b) as nat
    }
}

/// The verdict of a plant's own timing rules.
pub open spec fn plant_rule_error(plant: PlantDefinition, projectiles: Seq<ProjectileDefinition>) -> Option<
    Seq<char>,
> {
    match plant.behavior {
        PlantBehavior::Shooter { interval, projectile, shots_per_burst, burst_interval } => {
            if interval == 0 || shots_per_burst == 0 {
                Some("shooter interval and burst size must be positive"@)
            } else if shots_per_burst > 1 && burst_interval == 0 {
                Some("multi-shot burst interval must be positive"@)
            } else if saturating_product(burst_interval, (shots_per_burst - 1) as nat)
                >= interval {
                Some("shooter burst must finish before the next firing cycle"@)
            } else if !has_projectile(projectiles, projectile) {
                Some(
                    "plant "@ + plant.kind.name_spec() + " references missing projectile "@
                        + projectile.name_spec(),
                )
            } else {
                None
            }
        },
        PlantBehavior::SunProducer { interval, value } => {
            if interval == 0 || value == 0 {
                Some("sun producer interval and value must be positive"@)
            } else {
                None
            }
        },
        PlantBehavior::Blocker => None,
    }
}

/// The names of the first `n` kinds given by `name_of_code`.
pub open spec fn names_upto(n: nat, name_of_code: spec_fn(nat) -> Seq<char>) -> Seq<Seq<char>> {
    Seq::new(n, |c: int| name_of_code(c as nat))
}

pub open spec fn plant_kind_names() -> Seq<Seq<char>> {
    names_upto(PlantKind::count(), |c: nat| PlantKind::from_code_spec(c).name_spec())
}

pub open spec fn zombie_kind_names() -> Seq<Seq<char>> {
    names_upto(ZombieKind::count(), |c: nat| ZombieKind::from_code_spec(c).name_spec())
}

pub open spec fn projectile_kind_names() -> Seq<Seq<char>> {
    names_upto(ProjectileKind::count(), |c: nat| ProjectileKind::from_code_spec(c).name_spec())
}

/// The built-in definition of each plant.
pub open spec fn builtin_plant(kind: PlantKind) -> PlantDefinition {
    match kind {
        PlantKind::Sunflower => PlantDefinition { kind: PlantKind::Sunflower, display_name: "向日葵", price: 50, card_cooldown: 5_000_000_000, behavior: PlantBehavior::SunProducer { interval: 7_000_000_000, value: 25 } },
        PlantKind::TwinSunflower => PlantDefinition { kind: PlantKind::TwinSunflower, display_name: "双头向日葵", price: 150, card_cooldown: 7_000_000_000, behavior: PlantBehavior::SunProducer { interval: 7_000_000_000, value: 50 } },
        PlantKind::Peashooter => PlantDefinition { kind: PlantKind::Peashooter, display_name: "豌豆", price: 100, card_cooldown: 4_000_000_000, behavior: PlantBehavior::Shooter { interval: 1_350_000_000, projectile: ProjectileKind::Pea, shots_per_burst: 1, burst_interval: 150_000_000 } },
        PlantKind::Repeater => PlantDefinition { kind: PlantKind::Repeater, display_name: "多发射手", price: 200, card_cooldown: 5_000_000_000, behavior: PlantBehavior::Shooter { interval: 1_350_000_000, projectile: ProjectileKind::Pea, shots_per_burst: 2, burst_interval: 150_000_000 } },
        PlantKind::SnowPea => PlantDefinition { kind: PlantKind::SnowPea, display_name: "寒冰豌豆", price: 175, card_cooldown: 5_000_000_000, behavior: PlantBehavior::Shooter { interval: 1_350_000_000, projectile: ProjectileKind::IcePea, shots_per_burst: 1, burst_interval: 150_000_000 } },
        PlantKind::GatlingPea => PlantDefinition { kind: PlantKind::GatlingPea, display_name: "机枪射手", price: 250, card_cooldown: 7_000_000_000, behavior: PlantBehavior::Shooter { interval: 1_350_000_000, projectile: ProjectileKind::Pea, shots_per_burst: 4, burst_interval: 120_000_000 } },
        PlantKind::WallNut => PlantDefinition { kind: PlantKind::WallNut, display_name: "坚果", price: 50, card_cooldown: 8_000_000_000, behavior: PlantBehavior::Blocker },
        PlantKind::Torchwood => PlantDefinition { kind: PlantKind::Torchwood, display_name: "火炬树桩", price: 175, card_cooldown: 5_000_000_000, behavior: PlantBehavior::Blocker },
    }
}

fn make_builtin_plant(kind: PlantKind) -> (r: PlantDefinition)
    ensures
        r == builtin_plant(kind),
{
    match kind {
        PlantKind::Sunflower => PlantDefinition { kind: PlantKind::Sunflower, display_name: "向日葵", price: 50, card_cooldown: 5_000_000_000, behavior: PlantBehavior::SunProducer { interval: 7_000_000_000, value: 25 } },
        PlantKind::TwinSunflower => PlantDefinition { kind: PlantKind::TwinSunflower, display_name: "双头向日葵", price: 150, card_cooldown: 7_000_000_000, behavior: PlantBehavior::SunProducer { interval: 7_000_000_000, value: 50 } },
        PlantKind::Peashooter => PlantDefinition { kind: PlantKind::Peashooter, display_name: "豌豆", price: 100, card_cooldown: 4_000_000_000, behavior: PlantBehavior::Shooter { interval: 1_350_000_000, projectile: ProjectileKind::Pea, shots_per_burst: 1, burst_interval: 150_000_000 } },
        PlantKind::Repeater => PlantDefinition { kind: PlantKind::Repeater, display_name: "多发射手", price: 200, card_cooldown: 5_000_000_000, behavior: PlantBehavior::Shooter { interval: 1_350_000_000, projectile: ProjectileKind::Pea, shots_per_burst: 2, burst_interval: 150_000_000 } },
        PlantKind::SnowPea => PlantDefinition { kind: PlantKind::SnowPea, display_name: "寒冰豌豆", price: 175, card_cooldown: 5_000_000_000, behavior: PlantBehavior::Shooter { interval: 1_350_000_000, projectile: ProjectileKind::IcePea, shots_per_burst: 1, burst_interval: 150_000_000 } },
        PlantKind::GatlingPea => PlantDefinition { kind: PlantKind::GatlingPea, display_name: "机枪射手", price: 250, card_cooldown: 7_000_000_000, behavior: PlantBehavior::Shooter { interval: 1_350_000_000, projectile: ProjectileKind::Pea, shots_per_burst: 4, burst_interval: 120_000_000 } },
        PlantKind::WallNut => PlantDefinition { kind: PlantKind::WallNut, display_name: "坚果", price: 50, card_cooldown: 8_000_000_000, behavior: PlantBehavior::Blocker },
        PlantKind::Torchwood => PlantDefinition { kind: PlantKind::Torchwood, display_name: "火炬树桩", price: 175, card_cooldown: 5_000_000_000, behavior: PlantBehavior::Blocker },
    }
}

/// The order of the plants in the built-in catalog.
pub open spec fn builtin_plant_order(i: int) -> PlantKind {
    if i == 0 {
        PlantKind::Sunflower
    } else if i == 1 {
        PlantKind::TwinSunflower
    } else if i == 2 {
        PlantKind::Peashooter
    } else if i == 3 {
        PlantKind::Repeater
    } else if i == 4 {
        PlantKind::SnowPea
    } else if i == 5 {
        PlantKind::GatlingPea
    } else if i == 6 {
        PlantKind::WallNut
    } else {
        PlantKind::Torchwood
    }
}

/// The built-in display name of each zombie.
pub open spec fn zombie_display_name(kind: ZombieKind) -> Seq<char> {
    match kind {
        ZombieKind::Basic => "普通僵尸"@,
        ZombieKind::Flag => "旗帜僵尸"@,
        ZombieKind::Conehead => "路障僵尸"@,
        ZombieKind::PoleVaulting => "撑杆僵尸"@,
        ZombieKind::Buckethead => "铁桶僵尸"@,
        ZombieKind::Newspaper => "读报僵尸"@,
        ZombieKind::ScreenDoor => "铁门僵尸"@,
        ZombieKind::Football => "橄榄球僵尸"@,
        ZombieKind::Dancing => "舞王僵尸"@,
        ZombieKind::BackupDancer => "伴舞僵尸"@,
        ZombieKind::Snorkel => "潜水僵尸"@,
        ZombieKind::Zomboni => "冰车僵尸"@,
        ZombieKind::BobsledTeam => "雪橇僵尸小队"@,
        ZombieKind::DolphinRider => "海豚僵尸"@,
        ZombieKind::JackInTheBox => "小丑僵尸"@,
        ZombieKind::Balloon => "气球僵尸"@,
        ZombieKind::Digger => "矿工僵尸"@,
        ZombieKind::Pogo => "跳跳僵尸"@,
        ZombieKind::Yeti => "雪人僵尸"@,
        ZombieKind::Bungee => "蹦极僵尸"@,
        ZombieKind::Ladder => "梯子僵尸"@,
        ZombieKind::Catapult => "投篮僵尸"@,
        ZombieKind::Gargantuar => "巨人僵尸"@,
        ZombieKind::GigaGargantuar => "红眼巨人僵尸"@,
        ZombieKind::Imp => "小鬼僵尸"@,
        ZombieKind::IZombieImp => "我是僵尸模式小鬼"@,
        ZombieKind::PeashooterZombie => "豌豆僵尸"@,
        ZombieKind::WallNutZombie => "坚果僵尸"@,
        ZombieKind::JalapenoZombie => "辣椒僵尸"@,
        ZombieKind::GatlingPeaZombie => "机枪僵尸"@,
        ZombieKind::SquashZombie => "窝瓜僵尸"@,
        ZombieKind::TallNutZombie => "高坚果僵尸"@,
    }
}

/// The two-line label that names each zombie in the scene.
pub open spec fn zombie_scene_label_spec(kind: ZombieKind) -> Seq<char> {
    match kind {
        ZombieKind::Basic => "普通\n僵尸"@,
        ZombieKind::Flag => "旗帜\n僵尸"@,
        ZombieKind::Conehead => "路障\n僵尸"@,
        ZombieKind::PoleVaulting => "撑杆\n僵尸"@,
        ZombieKind::Buckethead => "铁桶\n僵尸"@,
        ZombieKind::Newspaper => "读报\n僵尸"@,
        ZombieKind::ScreenDoor => "栅栏\n僵尸"@,
        ZombieKind::Football => "橄榄球\n僵尸"@,
        ZombieKind::Dancing => "舞王\n僵尸"@,
        ZombieKind::BackupDancer => "伴舞\n僵尸"@,
        ZombieKind::Snorkel => "潜水\n僵尸"@,
        ZombieKind::Zomboni => "冰车\n僵尸"@,
        ZombieKind::BobsledTeam => "雪橇小队\n僵尸"@,
        ZombieKind::DolphinRider => "海豚\n僵尸"@,
        ZombieKind::JackInTheBox => "小丑\n僵尸"@,
        ZombieKind::Balloon => "气球\n僵尸"@,
        ZombieKind::Digger => "矿工\n僵尸"@,
        ZombieKind::Pogo => "跳跳\n僵尸"@,
        ZombieKind::Yeti => "雪人\n僵尸"@,
        ZombieKind::Bungee => "蹦极\n僵尸"@,
        ZombieKind::Ladder => "梯子\n僵尸"@,
        ZombieKind::Catapult => "投篮\n僵尸"@,
        ZombieKind::Gargantuar => "巨人\n僵尸"@,
        ZombieKind::GigaGargantuar => "红眼巨人\n僵尸"@,
        ZombieKind::Imp => "小鬼\n僵尸"@,
        ZombieKind::IZombieImp => "我是小鬼\n僵尸"@,
        ZombieKind::PeashooterZombie => "豌豆\n僵尸"@,
        ZombieKind::WallNutZombie => "坚果\n僵尸"@,
        ZombieKind::JalapenoZombie => "辣椒\n僵尸"@,
        ZombieKind::GatlingPeaZombie => "机枪\n僵尸"@,
        ZombieKind::SquashZombie => "窝瓜\n僵尸"@,
        ZombieKind::TallNutZombie => "高坚果\n僵尸"@,
    }
}

fn zombie_display_name_text(kind: ZombieKind) -> (r: &'static str)
    ensures
        r@ == zombie_display_name(kind),
{
    match kind {
        ZombieKind::Basic => "普通僵尸",
        ZombieKind::Flag => "旗帜僵尸",
        ZombieKind::Conehead => "路障僵尸",
        ZombieKind::PoleVaulting => "撑杆僵尸",
        ZombieKind::Buckethead => "铁桶僵尸",
        ZombieKind::Newspaper => "读报僵尸",
        ZombieKind::ScreenDoor => "铁门僵尸",
        ZombieKind::Football => "橄榄球僵尸",
        ZombieKind::Dancing => "舞王僵尸",
        ZombieKind::BackupDancer => "伴舞僵尸",
        ZombieKind::Snorkel => "潜水僵尸",
        ZombieKind::Zomboni => "冰车僵尸",
        ZombieKind::BobsledTeam => "雪橇僵尸小队",
        ZombieKind::DolphinRider => "海豚僵尸",
        ZombieKind::JackInTheBox => "小丑僵尸",
        ZombieKind::Balloon => "气球僵尸",
        ZombieKind::Digger => "矿工僵尸",
        ZombieKind::Pogo => "跳跳僵尸",
        ZombieKind::Yeti => "雪人僵尸",
        ZombieKind::Bungee => "蹦极僵尸",
        ZombieKind::Ladder => "梯子僵尸",
        ZombieKind::Catapult => "投篮僵尸",
        ZombieKind::Gargantuar => "巨人僵尸",
        ZombieKind::GigaGargantuar => "红眼巨人僵尸",
        ZombieKind::Imp => "小鬼僵尸",
        ZombieKind::IZombieImp => "我是僵尸模式小鬼",
        ZombieKind::PeashooterZombie => "豌豆僵尸",
        ZombieKind::WallNutZombie => "坚果僵尸",
        ZombieKind::JalapenoZombie => "辣椒僵尸",
        ZombieKind::GatlingPeaZombie => "机枪僵尸",
        ZombieKind::SquashZombie => "窝瓜僵尸",
        ZombieKind::TallNutZombie => "高坚果僵尸",
    }
}

/// The two-line label that names a zombie in the scene.
pub fn zombie_scene_label(kind: ZombieKind) -> (r: &'static str)
    ensures
        r@ == zombie_scene_label_spec(kind),
{
    match kind {
        ZombieKind::Basic => "普通\n僵尸",
        ZombieKind::Flag => "旗帜\n僵尸",
        ZombieKind::Conehead => "路障\n僵尸",
        ZombieKind::PoleVaulting => "撑杆\n僵尸",
        ZombieKind::Buckethead => "铁桶\n僵尸",
        ZombieKind::Newspaper => "读报\n僵尸",
        ZombieKind::ScreenDoor => "栅栏\n僵尸",
        ZombieKind::Football => "橄榄球\n僵尸",
        ZombieKind::Dancing => "舞王\n僵尸",
        ZombieKind::BackupDancer => "伴舞\n僵尸",
        ZombieKind::Snorkel => "潜水\n僵尸",
        ZombieKind::Zomboni => "冰车\n僵尸",
        ZombieKind::BobsledTeam => "雪橇小队\n僵尸",
        ZombieKind::DolphinRider => "海豚\n僵尸",
        ZombieKind::JackInTheBox => "小丑\n僵尸",
        ZombieKind::Balloon => "气球\n僵尸",
        ZombieKind::Digger => "矿工\n僵尸",
        ZombieKind::Pogo => "跳跳\n僵尸",
        ZombieKind::Yeti => "雪人\n僵尸",
        ZombieKind::Bungee => "蹦极\n僵尸",
        ZombieKind::Ladder => "梯子\n僵尸",
        ZombieKind::Catapult => "投篮\n僵尸",
        ZombieKind::Gargantuar => "巨人\n僵尸",
        ZombieKind::GigaGargantuar => "红眼巨人\n僵尸",
        ZombieKind::Imp => "小鬼\n僵尸",
        ZombieKind::IZombieImp => "我是小鬼\n僵尸",
        ZombieKind::PeashooterZombie => "豌豆\n僵尸",
        ZombieKind::WallNutZombie => "坚果\n僵尸",
        ZombieKind::JalapenoZombie => "辣椒\n僵尸",
        ZombieKind::GatlingPeaZombie => "机枪\n僵尸",
        ZombieKind::SquashZombie => "窝瓜\n僵尸",
        ZombieKind::TallNutZombie => "高坚果\n僵尸",
    }
}

/// The kinds' codes of a section of the catalog, in the catalog's order.
pub open spec fn plant_codes(plants: Seq<PlantDefinition>) -> Seq<u8> {
    plants.map_values(|p: PlantDefinition| p.kind.code_spec() as u8)
}

pub open spec fn zombie_codes(zombies: Seq<ZombieDefinition>) -> Seq<u8> {
    zombies.map_values(|z: ZombieDefinition| z.kind.code_spec() as u8)
}

pub open spec fn projectile_codes(projectiles: Seq<ProjectileDefinition>) -> Seq<u8> {
    projectiles.map_values(|p: ProjectileDefinition| p.kind.code_spec() as u8)
}

/// The verdict on plant `i`: its floating-point checks, then its timing rules.
pub open spec fn plant_error(c: ContentCatalog, issues: DefinitionIssues, i: int) -> Option<Seq<char>> {
    if issue_at(issues.plants@, i) is Some {
        issue_at(issues.plants@, i)
    } else {
        plant_rule_error(c.plants@[i], c.projectiles@)
    }
}

/// The verdict on zombie `i`: its floating-point checks, its attack interval,
/// then its engage range.
pub open spec fn zombie_error(c: ContentCatalog, issues: DefinitionIssues, i: int) -> Option<Seq<char>> {
    if issue_at(issues.zombies_before@, i) is Some {
        issue_at(issues.zombies_before@, i)
    } else if c.zombies@[i].attack_interval == 0 {
        Some("zombie attack interval must be positive"@)
    } else {
        issue_at(issues.zombies_after@, i)
    }
}

/// The first failing plant from position `i` on.
pub open spec fn first_plant_error(c: ContentCatalog, issues: DefinitionIssues, i: int) -> Option<Seq<char>>
    decreases c.plants@.len() - i,
{
    if i < 0 || i >= c.plants@.len() {
        None
    } else if plant_error(c, issues, i) is Some {
        plant_error(c, issues, i)
    } else {
        first_plant_error(c, issues, i + 1)
    }
}

/// The first failing zombie from position `i` on.
pub open spec fn first_zombie_error(c: ContentCatalog, issues: DefinitionIssues, i: int) -> Option<Seq<char>>
    decreases c.zombies@.len() - i,
{
    if i < 0 || i >= c.zombies@.len() {
        None
    } else if zombie_error(c, issues, i) is Some {
        zombie_error(c, issues, i)
    } else {
        first_zombie_error(c, issues, i + 1)
    }
}

/// The first failing projectile from position `i` on.
pub open spec fn first_projectile_error(c: ContentCatalog, issues: DefinitionIssues, i: int) -> Option<
    Seq<char>,
>
    decreases c.projectiles@.len() - i,
{
    if i < 0 || i >= c.projectiles@.len() {
        None
    } else if issue_at(issues.projectiles@, i) is Some {
        issue_at(issues.projectiles@, i)
    } else {
        first_projectile_error(c, issues, i + 1)
    }
}

/// The verdict on the kinds of the three sections of the catalog.
pub open spec fn catalog_kinds_error(c: ContentCatalog) -> Option<Seq<char>> {
    let plant_kinds = kinds_error_from("plant"@, plant_kind_names(), plant_codes(c.plants@), 0);
    let zombie_kinds = kinds_error_from("zombie"@, zombie_kind_names(), zombie_codes(c.zombies@), 0);
    let projectile_kinds = kinds_error_from(
        "projectile"@,
        projectile_kind_names(),
        projectile_codes(c.projectiles@),
        0,
    );
    if plant_kinds is Some {
        plant_kinds
    } else if zombie_kinds is Some {
        zombie_kinds
    } else {
        projectile_kinds
    }
}

/// What `ContentCatalog::validate` reports: the kinds of the plants, zombies
/// and projectiles, then every plant, every zombie and every projectile in
/// order; the first failure is the answer.
pub open spec fn catalog_error(c: ContentCatalog, issues: DefinitionIssues) -> Option<Seq<char>> {
    if catalog_kinds_error(c) is Some {
        catalog_kinds_error(c)
    } else if first_plant_error(c, issues, 0) is Some {
        first_plant_error(c, issues, 0)
    } else if first_zombie_error(c, issues, 0) is Some {
        first_zombie_error(c, issues, 0)
    } else {
        first_projectile_error(c, issues, 0)
    }
}

/// Whether some plant definition has the given kind.
pub open spec fn has_plant(plants: Seq<PlantDefinition>, kind: PlantKind) -> bool {
    exists|i: int| 0 <= i < plants.len() && (#[trigger] plants[i]).kind == kind
}

/// Whether some zombie definition has the given kind.
pub open spec fn has_zombie(zombies: Seq<ZombieDefinition>, kind: ZombieKind) -> bool {
    exists|i: int| 0 <= i < zombies.len() && (#[trigger] zombies[i]).kind == kind
}

/// `i` is the first position of a plant of the given kind.
pub open spec fn first_plant_at(plants: Seq<PlantDefinition>, kind: PlantKind, i: int) -> bool {
    &&& 0 <= i < plants.len()
    &&& plants[i].kind == kind
    &&& forall|j: int| 0 <= j < i ==> (#[trigger] plants[j]).kind != kind
}

/// `i` is the first position of a zombie of the given kind.
pub open spec fn first_zombie_at(zombies: Seq<ZombieDefinition>, kind: ZombieKind, i: int) -> bool {
    &&& 0 <= i < zombies.len()
    &&& zombies[i].kind == kind
    &&& forall|j: int| 0 <= j < i ==> (#[trigger] zombies[j]).kind != kind
}

/// `i` is the first position of a projectile of the given kind.
pub open spec fn first_projectile_at(projectiles: Seq<ProjectileDefinition>, kind: ProjectileKind, i: int) -> bool {
    &&& 0 <= i < projectiles.len()
    &&& projectiles[i].kind == kind
    &&& forall|j: int| 0 <= j < i ==> (#[trigger] projectiles[j]).kind != kind
}

/// The names of the kinds, in the kinds' order.
fn plant_names() -> (r: Vec<&'static str>)
    ensures
        r@.map_values(|s: &'static str| s@) == plant_kind_names(),
{
    let all = PlantKind::all();
    let mut r: Vec<&'static str> = Vec::new();
    let mut i: usize = 0;
    while i < all.len()
        invariant
            all@.len() == PlantKind::count(),
            forall|j: int| 0 <= j < all@.len() ==> (#[trigger] all@[j]).code_spec() == j,
            i <= all@.len(),
            r@.len() == i,
            forall|j: int| 0 <= j < i ==> (#[trigger] r@[j])@ == PlantKind::from_code_spec(j as nat).name_spec(),
        decreases all@.len() - i,
    {
        proof {
            PlantKind::lemma_code_injective(all@[i as int], all@[i as int]);
        }
        r.push(all[i].name());
        i = i + 1;
    }
    assert(r@.map_values(|s: &'static str| s@) =~= plant_kind_names());
    r
}

fn zombie_names() -> (r: Vec<&'static str>)
    ensures
        r@.map_values(|s: &'static str| s@) == zombie_kind_names(),
{
    let all = ZombieKind::all();
    let mut r: Vec<&'static str> = Vec::new();
    let mut i: usize = 0;
    while i < all.len()
        invariant
            all@.len() == ZombieKind::count(),
            forall|j: int| 0 <= j < all@.len() ==> (#[trigger] all@[j]).code_spec() == j,
            i <= all@.len(),
            r@.len() == i,
            forall|j: int| 0 <= j < i ==> (#[trigger] r@[j])@ == ZombieKind::from_code_spec(j as nat).name_spec(),
        decreases all@.len() - i,
    {
        proof {
            ZombieKind::lemma_code_injective(all@[i as int], all@[i as int]);
        }
        r.push(all[i].name());
        i = i + 1;
    }
    assert(r@.map_values(|s: &'static str| s@) =~= zombie_kind_names());
    r
}

fn projectile_names() -> (r: Vec<&'static str>)
    ensures
        r@.map_values(|s: &'static str| s@) == projectile_kind_names(),
{
    let all = ProjectileKind::all();
    let mut r: Vec<&'static str> = Vec::new();
    let mut i: usize = 0;
    while i < all.len()
        invariant
            all@.len() == ProjectileKind::count(),
            forall|j: int| 0 <= j < all@.len() ==> (#[trigger] all@[j]).code_spec() == j,
            i <= all@.len(),
            r@.len() == i,
            forall|j: int| 0 <= j < i ==> (#[trigger] r@[j])@ == ProjectileKind::from_code_spec(j as nat).name_spec(),
        decreases all@.len() - i,
    {
        proof {
            ProjectileKind::lemma_code_injective(all@[i as int], all@[i as int]);
        }
        r.push(all[i].name());
        i = i + 1;
    }
    assert(r@.map_values(|s: &'static str| s@) =~= projectile_kind_names());
    r
}

proof fn lemma_occurrences_step(codes: Seq<u8>, i: int, code: nat)
    requires
        0 <= i < codes.len(),
    ensures
        occurrences(codes.subrange(0, i + 1), code) == occurrences(codes.subrange(0, i), code) + if codes[i] as nat == code {
            1nat
        } else {
            0nat
        },
{
    assert(codes.subrange(0, i + 1).drop_last() =~= codes.subrange(0, i));
}

/// How many times `code` occurs in `codes`.
fn count_code(codes: &Vec<u8>, code: u8) -> (r: usize)
    ensures
        r as nat == occurrences(codes@, code as nat),
{
    let mut count: usize = 0;
    let mut i: usize = 0;
    while i < codes.len()
        invariant
            i <= codes@.len(),
            count <= i,
            count as nat == occurrences(codes@.subrange(0, i as int), code as nat),
        decreases codes@.len() - i,
    {
        proof {
            lemma_occurrences_step(codes@, i as int, code as nat);
        }
        if codes[i] == code {
            count = count + 1;
        }
        i = i + 1;
    }
    assert(codes@.subrange(0, codes@.len() as int) =~= codes@);
    count
}

/// Checks that every expected kind (named by `names`, in code order) is
/// defined exactly once and that nothing else is defined.
pub fn validate_kinds(label: &str, names: &Vec<&'static str>, codes: &Vec<u8>) -> (r: Result<(), String>)
    requires
        names@.len() < 256,
    ensures
        match r {
            Ok(_) => kinds_error_from(label@, names@.map_values(|s: &'static str| s@), codes@, 0) is None,
            Err(e) => kinds_error_from(label@, names@.map_values(|s: &'static str| s@), codes@, 0) == Some(e@),
        },
{
    let ghost name_views = names@.map_values(|s: &'static str| s@);
    let mut c: usize = 0;
    while c < names.len()
        invariant
            names@.len() < 256,
            c <= names@.len(),
            name_views == names@.map_values(|s: &'static str| s@),
            kinds_error_from(label@, name_views, codes@, 0) == kinds_error_from(label@, name_views, codes@, c as nat),
        decreases names@.len() - c,
    {
        let count = count_code(codes, c as u8);
        if count != 1 {
            let mut message = String::from_str(label);
            message.append(" kind ");
            message.append(names[c]);
            message.append(" has ");
            message.append(decimal_text(count as u64).as_str());
            message.append(" definitions");
            return Err(message);
        }
        c = c + 1;
    }
    if codes.len() != names.len() {
        let mut message = String::from_str(label);
        message.append(" catalog contains unknown definitions");
        return Err(message);
    }
    Ok(())
}

/// Checks a plant's own timing rules.
fn check_plant_rules(plant: &PlantDefinition, projectiles: &Vec<ProjectileDefinition>) -> (r: Result<(), String>)
    ensures
        match r {
            Ok(_) => plant_rule_error(*plant, projectiles@) is None,
            Err(e) => plant_rule_error(*plant, projectiles@) == Some(e@),
        },
{
    match plant.behavior {
        PlantBehavior::Shooter { interval, projectile, shots_per_burst, burst_interval } => {
            if interval == 0 || shots_per_burst == 0 {
                return Err(String::from_str("shooter interval and burst size must be positive"));
            }
            if shots_per_burst > 1 && burst_interval == 0 {
                return Err(String::from_str("multi-shot burst interval must be positive"));
            }
            let burst_length = match burst_interval.checked_mul((shots_per_burst - 1) as u64) {
                Some(product) => product,
                None => u64::MAX,
            };
            if burst_length >= interval {
                return Err(String::from_str("shooter burst must finish before the next firing cycle"));
            }
            let mut found = false;
            let mut i: usize = 0;
            while i < projectiles.len()
                invariant
                    i <= projectiles@.len(),
                    found == exists|j: int| 0 <= j < i && (#[trigger] projectiles@[j]).kind == projectile,
                decreases projectiles@.len() - i,
            {
                if projectiles[i].kind == projectile {
                    found = true;
                }
                i = i + 1;
            }
            if !found {
                let mut message = String::from_str("plant ");
                message.append(plant.kind.name());
                message.append(" references missing projectile ");
                message.append(projectile.name());
                return Err(message);
            }
            Ok(())
        },
        PlantBehavior::SunProducer { interval, value } => {
            if interval == 0 || value == 0 {
                return Err(String::from_str("sun producer interval and value must be positive"));
            }
            Ok(())
        },
        PlantBehavior::Blocker => Ok(()),
    }
}

/// The built-in catalog: the eight plants of `builtin_plant` in card-bar
/// order, every zombie kind in code order with its names and a one-second
/// bite, and every projectile kind in code order, spent on its first hit.
pub open spec fn is_builtin_catalog(r: ContentCatalog) -> bool {
    &&& r.plants@.len() == 8
    &&& forall|i: int| 0 <= i < 8 ==> (#[trigger] r.plants@[i]) == builtin_plant(builtin_plant_order(i))
    &&& r.zombies@.len() == ZombieKind::count()
    &&& forall|i: int|
        #![trigger r.zombies@[i]]
        0 <= i < ZombieKind::count() ==> {
            let z = r.zombies@[i];
            let kind = ZombieKind::from_code_spec(i as nat);
            &&& z.kind == kind
            &&& z.display_name@ == zombie_display_name(kind)
            &&& z.scene_label@ == zombie_scene_label_spec(kind)
            &&& z.attack_interval == SECOND
        }
    &&& r.projectiles@.len() == ProjectileKind::count()
    &&& forall|i: int|
        #![trigger r.projectiles@[i]]
        0 <= i < ProjectileKind::count() ==> {
            &&& r.projectiles@[i].kind == ProjectileKind::from_code_spec(i as nat)
            &&& r.projectiles@[i].hit_policy == HitPolicyDefinition { destroy_on_hit: true, max_pierces: 0 }
        }
}

impl Default for ContentCatalog {
    /// The built-in catalog.
    fn default() -> (r: ContentCatalog)
        ensures
            is_builtin_catalog(r),
    {
        let mut plants: Vec<PlantDefinition> = Vec::new();
        plants.push(make_builtin_plant(PlantKind::Sunflower));
        plants.push(make_builtin_plant(PlantKind::TwinSunflower));
        plants.push(make_builtin_plant(PlantKind::Peashooter));
        plants.push(make_builtin_plant(PlantKind::Repeater));
        plants.push(make_builtin_plant(PlantKind::SnowPea));
        plants.push(make_builtin_plant(PlantKind::GatlingPea));
        plants.push(make_builtin_plant(PlantKind::WallNut));
        plants.push(make_builtin_plant(PlantKind::Torchwood));

        let kinds = ZombieKind::all();
        let mut zombies: Vec<ZombieDefinition> = Vec::new();
        let mut i: usize = 0;
        while i < kinds.len()
            invariant
                kinds@.len() == ZombieKind::count(),
                forall|j: int| 0 <= j < kinds@.len() ==> (#[trigger] kinds@[j]).code_spec() == j,
                i <= kinds@.len(),
                zombies@.len() == i,
                forall|j: int|
                    #![trigger zombies@[j]]
                    0 <= j < i ==> {
                        let z = zombies@[j];
                        let kind = ZombieKind::from_code_spec(j as nat);
                        &&& z.kind == kind
                        &&& z.display_name@ == zombie_display_name(kind)
                        &&& z.scene_label@ == zombie_scene_label_spec(kind)
                        &&& z.attack_interval == SECOND
                    },
            decreases kinds@.len() - i,
        {
            let kind = kinds[i];
            proof {
                ZombieKind::lemma_code_injective(kind, kind);
            }
            zombies.push(
                ZombieDefinition {
                    kind,
                    display_name: zombie_display_name_text(kind),
                    scene_label: zombie_scene_label(kind),
                    attack_interval: SECOND,
                },
            );
            i = i + 1;
        }

        let projectile_kinds = ProjectileKind::all();
        let mut projectiles: Vec<ProjectileDefinition> = Vec::new();
        let mut k: usize = 0;
        while k < projectile_kinds.len()
            invariant
                projectile_kinds@.len() == ProjectileKind::count(),
                forall|j: int| 0 <= j < projectile_kinds@.len() ==> (#[trigger] projectile_kinds@[j]).code_spec() == j,
                k <= projectile_kinds@.len(),
                projectiles@.len() == k,
                forall|j: int|
                    #![trigger projectiles@[j]]
                    0 <= j < k ==> {
                        &&& projectiles@[j].kind == ProjectileKind::from_code_spec(j as nat)
                        &&& projectiles@[j].hit_policy == HitPolicyDefinition { destroy_on_hit: true, max_pierces: 0 }
                    },
            decreases projectile_kinds@.len() - k,
        {
            let kind = projectile_kinds[k];
            proof {
                ProjectileKind::lemma_code_injective(kind, kind);
            }
            projectiles.push(
                ProjectileDefinition {
                    kind,
                    hit_policy: HitPolicyDefinition { destroy_on_hit: true, max_pierces: 0 },
                },
            );
            k = k + 1;
        }
        ContentCatalog { plants, zombies, projectiles }
    }
}

impl ContentCatalog {
    /// Whether the catalog defines the plant kind.
    pub fn contains_plant(&self, kind: PlantKind) -> (r: bool)
        ensures
            r == has_plant(self.plants@, kind),
    {
        let mut i: usize = 0;
        while i < self.plants.len()
            invariant
                i <= self.plants@.len(),
                forall|j: int| 0 <= j < i ==> (#[trigger] self.plants@[j]).kind != kind,
            decreases self.plants@.len() - i,
        {
            if self.plants[i].kind == kind {
                return true;
            }
            i = i + 1;
        }
        false
    }

    /// Whether the catalog defines the zombie kind.
    pub fn contains_zombie(&self, kind: ZombieKind) -> (r: bool)
        ensures
            r == has_zombie(self.zombies@, kind),
    {
        let mut i: usize = 0;
        while i < self.zombies.len()
            invariant
                i <= self.zombies@.len(),
                forall|j: int| 0 <= j < i ==> (#[trigger] self.zombies@[j]).kind != kind,
            decreases self.zombies@.len() - i,
        {
            if self.zombies[i].kind == kind {
                return true;
            }
            i = i + 1;
        }
        false
    }

    /// The first definition of the plant kind.
    pub fn plant(&self, kind: PlantKind) -> (r: &PlantDefinition)
        requires
            has_plant(self.plants@, kind),
        ensures
            exists|i: int| first_plant_at(self.plants@, kind, i) && *r == self.plants@[i],
    {
        let mut i: usize = 0;
        while i < self.plants.len()
            invariant
                i <= self.plants@.len(),
                has_plant(self.plants@, kind),
                forall|j: int| 0 <= j < i ==> (#[trigger] self.plants@[j]).kind != kind,
            decreases self.plants@.len() - i,
        {
            if self.plants[i].kind == kind {
                assert(first_plant_at(self.plants@, kind, i as int));
                return &self.plants[i];
            }
            i = i + 1;
        }
        proof {
            let w = choose|w: int| 0 <= w < self.plants@.len() && (#[trigger] self.plants@[w]).kind == kind;
            assert(self.plants@[w].kind != kind);
        }
        &self.plants[0]
    }

    /// The first definition of the zombie kind.
    pub fn zombie(&self, kind: ZombieKind) -> (r: &ZombieDefinition)
        requires
            has_zombie(self.zombies@, kind),
        ensures
            exists|i: int| first_zombie_at(self.zombies@, kind, i) && *r == self.zombies@[i],
    {
        let mut i: usize = 0;
        while i < self.zombies.len()
            invariant
                i <= self.zombies@.len(),
                has_zombie(self.zombies@, kind),
                forall|j: int| 0 <= j < i ==> (#[trigger] self.zombies@[j]).kind != kind,
            decreases self.zombies@.len() - i,
        {
            if self.zombies[i].kind == kind {
                assert(first_zombie_at(self.zombies@, kind, i as int));
                return &self.zombies[i];
            }
            i = i + 1;
        }
        proof {
            let w = choose|w: int| 0 <= w < self.zombies@.len() && (#[trigger] self.zombies@[w]).kind == kind;
            assert(self.zombies@[w].kind != kind);
        }
        &self.zombies[0]
    }

    /// The first definition of the projectile kind.
    pub fn projectile(&self, kind: ProjectileKind) -> (r: &ProjectileDefinition)
        requires
            has_projectile(self.projectiles@, kind),
        ensures
            exists|i: int| first_projectile_at(self.projectiles@, kind, i) && *r == self.projectiles@[i],
    {
        let mut i: usize = 0;
        while i < self.projectiles.len()
            invariant
                i <= self.projectiles@.len(),
                has_projectile(self.projectiles@, kind),
                forall|j: int| 0 <= j < i ==> (#[trigger] self.projectiles@[j]).kind != kind,
            decreases self.projectiles@.len() - i,
        {
            if self.projectiles[i].kind == kind {
                assert(first_projectile_at(self.projectiles@, kind, i as int));
                return &self.projectiles[i];
            }
            i = i + 1;
        }
        proof {
            let w = choose|w: int| 0 <= w < self.projectiles@.len() && (#[trigger] self.projectiles@[w]).kind == kind;
            assert(self.projectiles@[w].kind != kind);
        }
        &self.projectiles[0]
    }

    /// Checks the catalog: each section defines every kind exactly once, and
    /// every definition passes its checks, the floating-point ones handed in
    /// by `issues`. Returns the first failure.
    pub fn validate(&self, issues: &DefinitionIssues) -> (r: Result<(), String>)
        ensures
            match r {
                Ok(_) => catalog_error(*self, *issues) is None,
                Err(e) => catalog_error(*self, *issues) == Some(e@),
            },
    {
        let plant_codes_exec = self.plant_code_list();
        validate_kinds("plant", &plant_names(), &plant_codes_exec)?;
        let zombie_codes_exec = self.zombie_code_list();
        validate_kinds("zombie", &zombie_names(), &zombie_codes_exec)?;
        let projectile_codes_exec = self.projectile_code_list();
        validate_kinds("projectile", &projectile_names(), &projectile_codes_exec)?;
        proof {
            reveal_strlit("plant");
            reveal_strlit("zombie");
            reveal_strlit("projectile");
        }

        let mut i: usize = 0;
        while i < self.plants.len()
            invariant
                i <= self.plants@.len(),
                catalog_kinds_error(*self) is None,
                first_plant_error(*self, *issues, 0) == first_plant_error(*self, *issues, i as int),
            decreases self.plants@.len() - i,
        {
            if let Some(message) = issue_of(&issues.plants, i) {
                return Err(message);
            }
            check_plant_rules(&self.plants[i], &self.projectiles)?;
            i = i + 1;
        }

        let mut i: usize = 0;
        while i < self.zombies.len()
            invariant
                i <= self.zombies@.len(),
                catalog_kinds_error(*self) is None,
                first_plant_error(*self, *issues, 0) is None,
                first_zombie_error(*self, *issues, 0) == first_zombie_error(*self, *issues, i as int),
            decreases self.zombies@.len() - i,
        {
            if let Some(message) = issue_of(&issues.zombies_before, i) {
                return Err(message);
            }
            if self.zombies[i].attack_interval == 0 {
                return Err(String::from_str("zombie attack interval must be positive"));
            }
            if let Some(message) = issue_of(&issues.zombies_after, i) {
                return Err(message);
            }
            i = i + 1;
        }

        let mut i: usize = 0;
        while i < self.projectiles.len()
            invariant
                i <= self.projectiles@.len(),
                first_plant_error(*self, *issues, 0) is None,
                catalog_kinds_error(*self) is None,
                first_zombie_error(*self, *issues, 0) is None,
                first_projectile_error(*self, *issues, 0) == first_projectile_error(*self, *issues, i as int),
            decreases self.projectiles@.len() - i,
        {
            if let Some(message) = issue_of(&issues.projectiles, i) {
                return Err(message);
            }
            i = i + 1;
        }
        Ok(())
    }

    fn plant_code_list(&self) -> (r: Vec<u8>)
        ensures
            r@ == plant_codes(self.plants@),
    {
        let mut r: Vec<u8> = Vec::new();
        let mut i: usize = 0;
        while i < self.plants.len()
            invariant
                i <= self.plants@.len(),
                r@ == plant_codes(self.plants@.subrange(0, i as int)),
            decreases self.plants@.len() - i,
        {
            r.push(self.plants[i].kind.code());
            i = i + 1;
            assert(r@ =~= plant_codes(self.plants@.subrange(0, i as int)));
        }
        assert(self.plants@.subrange(0, self.plants@.len() as int) =~= self.plants@);
        r
    }

    fn zombie_code_list(&self) -> (r: Vec<u8>)
        ensures
            r@ == zombie_codes(self.zombies@),
    {
        let mut r: Vec<u8> = Vec::new();
        let mut i: usize = 0;
        while i < self.zombies.len()
            invariant
                i <= self.zombies@.len(),
                r@ == zombie_codes(self.zombies@.subrange(0, i as int)),
            decreases self.zombies@.len() - i,
        {
            r.push(self.zombies[i].kind.code());
            i = i + 1;
            assert(r@ =~= zombie_codes(self.zombies@.subrange(0, i as int)));
        }
        assert(self.zombies@.subrange(0, self.zombies@.len() as int) =~= self.zombies@);
        r
    }

    fn projectile_code_list(&self) -> (r: Vec<u8>)
        ensures
            r@ == projectile_codes(self.projectiles@),
    {
        let mut r: Vec<u8> = Vec::new();
        let mut i: usize = 0;
        while i < self.projectiles.len()
            invariant
                i <= self.projectiles@.len(),
                r@ == projectile_codes(self.projectiles@.subrange(0, i as int)),
            decreases self.projectiles@.len() - i,
        {
            r.push(self.projectiles[i].kind.code());
            i = i + 1;
            assert(r@ =~= projectile_codes(self.projectiles@.subrange(0, i as int)));
        }
        assert(self.projectiles@.subrange(0, self.projectiles@.len() as int) =~= self.projectiles@);
        r
    }
}

/// Every expected code of a section that passes the kind check occurs
/// exactly once, and nothing else occurs.
proof fn lemma_kinds_ok(label: Seq<char>, names: Seq<Seq<char>>, codes: Seq<u8>, c: nat)
    requires
        kinds_error_from(label, names, codes, c) is None,
    ensures
        codes.len() == names.len(),
        forall|k: nat| c <= k < names.len() ==> #[trigger] occurrences(codes, k) == 1,
    decreases names.len() - c,
{
    if c < names.len() {
        lemma_kinds_ok(label, names, codes, c + 1);
    }
}

/// A code that occurs is at some position.
proof fn lemma_occurs_somewhere(codes: Seq<u8>, code: nat)
    requires
        occurrences(codes, code) > 0,
    ensures
        exists|i: int| 0 <= i < codes.len() && codes[i] as nat == code,
    decreases codes.len(),
{
    if codes.last() as nat != code {
        lemma_occurs_somewhere(codes.drop_last(), code);
        let i = choose|i: int| 0 <= i < codes.drop_last().len() && codes.drop_last()[i] as nat == code;
        assert(codes[i] == codes.drop_last()[i]);
    } else {
        assert(codes[codes.len() - 1] as nat == code);
    }
}

proof fn lemma_plant_kinds_ok(plants: Seq<PlantDefinition>)
    requires
        kinds_error_from("plant"@, plant_kind_names(), plant_codes(plants), 0) is None,
    ensures
        plants.len() == PlantKind::count(),
        forall|kind: PlantKind| #[trigger] occurrences(plant_codes(plants), kind.code_spec()) == 1 && has_plant(plants, kind),
{
    lemma_kinds_ok("plant"@, plant_kind_names(), plant_codes(plants), 0);
    assert forall|kind: PlantKind| #[trigger] occurrences(plant_codes(plants), kind.code_spec()) == 1 && has_plant(plants, kind) by {
        PlantKind::lemma_code_injective(kind, kind);
        let codes = plant_codes(plants);
        lemma_occurs_somewhere(codes, kind.code_spec());
        let i = choose|i: int| 0 <= i < codes.len() && codes[i] as nat == kind.code_spec();
        PlantKind::lemma_code_injective(plants[i].kind, kind);
        assert(plants[i].kind == kind);
    }
}

proof fn lemma_zombie_kinds_ok(zombies: Seq<ZombieDefinition>)
    requires
        kinds_error_from("zombie"@, zombie_kind_names(), zombie_codes(zombies), 0) is None,
    ensures
        zombies.len() == ZombieKind::count(),
        forall|kind: ZombieKind| #[trigger] occurrences(zombie_codes(zombies), kind.code_spec()) == 1 && has_zombie(zombies, kind),
{
    lemma_kinds_ok("zombie"@, zombie_kind_names(), zombie_codes(zombies), 0);
    assert forall|kind: ZombieKind| #[trigger] occurrences(zombie_codes(zombies), kind.code_spec()) == 1 && has_zombie(zombies, kind) by {
        ZombieKind::lemma_code_injective(kind, kind);
        let codes = zombie_codes(zombies);
        lemma_occurs_somewhere(codes, kind.code_spec());
        let i = choose|i: int| 0 <= i < codes.len() && codes[i] as nat == kind.code_spec();
        ZombieKind::lemma_code_injective(zombies[i].kind, kind);
        assert(zombies[i].kind == kind);
    }
}

proof fn lemma_projectile_kinds_ok(projectiles: Seq<ProjectileDefinition>)
    requires
        kinds_error_from("projectile"@, projectile_kind_names(), projectile_codes(projectiles), 0) is None,
    ensures
        projectiles.len() == ProjectileKind::count(),
        forall|kind: ProjectileKind| #[trigger] occurrences(projectile_codes(projectiles), kind.code_spec()) == 1 && has_projectile(projectiles, kind),
{
    lemma_kinds_ok("projectile"@, projectile_kind_names(), projectile_codes(projectiles), 0);
    assert forall|kind: ProjectileKind| #[trigger] occurrences(projectile_codes(projectiles), kind.code_spec()) == 1 && has_projectile(projectiles, kind) by {
        ProjectileKind::lemma_code_injective(kind, kind);
        let codes = projectile_codes(projectiles);
        lemma_occurs_somewhere(codes, kind.code_spec());
        let i = choose|i: int| 0 <= i < codes.len() && codes[i] as nat == kind.code_spec();
        ProjectileKind::lemma_code_injective(projectiles[i].kind, kind);
        assert(projectiles[i].kind == kind);
    }
}

/// A catalog that passes validation defines every plant, zombie and
/// projectile kind exactly once and nothing else, so looking any kind up
/// succeeds.
pub proof fn law_valid_catalog_defines_every_kind_once(c: ContentCatalog, issues: DefinitionIssues)
    requires
        catalog_error(c, issues) is None,
    ensures
        c.plants@.len() == PlantKind::count(),
        c.zombies@.len() == ZombieKind::count(),
        c.projectiles@.len() == ProjectileKind::count(),
        forall|kind: PlantKind| #[trigger] occurrences(plant_codes(c.plants@), kind.code_spec()) == 1 && has_plant(c.plants@, kind),
        forall|kind: ZombieKind| #[trigger] occurrences(zombie_codes(c.zombies@), kind.code_spec()) == 1 && has_zombie(c.zombies@, kind),
        forall|kind: ProjectileKind| #[trigger] occurrences(projectile_codes(c.projectiles@), kind.code_spec()) == 1 && has_projectile(c.projectiles@, kind),
{
    lemma_plant_kinds_ok(c.plants@);
    lemma_zombie_kinds_ok(c.zombies@);
    lemma_projectile_kinds_ok(c.projectiles@);
}


proof fn lemma_no_plant_error_from(c: ContentCatalog, issues: DefinitionIssues, k: int, i: int)
    requires
        0 <= k <= i < c.plants@.len(),
        first_plant_error(c, issues, k) is None,
    ensures
        plant_error(c, issues, i) is None,
    decreases i - k,
{
    if k < i {
        lemma_no_plant_error_from(c, issues, k + 1, i);
    }
}

/// A catalog that passes validation has only sound plant timings: every sun
/// producer makes a positive amount of sun at a positive interval, and every
/// shooter has a positive interval and burst size, a positive gap between
/// the shots of a burst of more than one, a burst that ends before the next
/// cycle, and a projectile that the catalog defines.
pub proof fn law_valid_catalog_has_sound_timings(c: ContentCatalog, issues: DefinitionIssues, i: int)
    requires
        catalog_error(c, issues) is None,
        0 <= i < c.plants@.len(),
    ensures
        c.plants@[i].behavior matches PlantBehavior::SunProducer { interval, value } ==> interval > 0 && value > 0,
        c.plants@[i].behavior matches PlantBehavior::Shooter { interval, projectile, shots_per_burst, burst_interval }
            ==> {
            &&& interval > 0
            &&& shots_per_burst > 0
            &&& shots_per_burst > 1 ==> burst_interval > 0
            &&& burst_interval * (shots_per_burst - 1) < interval
            &&& has_projectile(c.projectiles@, projectile)
        },
{
    lemma_no_plant_error_from(c, issues, 0, i);
    match c.plants@[i].behavior {
        PlantBehavior::Shooter { interval, projectile, shots_per_burst, burst_interval } => {
            let n = (shots_per_burst - 1) as nat;
            if burst_interval * n > u64::MAX {
                assert(saturating_product(burst_interval, n) == u64::MAX);
            }
        },
        _ => {},
    }
}

} // verus!
