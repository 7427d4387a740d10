//! The kinds of plants, zombies and projectiles, with their stable order
//! (the order of each kind's `all()`), their codes and their names.

use vstd::prelude::*;

verus! {

/// A kind of plant.
#[derive(Clone, Copy, Debug, PartialEq, Eq, Hash, Structural)]
pub enum PlantKind {
    Sunflower,
    TwinSunflower,
    Peashooter,
    SnowPea,
    Repeater,
    GatlingPea,
    WallNut,
    Torchwood,
}

impl PlantKind {
    /// How many kinds there are.
    pub open spec fn count() -> nat {
        8
    }

    /// The position of this kind in `all()`.
    pub open spec fn code_spec(self) -> nat {
        match self {
            PlantKind::Sunflower => 0,
            PlantKind::TwinSunflower => 1,
            PlantKind::Peashooter => 2,
            PlantKind::SnowPea => 3,
            PlantKind::Repeater => 4,
            PlantKind::GatlingPea => 5,
            PlantKind::WallNut => 6,
            PlantKind::Torchwood => 7,
        }
    }

    /// The kind at position `c` of `all()`.
    pub open spec fn from_code_spec(c: nat) -> PlantKind {
        if c == 0 {
            PlantKind::Sunflower
        } else if c == 1 {
            PlantKind::TwinSunflower
        } else if c == 2 {
            PlantKind::Peashooter
        } else if c == 3 {
            PlantKind::SnowPea
        } else if c == 4 {
            PlantKind::Repeater
        } else if c == 5 {
            PlantKind::GatlingPea
        } else if c == 6 {
            PlantKind::WallNut
        } else {
            PlantKind::Torchwood
        }
    }

    /// The variant's name, as `{:?}` writes it.
    pub open spec fn name_spec(self) -> Seq<char> {
        match self {
            PlantKind::Sunflower => "Sunflower"@,
            PlantKind::TwinSunflower => "TwinSunflower"@,
            PlantKind::Peashooter => "Peashooter"@,
            PlantKind::SnowPea => "SnowPea"@,
            PlantKind::Repeater => "Repeater"@,
            PlantKind::GatlingPea => "GatlingPea"@,
            PlantKind::WallNut => "WallNut"@,
            PlantKind::Torchwood => "Torchwood"@,
        }
    }

    /// The position of this kind in `all()`.
    pub fn code(self) -> (r: u8)
        ensures
            r as nat == self.code_spec(),
    {
        match self {
            PlantKind::Sunflower => 0,
            PlantKind::TwinSunflower => 1,
            PlantKind::Peashooter => 2,
            PlantKind::SnowPea => 3,
            PlantKind::Repeater => 4,
            PlantKind::GatlingPea => 5,
            PlantKind::WallNut => 6,
            PlantKind::Torchwood => 7,
        }
    }

    /// The kind at position `c` of `all()`.
    pub fn from_code(c: u8) -> (r: PlantKind)
        requires
            (c as nat) < Self::count(),
        ensures
            r == Self::from_code_spec(c as nat),
            r.code_spec() == c as nat,
    {
        match c {
            0 => PlantKind::Sunflower,
            1 => PlantKind::TwinSunflower,
            2 => PlantKind::Peashooter,
            3 => PlantKind::SnowPea,
            4 => PlantKind::Repeater,
            5 => PlantKind::GatlingPea,
            6 => PlantKind::WallNut,
            _ => PlantKind::Torchwood,
        }
    }

    /// The variant's name, as `{:?}` writes it.
    pub fn name(self) -> (r: &'static str)
        ensures
            r@ == self.name_spec(),
    {
        match self {
            PlantKind::Sunflower => "Sunflower",
            PlantKind::TwinSunflower => "TwinSunflower",
            PlantKind::Peashooter => "Peashooter",
            PlantKind::SnowPea => "SnowPea",
            PlantKind::Repeater => "Repeater",
            PlantKind::GatlingPea => "GatlingPea",
            PlantKind::WallNut => "WallNut",
            PlantKind::Torchwood => "Torchwood",
        }
    }

    /// Every kind once, in declaration order.
    pub fn all() -> (r: Vec<PlantKind>)
        ensures
            r@.len() == Self::count(),
            forall|i: int| 0 <= i < r@.len() ==> (#[trigger] r@[i]).code_spec() == i,
    {
        let mut r: Vec<PlantKind> = Vec::new();
        let mut c: u8 = 0;
        while c < 8
            invariant
                c <= 8,
                r@.len() == c,
                forall|i: int| 0 <= i < r@.len() ==> (#[trigger] r@[i]).code_spec() == i,
            decreases 8 - c,
        {
            r.push(Self::from_code(c));
            c = c + 1;
        }
        r
    }

    /// Codes tell kinds apart.
    pub proof fn lemma_code_injective(a: PlantKind, b: PlantKind)
        ensures
            a.code_spec() == b.code_spec() ==> a == b,
            a.code_spec() < Self::count(),
            Self::from_code_spec(a.code_spec()) == a,
    {
    }
}

/// A kind of zombie.
#[derive(Clone, Copy, Debug, PartialEq, Eq, Hash, Structural)]
pub enum ZombieKind {
    Basic,
    Flag,
    Conehead,
    PoleVaulting,
    Buckethead,
    Newspaper,
    ScreenDoor,
    Football,
    Dancing,
    BackupDancer,
    Snorkel,
    Zomboni,
    BobsledTeam,
    DolphinRider,
    JackInTheBox,
    Balloon,
    Digger,
    Pogo,
    Yeti,
    Bungee,
    Ladder,
    Catapult,
    Gargantuar,
    GigaGargantuar,
    Imp,
    IZombieImp,
    PeashooterZombie,
    WallNutZombie,
    JalapenoZombie,
    GatlingPeaZombie,
    SquashZombie,
    TallNutZombie,
}

impl ZombieKind {
    /// How many kinds there are.
    pub open spec fn count() -> nat {
        32
    }

    /// The position of this kind in `all()`.
    pub open spec fn code_spec(self) -> nat {
        match self {
            ZombieKind::Basic => 0,
            ZombieKind::Flag => 1,
            ZombieKind::Conehead => 2,
            ZombieKind::PoleVaulting => 3,
            ZombieKind::Buckethead => 4,
            ZombieKind::Newspaper => 5,
            ZombieKind::ScreenDoor => 6,
            ZombieKind::Football => 7,
            ZombieKind::Dancing => 8,
            ZombieKind::BackupDancer => 9,
            ZombieKind::Snorkel => 10,
            ZombieKind::Zomboni => 11,
            ZombieKind::BobsledTeam => 12,
            ZombieKind::DolphinRider => 13,
            ZombieKind::JackInTheBox => 14,
            ZombieKind::Balloon => 15,
            ZombieKind::Digger => 16,
            ZombieKind::Pogo => 17,
            ZombieKind::Yeti => 18,
            ZombieKind::Bungee => 19,
            ZombieKind::Ladder => 20,
            ZombieKind::Catapult => 21,
            ZombieKind::Gargantuar => 22,
            ZombieKind::GigaGargantuar => 23,
            ZombieKind::Imp => 24,
            ZombieKind::IZombieImp => 25,
            ZombieKind::PeashooterZombie => 26,
            ZombieKind::WallNutZombie => 27,
            ZombieKind::JalapenoZombie => 28,
            ZombieKind::GatlingPeaZombie => 29,
            ZombieKind::SquashZombie => 30,
            ZombieKind::TallNutZombie => 31,
        }
    }

    /// The kind at position `c` of `all()`.
    pub open spec fn from_code_spec(c: nat) -> ZombieKind {
        if c == 0 {
            ZombieKind::Basic
        } else if c == 1 {
            ZombieKind::Flag
        } else if c == 2 {
            ZombieKind::Conehead
        } else if c == 3 {
            ZombieKind::PoleVaulting
        } else if c == 4 {
            ZombieKind::Buckethead
        } else if c == 5 {
            ZombieKind::Newspaper
        } else if c == 6 {
            ZombieKind::ScreenDoor
        } else if c == 7 {
            ZombieKind::Football
        } else if c == 8 {
            ZombieKind::Dancing
        } else if c == 9 {
            ZombieKind::BackupDancer
        } else if c == 10 {
            ZombieKind::Snorkel
        } else if c == 11 {
            ZombieKind::Zomboni
        } else if c == 12 {
            ZombieKind::BobsledTeam
        } else if c == 13 {
            ZombieKind::DolphinRider
        } else if c == 14 {
            ZombieKind::JackInTheBox
        } else if c == 15 {
            ZombieKind::Balloon
        } else if c == 16 {
            ZombieKind::Digger
        } else if c == 17 {
            ZombieKind::Pogo
        } else if c == 18 {
            ZombieKind::Yeti
        } else if c == 19 {
            ZombieKind::Bungee
        } else if c == 20 {
            ZombieKind::Ladder
        } else if c == 21 {
            ZombieKind::Catapult
        } else if c == 22 {
            ZombieKind::Gargantuar
        } else if c == 23 {
            ZombieKind::GigaGargantuar
        } else if c == 24 {
            ZombieKind::Imp
        } else if c == 25 {
            ZombieKind::IZombieImp
        } else if c == 26 {
            ZombieKind::PeashooterZombie
        } else if c == 27 {
            ZombieKind::WallNutZombie
        } else if c == 28 {
            ZombieKind::JalapenoZombie
        } else if c == 29 {
            ZombieKind::GatlingPeaZombie
        } else if c == 30 {
            ZombieKind::SquashZombie
        } else {
            ZombieKind::TallNutZombie
        }
    }

    /// The variant's name, as `{:?}` writes it.
    pub open spec fn name_spec(self) -> Seq<char> {
        match self {
            ZombieKind::Basic => "Basic"@,
            ZombieKind::Flag => "Flag"@,
            ZombieKind::Conehead => "Conehead"@,
            ZombieKind::PoleVaulting => "PoleVaulting"@,
            ZombieKind::Buckethead => "Buckethead"@,
            ZombieKind::Newspaper => "Newspaper"@,
            ZombieKind::ScreenDoor => "ScreenDoor"@,
            ZombieKind::Football => "Football"@,
            ZombieKind::Dancing => "Dancing"@,
            ZombieKind::BackupDancer => "BackupDancer"@,
            ZombieKind::Snorkel => "Snorkel"@,
            ZombieKind::Zomboni => "Zomboni"@,
            ZombieKind::BobsledTeam => "BobsledTeam"@,
            ZombieKind::DolphinRider => "DolphinRider"@,
            ZombieKind::JackInTheBox => "JackInTheBox"@,
            ZombieKind::Balloon => "Balloon"@,
            ZombieKind::Digger => "Digger"@,
            ZombieKind::Pogo => "Pogo"@,
            ZombieKind::Yeti => "Yeti"@,
            ZombieKind::Bungee => "Bungee"@,
            ZombieKind::Ladder => "Ladder"@,
            ZombieKind::Catapult => "Catapult"@,
            ZombieKind::Gargantuar => "Gargantuar"@,
            ZombieKind::GigaGargantuar => "GigaGargantuar"@,
            ZombieKind::Imp => "Imp"@,
            ZombieKind::IZombieImp => "IZombieImp"@,
            ZombieKind::PeashooterZombie => "PeashooterZombie"@,
            ZombieKind::WallNutZombie => "WallNutZombie"@,
            ZombieKind::JalapenoZombie => "JalapenoZombie"@,
            ZombieKind::GatlingPeaZombie => "GatlingPeaZombie"@,
            ZombieKind::SquashZombie => "SquashZombie"@,
            ZombieKind::TallNutZombie => "TallNutZombie"@,
        }
    }

    /// The position of this kind in `all()`.
    pub fn code(self) -> (r: u8)
        ensures
            r as nat == self.code_spec(),
    {
        match self {
            ZombieKind::Basic => 0,
            ZombieKind::Flag => 1,
            ZombieKind::Conehead => 2,
            ZombieKind::PoleVaulting => 3,
            ZombieKind::Buckethead => 4,
            ZombieKind::Newspaper => 5,
            ZombieKind::ScreenDoor => 6,
            ZombieKind::Football => 7,
            ZombieKind::Dancing => 8,
            ZombieKind::BackupDancer => 9,
            ZombieKind::Snorkel => 10,
            ZombieKind::Zomboni => 11,
            ZombieKind::BobsledTeam => 12,
            ZombieKind::DolphinRider => 13,
            ZombieKind::JackInTheBox => 14,
            ZombieKind::Balloon => 15,
            ZombieKind::Digger => 16,
            ZombieKind::Pogo => 17,
            ZombieKind::Yeti => 18,
            ZombieKind::Bungee => 19,
            ZombieKind::Ladder => 20,
            ZombieKind::Catapult => 21,
            ZombieKind::Gargantuar => 22,
            ZombieKind::GigaGargantuar => 23,
            ZombieKind::Imp => 24,
            ZombieKind::IZombieImp => 25,
            ZombieKind::PeashooterZombie => 26,
            ZombieKind::WallNutZombie => 27,
            ZombieKind::JalapenoZombie => 28,
            ZombieKind::GatlingPeaZombie => 29,
            ZombieKind::SquashZombie => 30,
            ZombieKind::TallNutZombie => 31,
        }
    }

    /// The kind at position `c` of `all()`.
    pub fn from_code(c: u8) -> (r: ZombieKind)
        requires
            (c as nat) < Self::count(),
        ensures
            r == Self::from_code_spec(c as nat),
            r.code_spec() == c as nat,
    {
        match c {
            0 => ZombieKind::Basic,
            1 => ZombieKind::Flag,
            2 => ZombieKind::Conehead,
            3 => ZombieKind::PoleVaulting,
            4 => ZombieKind::Buckethead,
            5 => ZombieKind::Newspaper,
            6 => ZombieKind::ScreenDoor,
            7 => ZombieKind::Football,
            8 => ZombieKind::Dancing,
            9 => ZombieKind::BackupDancer,
            10 => ZombieKind::Snorkel,
            11 => ZombieKind::Zomboni,
            12 => ZombieKind::BobsledTeam,
            13 => ZombieKind::DolphinRider,
            14 => ZombieKind::JackInTheBox,
            15 => ZombieKind::Balloon,
            16 => ZombieKind::Digger,
            17 => ZombieKind::Pogo,
            18 => ZombieKind::Yeti,
            19 => ZombieKind::Bungee,
            20 => ZombieKind::Ladder,
            21 => ZombieKind::Catapult,
            22 => ZombieKind::Gargantuar,
            23 => ZombieKind::GigaGargantuar,
            24 => ZombieKind::Imp,
            25 => ZombieKind::IZombieImp,
            26 => ZombieKind::PeashooterZombie,
            27 => ZombieKind::WallNutZombie,
            28 => ZombieKind::JalapenoZombie,
            29 => ZombieKind::GatlingPeaZombie,
            30 => ZombieKind::SquashZombie,
            _ => ZombieKind::TallNutZombie,
        }
    }

    /// The variant's name, as `{:?}` writes it.
    pub fn name(self) -> (r: &'static str)
        ensures
            r@ == self.name_spec(),
    {
        match self {
            ZombieKind::Basic => "Basic",
            ZombieKind::Flag => "Flag",
            ZombieKind::Conehead => "Conehead",
            ZombieKind::PoleVaulting => "PoleVaulting",
            ZombieKind::Buckethead => "Buckethead",
            ZombieKind::Newspaper => "Newspaper",
            ZombieKind::ScreenDoor => "ScreenDoor",
            ZombieKind::Football => "Football",
            ZombieKind::Dancing => "Dancing",
            ZombieKind::BackupDancer => "BackupDancer",
            ZombieKind::Snorkel => "Snorkel",
            ZombieKind::Zomboni => "Zomboni",
            ZombieKind::BobsledTeam => "BobsledTeam",
            ZombieKind::DolphinRider => "DolphinRider",
            ZombieKind::JackInTheBox => "JackInTheBox",
            ZombieKind::Balloon => "Balloon",
            ZombieKind::Digger => "Digger",
            ZombieKind::Pogo => "Pogo",
            ZombieKind::Yeti => "Yeti",
            ZombieKind::Bungee => "Bungee",
            ZombieKind::Ladder => "Ladder",
            ZombieKind::Catapult => "Catapult",
            ZombieKind::Gargantuar => "Gargantuar",
            ZombieKind::GigaGargantuar => "GigaGargantuar",
            ZombieKind::Imp => "Imp",
            ZombieKind::IZombieImp => "IZombieImp",
            ZombieKind::PeashooterZombie => "PeashooterZombie",
            ZombieKind::WallNutZombie => "WallNutZombie",
            ZombieKind::JalapenoZombie => "JalapenoZombie",
            ZombieKind::GatlingPeaZombie => "GatlingPeaZombie",
            ZombieKind::SquashZombie => "SquashZombie",
            ZombieKind::TallNutZombie => "TallNutZombie",
        }
    }

    /// Every kind once, in declaration order.
    pub fn all() -> (r: Vec<ZombieKind>)
        ensures
            r@.len() == Self::count(),
            forall|i: int| 0 <= i < r@.len() ==> (#[trigger] r@[i]).code_spec() == i,
    {
        let mut r: Vec<ZombieKind> = Vec::new();
        let mut c: u8 = 0;
        while c < 32
            invariant
                c <= 32,
                r@.len() == c,
                forall|i: int| 0 <= i < r@.len() ==> (#[trigger] r@[i]).code_spec() == i,
            decreases 32 - c,
        {
            r.push(Self::from_code(c));
            c = c + 1;
        }
        r
    }

    /// Codes tell kinds apart.
    pub proof fn lemma_code_injective(a: ZombieKind, b: ZombieKind)
        ensures
            a.code_spec() == b.code_spec() ==> a == b,
            a.code_spec() < Self::count(),
            Self::from_code_spec(a.code_spec()) == a,
    {
    }
}

/// A kind of projectile.
#[derive(Clone, Copy, Debug, PartialEq, Eq, Hash, Structural)]
pub enum ProjectileKind {
    Pea,
    IcePea,
    FirePea,
    PhysicsPea,
}

impl ProjectileKind {
    /// How many kinds there are.
    pub open spec fn count() -> nat {
        4
    }

    /// The position of this kind in `all()`.
    pub open spec fn code_spec(self) -> nat {
        match self {
            ProjectileKind::Pea => 0,
            ProjectileKind::IcePea => 1,
            ProjectileKind::FirePea => 2,
            ProjectileKind::PhysicsPea => 3,
        }
    }

    /// The kind at position `c` of `all()`.
    pub open spec fn from_code_spec(c: nat) -> ProjectileKind {
        if c == 0 {
            ProjectileKind::Pea
        } else if c == 1 {
            ProjectileKind::IcePea
        } else if c == 2 {
            ProjectileKind::FirePea
        } else {
            ProjectileKind::PhysicsPea
        }
    }

    /// The variant's name, as `{:?}` writes it.
    pub open spec fn name_spec(self) -> Seq<char> {
        match self {
            ProjectileKind::Pea => "Pea"@,
            ProjectileKind::IcePea => "IcePea"@,
            ProjectileKind::FirePea => "FirePea"@,
            ProjectileKind::PhysicsPea => "PhysicsPea"@,
        }
    }

    /// The position of this kind in `all()`.
    pub fn code(self) -> (r: u8)
        ensures
            r as nat == self.code_spec(),
    {
        match self {
            ProjectileKind::Pea => 0,
            ProjectileKind::IcePea => 1,
            ProjectileKind::FirePea => 2,
            ProjectileKind::PhysicsPea => 3,
        }
    }

    /// The kind at position `c` of `all()`.
    pub fn from_code(c: u8) -> (r: ProjectileKind)
        requires
            (c as nat) < Self::count(),
        ensures
            r == Self::from_code_spec(c as nat),
            r.code_spec() == c as nat,
    {
        match c {
            0 => ProjectileKind::Pea,
            1 => ProjectileKind::IcePea,
            2 => ProjectileKind::FirePea,
            _ => ProjectileKind::PhysicsPea,
        }
    }

    /// The variant's name, as `{:?}` writes it.
    pub fn name(self) -> (r: &'static str)
        ensures
            r@ == self.name_spec(),
    {
        match self {
            ProjectileKind::Pea => "Pea",
            ProjectileKind::IcePea => "IcePea",
            ProjectileKind::FirePea => "FirePea",
            ProjectileKind::PhysicsPea => "PhysicsPea",
        }
    }

    /// Every kind once, in declaration order.
    pub fn all() -> (r: Vec<ProjectileKind>)
        ensures
            r@.len() == Self::count(),
            forall|i: int| 0 <= i < r@.len() ==> (#[trigger] r@[i]).code_spec() == i,
    {
        let mut r: Vec<ProjectileKind> = Vec::new();
        let mut c: u8 = 0;
        while c < 4
            invariant
                c <= 4,
                r@.len() == c,
                forall|i: int| 0 <= i < r@.len() ==> (#[trigger] r@[i]).code_spec() == i,
            decreases 4 - c,
        {
            r.push(Self::from_code(c));
            c = c + 1;
        }
        r
    }

    /// Codes tell kinds apart.
    pub proof fn lemma_code_injective(a: ProjectileKind, b: ProjectileKind)
        ensures
            a.code_spec() == b.code_spec() ==> a == b,
            a.code_spec() < Self::count(),
            Self::from_code_spec(a.code_spec()) == a,
    {
    }
}

} // verus!
