//! The names that the values of a state are written with, and the value
//! that a name stands for.

use vstd::prelude::*;
use crate::abilities::Abilities;
use crate::choices::Choices;
use crate::items::Items;
use crate::state::{
    PokemonName, PokemonStatus, PokemonType, PokemonVolatileStatus, Terrain, Weather,
};
use crate::text::{is_name, lowered};

verus! {

/// A kind of value that is written by name: its values stand in a fixed
/// order, and each has a name in lower case.
pub trait Named: Sized + Copy {
    /// The name of the value, in lower case.
    spec fn label(self) -> Seq<char>;

    /// How many values there are.
    spec fn count() -> int;

    /// The value at a place of the order, counted from zero.
    spec fn at(place: int) -> Self;

    /// The place of the value in the order.
    spec fn place(self) -> int;

    /// Every value stands at its place.
    proof fn stands_at_its_place(self)
        ensures
            0 <= self.place() < Self::count(),
            Self::at(self.place()) == self,
    ;

    /// The name of the value, in lower case.
    fn word(&self) -> (r: &'static str)
        ensures
            r@ == self.label(),
    ;

    /// How many values there are.
    fn size() -> (r: usize)
        ensures
            r == Self::count(),
    ;

    /// The value at a place of the order.
    fn nth(place: usize) -> (r: Self)
        requires
            place < Self::count(),
        ensures
            r == Self::at(place as int),
    ;
}

/// The first value from the place `from` on whose name is `name`, if there
/// is one.
pub open spec fn named_from<T: Named>(name: Seq<char>, from: int) -> Option<T>
    decreases T::count() - from,
{
    if from < 0 || from >= T::count() {
        None
    } else if T::at(from).label() == name {
        Some(T::at(from))
    } else {
        named_from::<T>(name, from + 1)
    }
}

/// The value that a text names, whatever the case of its letters: the
/// first in the order whose name is the text in lower case.
pub open spec fn named<T: Named>(text: Seq<char>) -> Option<T> {
    named_from::<T>(lowered(text), 0)
}

/// The value that the field names, whatever the case of its letters.
pub fn read_name<T: Named>(field: &Vec<char>) -> (r: Option<T>)
    ensures
        r == named::<T>(field@),
{
    let size = T::size();
    let mut i: usize = 0;
    while i < size
        invariant
            size == T::count(),
            i <= size,
            named::<T>(field@) == named_from::<T>(lowered(field@), i as int),
        decreases size - i,
    {
        let value = T::nth(i);
        if is_name(field, value.word()) {
            return Some(value);
        }
        i += 1;
    }
    None
}

impl Named for PokemonType {
    open spec fn label(self) -> Seq<char> {
        match self {
            PokemonType::Normal => "normal"@,
            PokemonType::Fire => "fire"@,
            PokemonType::Water => "water"@,
            PokemonType::Electric => "electric"@,
            PokemonType::Grass => "grass"@,
            PokemonType::Ice => "ice"@,
            PokemonType::Fighting => "fighting"@,
            PokemonType::Poison => "poison"@,
            PokemonType::Ground => "ground"@,
            PokemonType::Flying => "flying"@,
            PokemonType::Psychic => "psychic"@,
            PokemonType::Bug => "bug"@,
            PokemonType::Rock => "rock"@,
            PokemonType::GhostType => "ghost"@,
            PokemonType::Dragon => "dragon"@,
            PokemonType::Dark => "dark"@,
            PokemonType::Steel => "steel"@,
            PokemonType::Fairy => "fairy"@,
            PokemonType::Typeless => "typeless"@,
        }
    }

    open spec fn count() -> int {
        19
    }

    open spec fn at(place: int) -> PokemonType {
        if place == 0 {
            PokemonType::Normal
        } else if place == 1 {
            PokemonType::Fire
        } else if place == 2 {
            PokemonType::Water
        } else if place == 3 {
            PokemonType::Electric
        } else if place == 4 {
            PokemonType::Grass
        } else if place == 5 {
            PokemonType::Ice
        } else if place == 6 {
            PokemonType::Fighting
        } else if place == 7 {
            PokemonType::Poison
        } else if place == 8 {
            PokemonType::Ground
        } else if place == 9 {
            PokemonType::Flying
        } else if place == 10 {
            PokemonType::Psychic
        } else if place == 11 {
            PokemonType::Bug
        } else if place == 12 {
            PokemonType::Rock
        } else if place == 13 {
            PokemonType::GhostType
        } else if place == 14 {
            PokemonType::Dragon
        } else if place == 15 {
            PokemonType::Dark
        } else if place == 16 {
            PokemonType::Steel
        } else if place == 17 {
            PokemonType::Fairy
        } else {
            PokemonType::Typeless
        }
    }

    open spec fn place(self) -> int {
        match self {
            PokemonType::Normal => 0,
            PokemonType::Fire => 1,
            PokemonType::Water => 2,
            PokemonType::Electric => 3,
            PokemonType::Grass => 4,
            PokemonType::Ice => 5,
            PokemonType::Fighting => 6,
            PokemonType::Poison => 7,
            PokemonType::Ground => 8,
            PokemonType::Flying => 9,
            PokemonType::Psychic => 10,
            PokemonType::Bug => 11,
            PokemonType::Rock => 12,
            PokemonType::GhostType => 13,
            PokemonType::Dragon => 14,
            PokemonType::Dark => 15,
            PokemonType::Steel => 16,
            PokemonType::Fairy => 17,
            PokemonType::Typeless => 18,
        }
    }

    proof fn stands_at_its_place(self) {
    }

    fn word(&self) -> (r: &'static str) {
        match self {
            PokemonType::Normal => "normal",
            PokemonType::Fire => "fire",
            PokemonType::Water => "water",
            PokemonType::Electric => "electric",
            PokemonType::Grass => "grass",
            PokemonType::Ice => "ice",
            PokemonType::Fighting => "fighting",
            PokemonType::Poison => "poison",
            PokemonType::Ground => "ground",
            PokemonType::Flying => "flying",
            PokemonType::Psychic => "psychic",
            PokemonType::Bug => "bug",
            PokemonType::Rock => "rock",
            PokemonType::GhostType => "ghost",
            PokemonType::Dragon => "dragon",
            PokemonType::Dark => "dark",
            PokemonType::Steel => "steel",
            PokemonType::Fairy => "fairy",
            PokemonType::Typeless => "typeless",
        }
    }

    fn size() -> (r: usize) {
        19
    }

    fn nth(place: usize) -> (r: PokemonType) {
        match place {
            0 => PokemonType::Normal,
            1 => PokemonType::Fire,
            2 => PokemonType::Water,
            3 => PokemonType::Electric,
            4 => PokemonType::Grass,
            5 => PokemonType::Ice,
            6 => PokemonType::Fighting,
            7 => PokemonType::Poison,
            8 => PokemonType::Ground,
            9 => PokemonType::Flying,
            10 => PokemonType::Psychic,
            11 => PokemonType::Bug,
            12 => PokemonType::Rock,
            13 => PokemonType::GhostType,
            14 => PokemonType::Dragon,
            15 => PokemonType::Dark,
            16 => PokemonType::Steel,
            17 => PokemonType::Fairy,
            _ => PokemonType::Typeless,
        }
    }
}

impl Named for PokemonStatus {
    open spec fn label(self) -> Seq<char> {
        match self {
            PokemonStatus::NONE => "none"@,
            PokemonStatus::Burn => "burn"@,
            PokemonStatus::Sleep => "sleep"@,
            PokemonStatus::Freeze => "freeze"@,
            PokemonStatus::Paralyze => "paralyze"@,
            PokemonStatus::Poison => "poison"@,
            PokemonStatus::Toxic => "toxic"@,
        }
    }

    open spec fn count() -> int {
        7
    }

    open spec fn at(place: int) -> PokemonStatus {
        if place == 0 {
            PokemonStatus::NONE
        } else if place == 1 {
            PokemonStatus::Burn
        } else if place == 2 {
            PokemonStatus::Sleep
        } else if place == 3 {
            PokemonStatus::Freeze
        } else if place == 4 {
            PokemonStatus::Paralyze
        } else if place == 5 {
            PokemonStatus::Poison
        } else {
            PokemonStatus::Toxic
        }
    }

    open spec fn place(self) -> int {
        match self {
            PokemonStatus::NONE => 0,
            PokemonStatus::Burn => 1,
            PokemonStatus::Sleep => 2,
            PokemonStatus::Freeze => 3,
            PokemonStatus::Paralyze => 4,
            PokemonStatus::Poison => 5,
            PokemonStatus::Toxic => 6,
        }
    }

    proof fn stands_at_its_place(self) {
    }

    fn word(&self) -> (r: &'static str) {
        match self {
            PokemonStatus::NONE => "none",
            PokemonStatus::Burn => "burn",
            PokemonStatus::Sleep => "sleep",
            PokemonStatus::Freeze => "freeze",
            PokemonStatus::Paralyze => "paralyze",
            PokemonStatus::Poison => "poison",
            PokemonStatus::Toxic => "toxic",
        }
    }

    fn size() -> (r: usize) {
        7
    }

    fn nth(place: usize) -> (r: PokemonStatus) {
        match place {
            0 => PokemonStatus::NONE,
            1 => PokemonStatus::Burn,
            2 => PokemonStatus::Sleep,
            3 => PokemonStatus::Freeze,
            4 => PokemonStatus::Paralyze,
            5 => PokemonStatus::Poison,
            _ => PokemonStatus::Toxic,
        }
    }
}

impl Named for Weather {
    open spec fn label(self) -> Seq<char> {
        match self {
            Weather::NONE => "none"@,
            Weather::Sun => "sun"@,
            Weather::Rain => "rain"@,
            Weather::Sand => "sand"@,
            Weather::Hail => "hail"@,
            Weather::HarshSun => "harshsun"@,
            Weather::HeavyRain => "heavyrain"@,
        }
    }

    open spec fn count() -> int {
        7
    }

    open spec fn at(place: int) -> Weather {
        if place == 0 {
            Weather::NONE
        } else if place == 1 {
            Weather::Sun
        } else if place == 2 {
            Weather::Rain
        } else if place == 3 {
            Weather::Sand
        } else if place == 4 {
            Weather::Hail
        } else if place == 5 {
            Weather::HarshSun
        } else {
            Weather::HeavyRain
        }
    }

    open spec fn place(self) -> int {
        match self {
            Weather::NONE => 0,
            Weather::Sun => 1,
            Weather::Rain => 2,
            Weather::Sand => 3,
            Weather::Hail => 4,
            Weather::HarshSun => 5,
            Weather::HeavyRain => 6,
        }
    }

    proof fn stands_at_its_place(self) {
    }

    fn word(&self) -> (r: &'static str) {
        match self {
            Weather::NONE => "none",
            Weather::Sun => "sun",
            Weather::Rain => "rain",
            Weather::Sand => "sand",
            Weather::Hail => "hail",
            Weather::HarshSun => "harshsun",
            Weather::HeavyRain => "heavyrain",
        }
    }

    fn size() -> (r: usize) {
        7
    }

    fn nth(place: usize) -> (r: Weather) {
        match place {
            0 => Weather::NONE,
            1 => Weather::Sun,
            2 => Weather::Rain,
            3 => Weather::Sand,
            4 => Weather::Hail,
            5 => Weather::HarshSun,
            _ => Weather::HeavyRain,
        }
    }
}

impl Named for Terrain {
    open spec fn label(self) -> Seq<char> {
        match self {
            Terrain::NONE => "none"@,
            Terrain::ElectricTerrain => "electricterrain"@,
            Terrain::PsychicTerrain => "psychicterrain"@,
            Terrain::MistyTerrain => "mistyterrain"@,
            Terrain::GrassyTerrain => "grassyterrain"@,
        }
    }

    open spec fn count() -> int {
        5
    }

    open spec fn at(place: int) -> Terrain {
        if place == 0 {
            Terrain::NONE
        } else if place == 1 {
            Terrain::ElectricTerrain
        } else if place == 2 {
            Terrain::PsychicTerrain
        } else if place == 3 {
            Terrain::MistyTerrain
        } else {
            Terrain::GrassyTerrain
        }
    }

    open spec fn place(self) -> int {
        match self {
            Terrain::NONE => 0,
            Terrain::ElectricTerrain => 1,
            Terrain::PsychicTerrain => 2,
            Terrain::MistyTerrain => 3,
            Terrain::GrassyTerrain => 4,
        }
    }

    proof fn stands_at_its_place(self) {
    }

    fn word(&self) -> (r: &'static str) {
        match self {
            Terrain::NONE => "none",
            Terrain::ElectricTerrain => "electricterrain",
            Terrain::PsychicTerrain => "psychicterrain",
            Terrain::MistyTerrain => "mistyterrain",
            Terrain::GrassyTerrain => "grassyterrain",
        }
    }

    fn size() -> (r: usize) {
        5
    }

    fn nth(place: usize) -> (r: Terrain) {
        match place {
            0 => Terrain::NONE,
            1 => Terrain::ElectricTerrain,
            2 => Terrain::PsychicTerrain,
            3 => Terrain::MistyTerrain,
            _ => Terrain::GrassyTerrain,
        }
    }
}

impl Named for Abilities {
    open spec fn label(self) -> Seq<char> {
        match self {
            Abilities::NONE => "none"@,
            Abilities::ADAPTABILITY => "adaptability"@,
            Abilities::BEASTBOOST => "beastboost"@,
            Abilities::CLEARBODY => "clearbody"@,
            Abilities::COMATOSE => "comatose"@,
            Abilities::COMPOUNDEYES => "compoundeyes"@,
            Abilities::FLASHFIRE => "flashfire"@,
            Abilities::FULLMETALBODY => "fullmetalbody"@,
            Abilities::GUTS => "guts"@,
            Abilities::HUGEPOWER => "hugepower"@,
            Abilities::IMMUNITY => "immunity"@,
            Abilities::INSOMNIA => "insomnia"@,
            Abilities::INTIMIDATE => "intimidate"@,
            Abilities::IRONFIST => "ironfist"@,
            Abilities::LEVITATE => "levitate"@,
            Abilities::LIBERO => "libero"@,
            Abilities::LIMBER => "limber"@,
            Abilities::MAGMAARMOR => "magmaarmor"@,
            Abilities::MARVELSCALE => "marvelscale"@,
            Abilities::MOXIE => "moxie"@,
            Abilities::NOGUARD => "noguard"@,
            Abilities::PASTELVEIL => "pastelveil"@,
            Abilities::PROTEAN => "protean"@,
            Abilities::PUREPOWER => "purepower"@,
            Abilities::PURIFYINGSALT => "purifyingsalt"@,
            Abilities::QUICKFEET => "quickfeet"@,
            Abilities::SHIELDSDOWN => "shieldsdown"@,
            Abilities::SPEEDBOOST => "speedboost"@,
            Abilities::STICKYHOLD => "stickyhold"@,
            Abilities::STURDY => "sturdy"@,
            Abilities::SWEETVEIL => "sweetveil"@,
            Abilities::TECHNICIAN => "technician"@,
            Abilities::THICKFAT => "thickfat"@,
            Abilities::VITALSPIRIT => "vitalspirit"@,
            Abilities::VOLTABSORB => "voltabsorb"@,
            Abilities::WATERABSORB => "waterabsorb"@,
            Abilities::WATERBUBBLE => "waterbubble"@,
            Abilities::WATERVEIL => "waterveil"@,
            Abilities::WHITESMOKE => "whitesmoke"@,
        }
    }

    open spec fn count() -> int {
        39
    }

    open spec fn at(place: int) -> Abilities {
        if place == 0 {
            Abilities::NONE
        } else if place == 1 {
            Abilities::ADAPTABILITY
        } else if place == 2 {
            Abilities::BEASTBOOST
        } else if place == 3 {
            Abilities::CLEARBODY
        } else if place == 4 {
            Abilities::COMATOSE
        } else if place == 5 {
            Abilities::COMPOUNDEYES
        } else if place == 6 {
            Abilities::FLASHFIRE
        } else if place == 7 {
            Abilities::FULLMETALBODY
        } else if place == 8 {
            Abilities::GUTS
        } else if place == 9 {
            Abilities::HUGEPOWER
        } else if place == 10 {
            Abilities::IMMUNITY
        } else if place == 11 {
            Abilities::INSOMNIA
        } else if place == 12 {
            Abilities::INTIMIDATE
        } else if place == 13 {
            Abilities::IRONFIST
        } else if place == 14 {
            Abilities::LEVITATE
        } else if place == 15 {
            Abilities::LIBERO
        } else if place == 16 {
            Abilities::LIMBER
        } else if place == 17 {
            Abilities::MAGMAARMOR
        } else if place == 18 {
            Abilities::MARVELSCALE
        } else if place == 19 {
            Abilities::MOXIE
        } else if place == 20 {
            Abilities::NOGUARD
        } else if place == 21 {
            Abilities::PASTELVEIL
        } else if place == 22 {
            Abilities::PROTEAN
        } else if place == 23 {
            Abilities::PUREPOWER
        } else if place == 24 {
            Abilities::PURIFYINGSALT
        } else if place == 25 {
            Abilities::QUICKFEET
        } else if place == 26 {
            Abilities::SHIELDSDOWN
        } else if place == 27 {
            Abilities::SPEEDBOOST
        } else if place == 28 {
            Abilities::STICKYHOLD
        } else if place == 29 {
            Abilities::STURDY
        } else if place == 30 {
            Abilities::SWEETVEIL
        } else if place == 31 {
            Abilities::TECHNICIAN
        } else if place == 32 {
            Abilities::THICKFAT
        } else if place == 33 {
            Abilities::VITALSPIRIT
        } else if place == 34 {
            Abilities::VOLTABSORB
        } else if place == 35 {
            Abilities::WATERABSORB
        } else if place == 36 {
            Abilities::WATERBUBBLE
        } else if place == 37 {
            Abilities::WATERVEIL
        } else {
            Abilities::WHITESMOKE
        }
    }

    open spec fn place(self) -> int {
        match self {
            Abilities::NONE => 0,
            Abilities::ADAPTABILITY => 1,
            Abilities::BEASTBOOST => 2,
            Abilities::CLEARBODY => 3,
            Abilities::COMATOSE => 4,
            Abilities::COMPOUNDEYES => 5,
            Abilities::FLASHFIRE => 6,
            Abilities::FULLMETALBODY => 7,
            Abilities::GUTS => 8,
            Abilities::HUGEPOWER => 9,
            Abilities::IMMUNITY => 10,
            Abilities::INSOMNIA => 11,
            Abilities::INTIMIDATE => 12,
            Abilities::IRONFIST => 13,
            Abilities::LEVITATE => 14,
            Abilities::LIBERO => 15,
            Abilities::LIMBER => 16,
            Abilities::MAGMAARMOR => 17,
            Abilities::MARVELSCALE => 18,
            Abilities::MOXIE => 19,
            Abilities::NOGUARD => 20,
            Abilities::PASTELVEIL => 21,
            Abilities::PROTEAN => 22,
            Abilities::PUREPOWER => 23,
            Abilities::PURIFYINGSALT => 24,
            Abilities::QUICKFEET => 25,
            Abilities::SHIELDSDOWN => 26,
            Abilities::SPEEDBOOST => 27,
            Abilities::STICKYHOLD => 28,
            Abilities::STURDY => 29,
            Abilities::SWEETVEIL => 30,
            Abilities::TECHNICIAN => 31,
            Abilities::THICKFAT => 32,
            Abilities::VITALSPIRIT => 33,
            Abilities::VOLTABSORB => 34,
            Abilities::WATERABSORB => 35,
            Abilities::WATERBUBBLE => 36,
            Abilities::WATERVEIL => 37,
            Abilities::WHITESMOKE => 38,
        }
    }

    proof fn stands_at_its_place(self) {
    }

    fn word(&self) -> (r: &'static str) {
        match self {
            Abilities::NONE => "none",
            Abilities::ADAPTABILITY => "adaptability",
            Abilities::BEASTBOOST => "beastboost",
            Abilities::CLEARBODY => "clearbody",
            Abilities::COMATOSE => "comatose",
            Abilities::COMPOUNDEYES => "compoundeyes",
            Abilities::FLASHFIRE => "flashfire",
            Abilities::FULLMETALBODY => "fullmetalbody",
            Abilities::GUTS => "guts",
            Abilities::HUGEPOWER => "hugepower",
            Abilities::IMMUNITY => "immunity",
            Abilities::INSOMNIA => "insomnia",
            Abilities::INTIMIDATE => "intimidate",
            Abilities::IRONFIST => "ironfist",
            Abilities::LEVITATE => "levitate",
            Abilities::LIBERO => "libero",
            Abilities::LIMBER => "limber",
            Abilities::MAGMAARMOR => "magmaarmor",
            Abilities::MARVELSCALE => "marvelscale",
            Abilities::MOXIE => "moxie",
            Abilities::NOGUARD => "noguard",
            Abilities::PASTELVEIL => "pastelveil",
            Abilities::PROTEAN => "protean",
            Abilities::PUREPOWER => "purepower",
            Abilities::PURIFYINGSALT => "purifyingsalt",
            Abilities::QUICKFEET => "quickfeet",
            Abilities::SHIELDSDOWN => "shieldsdown",
            Abilities::SPEEDBOOST => "speedboost",
            Abilities::STICKYHOLD => "stickyhold",
            Abilities::STURDY => "sturdy",
            Abilities::SWEETVEIL => "sweetveil",
            Abilities::TECHNICIAN => "technician",
            Abilities::THICKFAT => "thickfat",
            Abilities::VITALSPIRIT => "vitalspirit",
            Abilities::VOLTABSORB => "voltabsorb",
            Abilities::WATERABSORB => "waterabsorb",
            Abilities::WATERBUBBLE => "waterbubble",
            Abilities::WATERVEIL => "waterveil",
            Abilities::WHITESMOKE => "whitesmoke",
        }
    }

    fn size() -> (r: usize) {
        39
    }

    fn nth(place: usize) -> (r: Abilities) {
        match place {
            0 => Abilities::NONE,
            1 => Abilities::ADAPTABILITY,
            2 => Abilities::BEASTBOOST,
            3 => Abilities::CLEARBODY,
            4 => Abilities::COMATOSE,
            5 => Abilities::COMPOUNDEYES,
            6 => Abilities::FLASHFIRE,
            7 => Abilities::FULLMETALBODY,
            8 => Abilities::GUTS,
            9 => Abilities::HUGEPOWER,
            10 => Abilities::IMMUNITY,
            11 => Abilities::INSOMNIA,
            12 => Abilities::INTIMIDATE,
            13 => Abilities::IRONFIST,
            14 => Abilities::LEVITATE,
            15 => Abilities::LIBERO,
            16 => Abilities::LIMBER,
            17 => Abilities::MAGMAARMOR,
            18 => Abilities::MARVELSCALE,
            19 => Abilities::MOXIE,
            20 => Abilities::NOGUARD,
            21 => Abilities::PASTELVEIL,
            22 => Abilities::PROTEAN,
            23 => Abilities::PUREPOWER,
            24 => Abilities::PURIFYINGSALT,
            25 => Abilities::QUICKFEET,
            26 => Abilities::SHIELDSDOWN,
            27 => Abilities::SPEEDBOOST,
            28 => Abilities::STICKYHOLD,
            29 => Abilities::STURDY,
            30 => Abilities::SWEETVEIL,
            31 => Abilities::TECHNICIAN,
            32 => Abilities::THICKFAT,
            33 => Abilities::VITALSPIRIT,
            34 => Abilities::VOLTABSORB,
            35 => Abilities::WATERABSORB,
            36 => Abilities::WATERBUBBLE,
            37 => Abilities::WATERVEIL,
            _ => Abilities::WHITESMOKE,
        }
    }
}

impl Named for Items {
    open spec fn label(self) -> Seq<char> {
        match self {
            Items::NONE => "none"@,
            Items::UNKNOWNITEM => "unknownitem"@,
            Items::ABSORBBULB => "absorbbulb"@,
            Items::ADAMANTORB => "adamantorb"@,
            Items::AIRBALLOON => "airballoon"@,
            Items::ASSAULTVEST => "assaultvest"@,
            Items::BABIRIBERRY => "babiriberry"@,
            Items::BLACKBELT => "blackbelt"@,
            Items::BLACKSLUDGE => "blacksludge"@,
            Items::BLACKGLASSES => "blackglasses"@,
            Items::CELLBATTERY => "cellbattery"@,
            Items::CHARCOAL => "charcoal"@,
            Items::CHARTIBERRY => "chartiberry"@,
            Items::CHILANBERRY => "chilanberry"@,
            Items::CHOICEBAND => "choiceband"@,
            Items::CHOICESPECS => "choicespecs"@,
            Items::CHOICESCARF => "choicescarf"@,
            Items::CHOPLEBERRY => "chopleberry"@,
            Items::COBABERRY => "cobaberry"@,
            Items::COLBURBERRY => "colburberry"@,
            Items::DRAGONFANG => "dragonfang"@,
            Items::DREADPLATE => "dreadplate"@,
            Items::ELECTRICSEED => "electricseed"@,
            Items::EXPERTBELT => "expertbelt"@,
            Items::EVIOLITE => "eviolite"@,
            Items::FAIRYFEATHER => "fairyfeather"@,
            Items::FLAMEORB => "flameorb"@,
            Items::GRASSYSEED => "grassyseed"@,
            Items::HABANBERRY => "habanberry"@,
            Items::KASIBBERRY => "kasibberry"@,
            Items::KEBIABERRY => "kebiaberry"@,
            Items::LEFTOVERS => "leftovers"@,
            Items::LIFEORB => "lifeorb"@,
            Items::LUSTROUSORB => "lustrousorb"@,
            Items::METALCOAT => "metalcoat"@,
            Items::MISTYSEED => "mistyseed"@,
            Items::MUSCLEBAND => "muscleband"@,
            Items::MYSTICWATER => "mysticwater"@,
            Items::NEVERMELTICE => "nevermeltice"@,
            Items::OCCABERRY => "occaberry"@,
            Items::ODDINCENSE => "oddincense"@,
            Items::PASSHOBERRY => "passhoberry"@,
            Items::PAYAPABERRY => "payapaberry"@,
            Items::POISONBARB => "poisonbarb"@,
            Items::POWERHERB => "powerherb"@,
            Items::PSYCHICSEED => "psychicseed"@,
            Items::PUNCHINGGLOVE => "punchingglove"@,
            Items::RINDOBERRY => "rindoberry"@,
            Items::ROSELIBERRY => "roseliberry"@,
            Items::ROCKYHELMET => "rockyhelmet"@,
            Items::SEAINCENSE => "seaincense"@,
            Items::SHARPBEAK => "sharpbeak"@,
            Items::SHELLBELL => "shellbell"@,
            Items::SHUCABERRY => "shucaberry"@,
            Items::SILKSCARF => "silkscarf"@,
            Items::SILVERPOWDER => "silverpowder"@,
            Items::SOFTSAND => "softsand"@,
            Items::SOULDEW => "souldew"@,
            Items::GRISEOUSORB => "griseousorb"@,
            Items::TANGABERRY => "tangaberry"@,
            Items::THROATSPRAY => "throatspray"@,
            Items::THICKCLUB => "thickclub"@,
            Items::TOXICORB => "toxicorb"@,
            Items::TWISTEDSPOON => "twistedspoon"@,
            Items::WACANBERRY => "wacanberry"@,
            Items::WAVEINCENSE => "waveincense"@,
            Items::WEAKNESSPOLICY => "weaknesspolicy"@,
            Items::WISEGLASSES => "wiseglasses"@,
            Items::BLUNDERPOLICY => "blunderpolicy"@,
            Items::HEAVYDUTYBOOTS => "heavydutyboots"@,
            Items::CLEARAMULET => "clearamulet"@,
            Items::PROTECTIVEPADS => "protectivepads"@,
            Items::SHEDSHELL => "shedshell"@,
            Items::YACHEBERRY => "yacheberry"@,
        }
    }

    open spec fn count() -> int {
        74
    }

    open spec fn at(place: int) -> Items {
        if place == 0 {
            Items::NONE
        } else if place == 1 {
            Items::UNKNOWNITEM
        } else if place == 2 {
            Items::ABSORBBULB
        } else if place == 3 {
            Items::ADAMANTORB
        } else if place == 4 {
            Items::AIRBALLOON
        } else if place == 5 {
            Items::ASSAULTVEST
        } else if place == 6 {
            Items::BABIRIBERRY
        } else if place == 7 {
            Items::BLACKBELT
        } else if place == 8 {
            Items::BLACKSLUDGE
        } else if place == 9 {
            Items::BLACKGLASSES
        } else if place == 10 {
            Items::CELLBATTERY
        } else if place == 11 {
            Items::CHARCOAL
        } else if place == 12 {
            Items::CHARTIBERRY
        } else if place == 13 {
            Items::CHILANBERRY
        } else if place == 14 {
            Items::CHOICEBAND
        } else if place == 15 {
            Items::CHOICESPECS
        } else if place == 16 {
            Items::CHOICESCARF
        } else if place == 17 {
            Items::CHOPLEBERRY
        } else if place == 18 {
            Items::COBABERRY
        } else if place == 19 {
            Items::COLBURBERRY
        } else if place == 20 {
            Items::DRAGONFANG
        } else if place == 21 {
            Items::DREADPLATE
        } else if place == 22 {
            Items::ELECTRICSEED
        } else if place == 23 {
            Items::EXPERTBELT
        } else if place == 24 {
            Items::EVIOLITE
        } else if place == 25 {
            Items::FAIRYFEATHER
        } else if place == 26 {
            Items::FLAMEORB
        } else if place == 27 {
            Items::GRASSYSEED
        } else if place == 28 {
            Items::HABANBERRY
        } else if place == 29 {
            Items::KASIBBERRY
        } else if place == 30 {
            Items::KEBIABERRY
        } else if place == 31 {
            Items::LEFTOVERS
        } else if place == 32 {
            Items::LIFEORB
        } else if place == 33 {
            Items::LUSTROUSORB
        } else if place == 34 {
            Items::METALCOAT
        } else if place == 35 {
            Items::MISTYSEED
        } else if place == 36 {
            Items::MUSCLEBAND
        } else if place == 37 {
            Items::MYSTICWATER
        } else if place == 38 {
            Items::NEVERMELTICE
        } else if place == 39 {
            Items::OCCABERRY
        } else if place == 40 {
            Items::ODDINCENSE
        } else if place == 41 {
            Items::PASSHOBERRY
        } else if place == 42 {
            Items::PAYAPABERRY
        } else if place == 43 {
            Items::POISONBARB
        } else if place == 44 {
            Items::POWERHERB
        } else if place == 45 {
            Items::PSYCHICSEED
        } else if place == 46 {
            Items::PUNCHINGGLOVE
        } else if place == 47 {
            Items::RINDOBERRY
        } else if place == 48 {
            Items::ROSELIBERRY
        } else if place == 49 {
            Items::ROCKYHELMET
        } else if place == 50 {
            Items::SEAINCENSE
        } else if place == 51 {
            Items::SHARPBEAK
        } else if place == 52 {
            Items::SHELLBELL
        } else if place == 53 {
            Items::SHUCABERRY
        } else if place == 54 {
            Items::SILKSCARF
        } else if place == 55 {
            Items::SILVERPOWDER
        } else if place == 56 {
            Items::SOFTSAND
        } else if place == 57 {
            Items::SOULDEW
        } else if place == 58 {
            Items::GRISEOUSORB
        } else if place == 59 {
            Items::TANGABERRY
        } else if place == 60 {
            Items::THROATSPRAY
        } else if place == 61 {
            Items::THICKCLUB
        } else if place == 62 {
            Items::TOXICORB
        } else if place == 63 {
            Items::TWISTEDSPOON
        } else if place == 64 {
            Items::WACANBERRY
        } else if place == 65 {
            Items::WAVEINCENSE
        } else if place == 66 {
            Items::WEAKNESSPOLICY
        } else if place == 67 {
            Items::WISEGLASSES
        } else if place == 68 {
            Items::BLUNDERPOLICY
        } else if place == 69 {
            Items::HEAVYDUTYBOOTS
        } else if place == 70 {
            Items::CLEARAMULET
        } else if place == 71 {
            Items::PROTECTIVEPADS
        } else if place == 72 {
            Items::SHEDSHELL
        } else {
            Items::YACHEBERRY
        }
    }

    open spec fn place(self) -> int {
        match self {
            Items::NONE => 0,
            Items::UNKNOWNITEM => 1,
            Items::ABSORBBULB => 2,
            Items::ADAMANTORB => 3,
            Items::AIRBALLOON => 4,
            Items::ASSAULTVEST => 5,
            Items::BABIRIBERRY => 6,
            Items::BLACKBELT => 7,
            Items::BLACKSLUDGE => 8,
            Items::BLACKGLASSES => 9,
            Items::CELLBATTERY => 10,
            Items::CHARCOAL => 11,
            Items::CHARTIBERRY => 12,
            Items::CHILANBERRY => 13,
            Items::CHOICEBAND => 14,
            Items::CHOICESPECS => 15,
            Items::CHOICESCARF => 16,
            Items::CHOPLEBERRY => 17,
            Items::COBABERRY => 18,
            Items::COLBURBERRY => 19,
            Items::DRAGONFANG => 20,
            Items::DREADPLATE => 21,
            Items::ELECTRICSEED => 22,
            Items::EXPERTBELT => 23,
            Items::EVIOLITE => 24,
            Items::FAIRYFEATHER => 25,
            Items::FLAMEORB => 26,
            Items::GRASSYSEED => 27,
            Items::HABANBERRY => 28,
            Items::KASIBBERRY => 29,
            Items::KEBIABERRY => 30,
            Items::LEFTOVERS => 31,
            Items::LIFEORB => 32,
            Items::LUSTROUSORB => 33,
            Items::METALCOAT => 34,
            Items::MISTYSEED => 35,
            Items::MUSCLEBAND => 36,
            Items::MYSTICWATER => 37,
            Items::NEVERMELTICE => 38,
            Items::OCCABERRY => 39,
            Items::ODDINCENSE => 40,
            Items::PASSHOBERRY => 41,
            Items::PAYAPABERRY => 42,
            Items::POISONBARB => 43,
            Items::POWERHERB => 44,
            Items::PSYCHICSEED => 45,
            Items::PUNCHINGGLOVE => 46,
            Items::RINDOBERRY => 47,
            Items::ROSELIBERRY => 48,
            Items::ROCKYHELMET => 49,
            Items::SEAINCENSE => 50,
            Items::SHARPBEAK => 51,
            Items::SHELLBELL => 52,
            Items::SHUCABERRY => 53,
            Items::SILKSCARF => 54,
            Items::SILVERPOWDER => 55,
            Items::SOFTSAND => 56,
            Items::SOULDEW => 57,
            Items::GRISEOUSORB => 58,
            Items::TANGABERRY => 59,
            Items::THROATSPRAY => 60,
            Items::THICKCLUB => 61,
            Items::TOXICORB => 62,
            Items::TWISTEDSPOON => 63,
            Items::WACANBERRY => 64,
            Items::WAVEINCENSE => 65,
            Items::WEAKNESSPOLICY => 66,
            Items::WISEGLASSES => 67,
            Items::BLUNDERPOLICY => 68,
            Items::HEAVYDUTYBOOTS => 69,
            Items::CLEARAMULET => 70,
            Items::PROTECTIVEPADS => 71,
            Items::SHEDSHELL => 72,
            Items::YACHEBERRY => 73,
        }
    }

    proof fn stands_at_its_place(self) {
    }

    fn word(&self) -> (r: &'static str) {
        match self {
            Items::NONE => "none",
            Items::UNKNOWNITEM => "unknownitem",
            Items::ABSORBBULB => "absorbbulb",
            Items::ADAMANTORB => "adamantorb",
            Items::AIRBALLOON => "airballoon",
            Items::ASSAULTVEST => "assaultvest",
            Items::BABIRIBERRY => "babiriberry",
            Items::BLACKBELT => "blackbelt",
            Items::BLACKSLUDGE => "blacksludge",
            Items::BLACKGLASSES => "blackglasses",
            Items::CELLBATTERY => "cellbattery",
            Items::CHARCOAL => "charcoal",
            Items::CHARTIBERRY => "chartiberry",
            Items::CHILANBERRY => "chilanberry",
            Items::CHOICEBAND => "choiceband",
            Items::CHOICESPECS => "choicespecs",
            Items::CHOICESCARF => "choicescarf",
            Items::CHOPLEBERRY => "chopleberry",
            Items::COBABERRY => "cobaberry",
            Items::COLBURBERRY => "colburberry",
            Items::DRAGONFANG => "dragonfang",
            Items::DREADPLATE => "dreadplate",
            Items::ELECTRICSEED => "electricseed",
            Items::EXPERTBELT => "expertbelt",
            Items::EVIOLITE => "eviolite",
            Items::FAIRYFEATHER => "fairyfeather",
            Items::FLAMEORB => "flameorb",
            Items::GRASSYSEED => "grassyseed",
            Items::HABANBERRY => "habanberry",
            Items::KASIBBERRY => "kasibberry",
            Items::KEBIABERRY => "kebiaberry",
            Items::LEFTOVERS => "leftovers",
            Items::LIFEORB => "lifeorb",
            Items::LUSTROUSORB => "lustrousorb",
            Items::METALCOAT => "metalcoat",
            Items::MISTYSEED => "mistyseed",
            Items::MUSCLEBAND => "muscleband",
            Items::MYSTICWATER => "mysticwater",
            Items::NEVERMELTICE => "nevermeltice",
            Items::OCCABERRY => "occaberry",
            Items::ODDINCENSE => "oddincense",
            Items::PASSHOBERRY => "passhoberry",
            Items::PAYAPABERRY => "payapaberry",
            Items::POISONBARB => "poisonbarb",
            Items::POWERHERB => "powerherb",
            Items::PSYCHICSEED => "psychicseed",
            Items::PUNCHINGGLOVE => "punchingglove",
            Items::RINDOBERRY => "rindoberry",
            Items::ROSELIBERRY => "roseliberry",
            Items::ROCKYHELMET => "rockyhelmet",
            Items::SEAINCENSE => "seaincense",
            Items::SHARPBEAK => "sharpbeak",
            Items::SHELLBELL => "shellbell",
            Items::SHUCABERRY => "shucaberry",
            Items::SILKSCARF => "silkscarf",
            Items::SILVERPOWDER => "silverpowder",
            Items::SOFTSAND => "softsand",
            Items::SOULDEW => "souldew",
            Items::GRISEOUSORB => "griseousorb",
            Items::TANGABERRY => "tangaberry",
            Items::THROATSPRAY => "throatspray",
            Items::THICKCLUB => "thickclub",
            Items::TOXICORB => "toxicorb",
            Items::TWISTEDSPOON => "twistedspoon",
            Items::WACANBERRY => "wacanberry",
            Items::WAVEINCENSE => "waveincense",
            Items::WEAKNESSPOLICY => "weaknesspolicy",
            Items::WISEGLASSES => "wiseglasses",
            Items::BLUNDERPOLICY => "blunderpolicy",
            Items::HEAVYDUTYBOOTS => "heavydutyboots",
            Items::CLEARAMULET => "clearamulet",
            Items::PROTECTIVEPADS => "protectivepads",
            Items::SHEDSHELL => "shedshell",
            Items::YACHEBERRY => "yacheberry",
        }
    }

    fn size() -> (r: usize) {
        74
    }

    fn nth(place: usize) -> (r: Items) {
        match place {
            0 => Items::NONE,
            1 => Items::UNKNOWNITEM,
            2 => Items::ABSORBBULB,
            3 => Items::ADAMANTORB,
            4 => Items::AIRBALLOON,
            5 => Items::ASSAULTVEST,
            6 => Items::BABIRIBERRY,
            7 => Items::BLACKBELT,
            8 => Items::BLACKSLUDGE,
            9 => Items::BLACKGLASSES,
            10 => Items::CELLBATTERY,
            11 => Items::CHARCOAL,
            12 => Items::CHARTIBERRY,
            13 => Items::CHILANBERRY,
            14 => Items::CHOICEBAND,
            15 => Items::CHOICESPECS,
            16 => Items::CHOICESCARF,
            17 => Items::CHOPLEBERRY,
            18 => Items::COBABERRY,
            19 => Items::COLBURBERRY,
            20 => Items::DRAGONFANG,
            21 => Items::DREADPLATE,
            22 => Items::ELECTRICSEED,
            23 => Items::EXPERTBELT,
            24 => Items::EVIOLITE,
            25 => Items::FAIRYFEATHER,
            26 => Items::FLAMEORB,
            27 => Items::GRASSYSEED,
            28 => Items::HABANBERRY,
            29 => Items::KASIBBERRY,
            30 => Items::KEBIABERRY,
            31 => Items::LEFTOVERS,
            32 => Items::LIFEORB,
            33 => Items::LUSTROUSORB,
            34 => Items::METALCOAT,
            35 => Items::MISTYSEED,
            36 => Items::MUSCLEBAND,
            37 => Items::MYSTICWATER,
            38 => Items::NEVERMELTICE,
            39 => Items::OCCABERRY,
            40 => Items::ODDINCENSE,
            41 => Items::PASSHOBERRY,
            42 => Items::PAYAPABERRY,
            43 => Items::POISONBARB,
            44 => Items::POWERHERB,
            45 => Items::PSYCHICSEED,
            46 => Items::PUNCHINGGLOVE,
            47 => Items::RINDOBERRY,
            48 => Items::ROSELIBERRY,
            49 => Items::ROCKYHELMET,
            50 => Items::SEAINCENSE,
            51 => Items::SHARPBEAK,
            52 => Items::SHELLBELL,
            53 => Items::SHUCABERRY,
            54 => Items::SILKSCARF,
            55 => Items::SILVERPOWDER,
            56 => Items::SOFTSAND,
            57 => Items::SOULDEW,
            58 => Items::GRISEOUSORB,
            59 => Items::TANGABERRY,
            60 => Items::THROATSPRAY,
            61 => Items::THICKCLUB,
            62 => Items::TOXICORB,
            63 => Items::TWISTEDSPOON,
            64 => Items::WACANBERRY,
            65 => Items::WAVEINCENSE,
            66 => Items::WEAKNESSPOLICY,
            67 => Items::WISEGLASSES,
            68 => Items::BLUNDERPOLICY,
            69 => Items::HEAVYDUTYBOOTS,
            70 => Items::CLEARAMULET,
            71 => Items::PROTECTIVEPADS,
            72 => Items::SHEDSHELL,
            _ => Items::YACHEBERRY,
        }
    }
}

impl Named for Choices {
    open spec fn label(self) -> Seq<char> {
        self.text()
    }

    open spec fn count() -> int {
        52
    }

    open spec fn at(place: int) -> Choices {
        if place == 0 {
            Choices::NONE
        } else if place == 1 {
            Choices::ABSORB
        } else if place == 2 {
            Choices::ACROBATICS
        } else if place == 3 {
            Choices::AQUARING
        } else if place == 4 {
            Choices::ATTRACT
        } else if place == 5 {
            Choices::AURORAVEIL
        } else if place == 6 {
            Choices::BRAVEBIRD
        } else if place == 7 {
            Choices::CEASELESSEDGE
        } else if place == 8 {
            Choices::CHARM
        } else if place == 9 {
            Choices::COURTCHANGE
        } else if place == 10 {
            Choices::CROSSCHOP
        } else if place == 11 {
            Choices::DEFOG
        } else if place == 12 {
            Choices::DRAGONTAIL
        } else if place == 13 {
            Choices::EARTHQUAKE
        } else if place == 14 {
            Choices::EXPLOSION
        } else if place == 15 {
            Choices::FACADE
        } else if place == 16 {
            Choices::GLARE
        } else if place == 17 {
            Choices::HAIL
        } else if place == 18 {
            Choices::HEX
        } else if place == 19 {
            Choices::JUMPKICK
        } else if place == 20 {
            Choices::KINESIS
        } else if place == 21 {
            Choices::KNOCKOFF
        } else if place == 22 {
            Choices::LEECHSEED
        } else if place == 23 {
            Choices::LIGHTSCREEN
        } else if place == 24 {
            Choices::MORTALSPIN
        } else if place == 25 {
            Choices::RAINDANCE
        } else if place == 26 {
            Choices::RAPIDSPIN
        } else if place == 27 {
            Choices::RECOVER
        } else if place == 28 {
            Choices::REFLECT
        } else if place == 29 {
            Choices::REST
        } else if place == 30 {
            Choices::SAFEGUARD
        } else if place == 31 {
            Choices::SANDSTORM
        } else if place == 32 {
            Choices::SHELLSMASH
        } else if place == 33 {
            Choices::SPIKES
        } else if place == 34 {
            Choices::SPORE
        } else if place == 35 {
            Choices::STEALTHROCK
        } else if place == 36 {
            Choices::STICKYWEB
        } else if place == 37 {
            Choices::STONEAXE
        } else if place == 38 {
            Choices::SUBSTITUTE
        } else if place == 39 {
            Choices::SUNNYDAY
        } else if place == 40 {
            Choices::SWORDSDANCE
        } else if place == 41 {
            Choices::TACKLE
        } else if place == 42 {
            Choices::TAILWIND
        } else if place == 43 {
            Choices::TAUNT
        } else if place == 44 {
            Choices::THOUSANDARROWS
        } else if place == 45 {
            Choices::THUNDERBOLT
        } else if place == 46 {
            Choices::THUNDERWAVE
        } else if place == 47 {
            Choices::TOXICSPIKES
        } else if place == 48 {
            Choices::UTURN
        } else if place == 49 {
            Choices::WHIRLWIND
        } else if place == 50 {
            Choices::WISH
        } else {
            Choices::ZAPCANNON
        }
    }

    open spec fn place(self) -> int {
        match self {
            Choices::NONE => 0,
            Choices::ABSORB => 1,
            Choices::ACROBATICS => 2,
            Choices::AQUARING => 3,
            Choices::ATTRACT => 4,
            Choices::AURORAVEIL => 5,
            Choices::BRAVEBIRD => 6,
            Choices::CEASELESSEDGE => 7,
            Choices::CHARM => 8,
            Choices::COURTCHANGE => 9,
            Choices::CROSSCHOP => 10,
            Choices::DEFOG => 11,
            Choices::DRAGONTAIL => 12,
            Choices::EARTHQUAKE => 13,
            Choices::EXPLOSION => 14,
            Choices::FACADE => 15,
            Choices::GLARE => 16,
            Choices::HAIL => 17,
            Choices::HEX => 18,
            Choices::JUMPKICK => 19,
            Choices::KINESIS => 20,
            Choices::KNOCKOFF => 21,
            Choices::LEECHSEED => 22,
            Choices::LIGHTSCREEN => 23,
            Choices::MORTALSPIN => 24,
            Choices::RAINDANCE => 25,
            Choices::RAPIDSPIN => 26,
            Choices::RECOVER => 27,
            Choices::REFLECT => 28,
            Choices::REST => 29,
            Choices::SAFEGUARD => 30,
            Choices::SANDSTORM => 31,
            Choices::SHELLSMASH => 32,
            Choices::SPIKES => 33,
            Choices::SPORE => 34,
            Choices::STEALTHROCK => 35,
            Choices::STICKYWEB => 36,
            Choices::STONEAXE => 37,
            Choices::SUBSTITUTE => 38,
            Choices::SUNNYDAY => 39,
            Choices::SWORDSDANCE => 40,
            Choices::TACKLE => 41,
            Choices::TAILWIND => 42,
            Choices::TAUNT => 43,
            Choices::THOUSANDARROWS => 44,
            Choices::THUNDERBOLT => 45,
            Choices::THUNDERWAVE => 46,
            Choices::TOXICSPIKES => 47,
            Choices::UTURN => 48,
            Choices::WHIRLWIND => 49,
            Choices::WISH => 50,
            Choices::ZAPCANNON => 51,
        }
    }

    proof fn stands_at_its_place(self) {
    }

    fn word(&self) -> (r: &'static str) {
        self.literal()
    }

    fn size() -> (r: usize) {
        52
    }

    fn nth(place: usize) -> (r: Choices) {
        match place {
            0 => Choices::NONE,
            1 => Choices::ABSORB,
            2 => Choices::ACROBATICS,
            3 => Choices::AQUARING,
            4 => Choices::ATTRACT,
            5 => Choices::AURORAVEIL,
            6 => Choices::BRAVEBIRD,
            7 => Choices::CEASELESSEDGE,
            8 => Choices::CHARM,
            9 => Choices::COURTCHANGE,
            10 => Choices::CROSSCHOP,
            11 => Choices::DEFOG,
            12 => Choices::DRAGONTAIL,
            13 => Choices::EARTHQUAKE,
            14 => Choices::EXPLOSION,
            15 => Choices::FACADE,
            16 => Choices::GLARE,
            17 => Choices::HAIL,
            18 => Choices::HEX,
            19 => Choices::JUMPKICK,
            20 => Choices::KINESIS,
            21 => Choices::KNOCKOFF,
            22 => Choices::LEECHSEED,
            23 => Choices::LIGHTSCREEN,
            24 => Choices::MORTALSPIN,
            25 => Choices::RAINDANCE,
            26 => Choices::RAPIDSPIN,
            27 => Choices::RECOVER,
            28 => Choices::REFLECT,
            29 => Choices::REST,
            30 => Choices::SAFEGUARD,
            31 => Choices::SANDSTORM,
            32 => Choices::SHELLSMASH,
            33 => Choices::SPIKES,
            34 => Choices::SPORE,
            35 => Choices::STEALTHROCK,
            36 => Choices::STICKYWEB,
            37 => Choices::STONEAXE,
            38 => Choices::SUBSTITUTE,
            39 => Choices::SUNNYDAY,
            40 => Choices::SWORDSDANCE,
            41 => Choices::TACKLE,
            42 => Choices::TAILWIND,
            43 => Choices::TAUNT,
            44 => Choices::THOUSANDARROWS,
            45 => Choices::THUNDERBOLT,
            46 => Choices::THUNDERWAVE,
            47 => Choices::TOXICSPIKES,
            48 => Choices::UTURN,
            49 => Choices::WHIRLWIND,
            50 => Choices::WISH,
            _ => Choices::ZAPCANNON,
        }
    }
}

impl Named for PokemonName {
    open spec fn label(self) -> Seq<char> {
        self.text()
    }

    open spec fn count() -> int {
        16
    }

    open spec fn at(place: int) -> PokemonName {
        if place == 0 {
            PokemonName::NONE
        } else if place == 1 {
            PokemonName::BULBASAUR
        } else if place == 2 {
            PokemonName::CHARMANDER
        } else if place == 3 {
            PokemonName::CUBONE
        } else if place == 4 {
            PokemonName::DIALGA
        } else if place == 5 {
            PokemonName::GIRATINA
        } else if place == 6 {
            PokemonName::LATIAS
        } else if place == 7 {
            PokemonName::LATIOS
        } else if place == 8 {
            PokemonName::MAROWAK
        } else if place == 9 {
            PokemonName::MAROWAKALOLA
        } else if place == 10 {
            PokemonName::PALKIA
        } else if place == 11 {
            PokemonName::PIDGEY
        } else if place == 12 {
            PokemonName::PIKACHU
        } else if place == 13 {
            PokemonName::RATTATA
        } else if place == 14 {
            PokemonName::SQUIRTLE
        } else {
            PokemonName::WEEDLE
        }
    }

    open spec fn place(self) -> int {
        match self {
            PokemonName::NONE => 0,
            PokemonName::BULBASAUR => 1,
            PokemonName::CHARMANDER => 2,
            PokemonName::CUBONE => 3,
            PokemonName::DIALGA => 4,
            PokemonName::GIRATINA => 5,
            PokemonName::LATIAS => 6,
            PokemonName::LATIOS => 7,
            PokemonName::MAROWAK => 8,
            PokemonName::MAROWAKALOLA => 9,
            PokemonName::PALKIA => 10,
            PokemonName::PIDGEY => 11,
            PokemonName::PIKACHU => 12,
            PokemonName::RATTATA => 13,
            PokemonName::SQUIRTLE => 14,
            PokemonName::WEEDLE => 15,
        }
    }

    proof fn stands_at_its_place(self) {
    }

    fn word(&self) -> (r: &'static str) {
        self.literal()
    }

    fn size() -> (r: usize) {
        16
    }

    fn nth(place: usize) -> (r: PokemonName) {
        match place {
            0 => PokemonName::NONE,
            1 => PokemonName::BULBASAUR,
            2 => PokemonName::CHARMANDER,
            3 => PokemonName::CUBONE,
            4 => PokemonName::DIALGA,
            5 => PokemonName::GIRATINA,
            6 => PokemonName::LATIAS,
            7 => PokemonName::LATIOS,
            8 => PokemonName::MAROWAK,
            9 => PokemonName::MAROWAKALOLA,
            10 => PokemonName::PALKIA,
            11 => PokemonName::PIDGEY,
            12 => PokemonName::PIKACHU,
            13 => PokemonName::RATTATA,
            14 => PokemonName::SQUIRTLE,
            _ => PokemonName::WEEDLE,
        }
    }
}

impl Named for PokemonVolatileStatus {
    open spec fn label(self) -> Seq<char> {
        match self {
            PokemonVolatileStatus::AquaRing => "aquaring"@,
            PokemonVolatileStatus::Attract => "attract"@,
            PokemonVolatileStatus::Confusion => "confusion"@,
            PokemonVolatileStatus::Encore => "encore"@,
            PokemonVolatileStatus::Flinch => "flinch"@,
            PokemonVolatileStatus::LeechSeed => "leechseed"@,
            PokemonVolatileStatus::PartiallyTrapped => "partiallytrapped"@,
            PokemonVolatileStatus::Protect => "protect"@,
            PokemonVolatileStatus::Substitute => "substitute"@,
            PokemonVolatileStatus::Taunt => "taunt"@,
        }
    }

    open spec fn count() -> int {
        10
    }

    open spec fn at(place: int) -> PokemonVolatileStatus {
        if place == 0 {
            PokemonVolatileStatus::AquaRing
        } else if place == 1 {
            PokemonVolatileStatus::Attract
        } else if place == 2 {
            PokemonVolatileStatus::Confusion
        } else if place == 3 {
            PokemonVolatileStatus::Encore
        } else if place == 4 {
            PokemonVolatileStatus::Flinch
        } else if place == 5 {
            PokemonVolatileStatus::LeechSeed
        } else if place == 6 {
            PokemonVolatileStatus::PartiallyTrapped
        } else if place == 7 {
            PokemonVolatileStatus::Protect
        } else if place == 8 {
            PokemonVolatileStatus::Substitute
        } else {
            PokemonVolatileStatus::Taunt
        }
    }

    open spec fn place(self) -> int {
        match self {
            PokemonVolatileStatus::AquaRing => 0,
            PokemonVolatileStatus::Attract => 1,
            PokemonVolatileStatus::Confusion => 2,
            PokemonVolatileStatus::Encore => 3,
            PokemonVolatileStatus::Flinch => 4,
            PokemonVolatileStatus::LeechSeed => 5,
            PokemonVolatileStatus::PartiallyTrapped => 6,
            PokemonVolatileStatus::Protect => 7,
            PokemonVolatileStatus::Substitute => 8,
            PokemonVolatileStatus::Taunt => 9,
        }
    }

    proof fn stands_at_its_place(self) {
    }

    fn word(&self) -> (r: &'static str) {
        match self {
            PokemonVolatileStatus::AquaRing => "aquaring",
            PokemonVolatileStatus::Attract => "attract",
            PokemonVolatileStatus::Confusion => "confusion",
            PokemonVolatileStatus::Encore => "encore",
            PokemonVolatileStatus::Flinch => "flinch",
            PokemonVolatileStatus::LeechSeed => "leechseed",
            PokemonVolatileStatus::PartiallyTrapped => "partiallytrapped",
            PokemonVolatileStatus::Protect => "protect",
            PokemonVolatileStatus::Substitute => "substitute",
            PokemonVolatileStatus::Taunt => "taunt",
        }
    }

    fn size() -> (r: usize) {
        10
    }

    fn nth(place: usize) -> (r: PokemonVolatileStatus) {
        match place {
            0 => PokemonVolatileStatus::AquaRing,
            1 => PokemonVolatileStatus::Attract,
            2 => PokemonVolatileStatus::Confusion,
            3 => PokemonVolatileStatus::Encore,
            4 => PokemonVolatileStatus::Flinch,
            5 => PokemonVolatileStatus::LeechSeed,
            6 => PokemonVolatileStatus::PartiallyTrapped,
            7 => PokemonVolatileStatus::Protect,
            8 => PokemonVolatileStatus::Substitute,
            _ => PokemonVolatileStatus::Taunt,
        }
    }
}

} // verus!
