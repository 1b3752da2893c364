//! The names of moves and species, and what a choice is called.

use vstd::prelude::*;
use crate::choices::Choices;
use crate::state::{MoveChoice, PokemonIndex, PokemonMoveIndex, PokemonName, Side};

verus! {

/// What the characters of a text are in lower case: the result of
/// `str::to_lowercase`.
pub uninterp spec fn lowercase(text: Seq<char>) -> Seq<char>;

/// `str::to_lowercase`: the text in lower case.
#[verifier::external_body]
fn to_lowercase(text: &str) -> (r: String)
    ensures
        r@ == lowercase(text@),
{
    text.to_lowercase()
}

/// `String::push_str`: the text with `more` after it.
#[verifier::external_body]
pub(crate) fn push_str(text: &mut String, more: &str)
    ensures
        final(text)@ == old(text)@ + more@,
{
    text.push_str(more)
}

impl Choices {
    /// The name of the move, in lower case.
    pub open spec fn text(self) -> Seq<char> {
        match self {
            Choices::NONE => "none"@,
            Choices::ABSORB => "absorb"@,
            Choices::ACROBATICS => "acrobatics"@,
            Choices::AQUARING => "aquaring"@,
            Choices::ATTRACT => "attract"@,
            Choices::AURORAVEIL => "auroraveil"@,
            Choices::BRAVEBIRD => "bravebird"@,
            Choices::CEASELESSEDGE => "ceaselessedge"@,
            Choices::CHARM => "charm"@,
            Choices::COURTCHANGE => "courtchange"@,
            Choices::CROSSCHOP => "crosschop"@,
            Choices::DEFOG => "defog"@,
            Choices::DRAGONTAIL => "dragontail"@,
            Choices::EARTHQUAKE => "earthquake"@,
            Choices::EXPLOSION => "explosion"@,
            Choices::FACADE => "facade"@,
            Choices::GLARE => "glare"@,
            Choices::HAIL => "hail"@,
            Choices::HEX => "hex"@,
            Choices::JUMPKICK => "jumpkick"@,
            Choices::KINESIS => "kinesis"@,
            Choices::KNOCKOFF => "knockoff"@,
            Choices::LEECHSEED => "leechseed"@,
            Choices::LIGHTSCREEN => "lightscreen"@,
            Choices::MORTALSPIN => "mortalspin"@,
            Choices::RAINDANCE => "raindance"@,
            Choices::RAPIDSPIN => "rapidspin"@,
            Choices::RECOVER => "recover"@,
            Choices::REFLECT => "reflect"@,
            Choices::REST => "rest"@,
            Choices::SAFEGUARD => "safeguard"@,
            Choices::SANDSTORM => "sandstorm"@,
            Choices::SHELLSMASH => "shellsmash"@,
            Choices::SPIKES => "spikes"@,
            Choices::SPORE => "spore"@,
            Choices::STEALTHROCK => "stealthrock"@,
            Choices::STICKYWEB => "stickyweb"@,
            Choices::STONEAXE => "stoneaxe"@,
            Choices::SUBSTITUTE => "substitute"@,
            Choices::SUNNYDAY => "sunnyday"@,
            Choices::SWORDSDANCE => "swordsdance"@,
            Choices::TACKLE => "tackle"@,
            Choices::TAILWIND => "tailwind"@,
            Choices::TAUNT => "taunt"@,
            Choices::THOUSANDARROWS => "thousandarrows"@,
            Choices::THUNDERBOLT => "thunderbolt"@,
            Choices::THUNDERWAVE => "thunderwave"@,
            Choices::TOXICSPIKES => "toxicspikes"@,
            Choices::UTURN => "uturn"@,
            Choices::WHIRLWIND => "whirlwind"@,
            Choices::WISH => "wish"@,
            Choices::ZAPCANNON => "zapcannon"@,
        }
    }

    pub fn literal(&self) -> (r: &'static str)
        ensures
            r@ == self.text(),
    {
        match self {
            Choices::NONE => "none",
            Choices::ABSORB => "absorb",
            Choices::ACROBATICS => "acrobatics",
            Choices::AQUARING => "aquaring",
            Choices::ATTRACT => "attract",
            Choices::AURORAVEIL => "auroraveil",
            Choices::BRAVEBIRD => "bravebird",
            Choices::CEASELESSEDGE => "ceaselessedge",
            Choices::CHARM => "charm",
            Choices::COURTCHANGE => "courtchange",
            Choices::CROSSCHOP => "crosschop",
            Choices::DEFOG => "defog",
            Choices::DRAGONTAIL => "dragontail",
            Choices::EARTHQUAKE => "earthquake",
            Choices::EXPLOSION => "explosion",
            Choices::FACADE => "facade",
            Choices::GLARE => "glare",
            Choices::HAIL => "hail",
            Choices::HEX => "hex",
            Choices::JUMPKICK => "jumpkick",
            Choices::KINESIS => "kinesis",
            Choices::KNOCKOFF => "knockoff",
            Choices::LEECHSEED => "leechseed",
            Choices::LIGHTSCREEN => "lightscreen",
            Choices::MORTALSPIN => "mortalspin",
            Choices::RAINDANCE => "raindance",
            Choices::RAPIDSPIN => "rapidspin",
            Choices::RECOVER => "recover",
            Choices::REFLECT => "reflect",
            Choices::REST => "rest",
            Choices::SAFEGUARD => "safeguard",
            Choices::SANDSTORM => "sandstorm",
            Choices::SHELLSMASH => "shellsmash",
            Choices::SPIKES => "spikes",
            Choices::SPORE => "spore",
            Choices::STEALTHROCK => "stealthrock",
            Choices::STICKYWEB => "stickyweb",
            Choices::STONEAXE => "stoneaxe",
            Choices::SUBSTITUTE => "substitute",
            Choices::SUNNYDAY => "sunnyday",
            Choices::SWORDSDANCE => "swordsdance",
            Choices::TACKLE => "tackle",
            Choices::TAILWIND => "tailwind",
            Choices::TAUNT => "taunt",
            Choices::THOUSANDARROWS => "thousandarrows",
            Choices::THUNDERBOLT => "thunderbolt",
            Choices::THUNDERWAVE => "thunderwave",
            Choices::TOXICSPIKES => "toxicspikes",
            Choices::UTURN => "uturn",
            Choices::WHIRLWIND => "whirlwind",
            Choices::WISH => "wish",
            Choices::ZAPCANNON => "zapcannon",
        }
    }

    /// The name of the move, in lower case.
    pub fn name(&self) -> (r: String)
        ensures
            r@ == self.text(),
    {
        self.literal().to_owned()
    }
}

impl PokemonName {
    /// The name of the species, in lower case.
    pub open spec fn text(self) -> Seq<char> {
        match self {
            PokemonName::NONE => "none"@,
            PokemonName::BULBASAUR => "bulbasaur"@,
            PokemonName::CHARMANDER => "charmander"@,
            PokemonName::CUBONE => "cubone"@,
            PokemonName::DIALGA => "dialga"@,
            PokemonName::GIRATINA => "giratina"@,
            PokemonName::LATIAS => "latias"@,
            PokemonName::LATIOS => "latios"@,
            PokemonName::MAROWAK => "marowak"@,
            PokemonName::MAROWAKALOLA => "marowakalola"@,
            PokemonName::PALKIA => "palkia"@,
            PokemonName::PIDGEY => "pidgey"@,
            PokemonName::PIKACHU => "pikachu"@,
            PokemonName::RATTATA => "rattata"@,
            PokemonName::SQUIRTLE => "squirtle"@,
            PokemonName::WEEDLE => "weedle"@,
        }
    }

    pub fn literal(&self) -> (r: &'static str)
        ensures
            r@ == self.text(),
    {
        match self {
            PokemonName::NONE => "none",
            PokemonName::BULBASAUR => "bulbasaur",
            PokemonName::CHARMANDER => "charmander",
            PokemonName::CUBONE => "cubone",
            PokemonName::DIALGA => "dialga",
            PokemonName::GIRATINA => "giratina",
            PokemonName::LATIAS => "latias",
            PokemonName::LATIOS => "latios",
            PokemonName::MAROWAK => "marowak",
            PokemonName::MAROWAKALOLA => "marowakalola",
            PokemonName::PALKIA => "palkia",
            PokemonName::PIDGEY => "pidgey",
            PokemonName::PIKACHU => "pikachu",
            PokemonName::RATTATA => "rattata",
            PokemonName::SQUIRTLE => "squirtle",
            PokemonName::WEEDLE => "weedle",
        }
    }

    /// The name of the species, in lower case.
    pub fn name(&self) -> (r: String)
        ensures
            r@ == self.text(),
    {
        self.literal().to_owned()
    }
}

/// What an option of a side is called: a move by its name, a switch by the
/// name of the creature that comes in, and the choice of nothing "no move".
pub open spec fn option_text(side: Side, option: MoveChoice) -> Seq<char> {
    match option {
        MoveChoice::Move(index) => side.active().move_at(index).id.text(),
        MoveChoice::Switch(index) => side.at(index).id.text(),
        MoveChoice::NONE => "no move"@,
    }
}

/// What an option of a side is called in a list of results: a move by its
/// name, a switch by "switch " and the name of the creature that comes in,
/// and the choice of nothing "No Move".
pub open spec fn move_id_text(side: Side, option: MoveChoice) -> Seq<char> {
    match option {
        MoveChoice::Move(index) => side.active().move_at(index).id.text(),
        MoveChoice::Switch(index) => "switch "@ + side.at(index).id.text(),
        MoveChoice::NONE => "No Move"@,
    }
}

/// The switch to the first creature from the place `from` on that is not
/// the active one and whose name is `name`, if there is one.
pub open spec fn switch_named(side: Side, name: Seq<char>, from: int) -> Option<MoveChoice>
    decreases 6 - from,
{
    if from < 0 || from >= 6 {
        None
    } else {
        let index = PokemonIndex::all()[from];
        if side.at(index).id.text() == name && index != side.active_index {
            Some(MoveChoice::Switch(index))
        } else {
            switch_named(side, name, from + 1)
        }
    }
}

/// The first move of the active creature from the place `from` on whose
/// name is `name`, if there is one.
pub open spec fn move_named(side: Side, name: Seq<char>, from: int) -> Option<MoveChoice>
    decreases 4 - from,
{
    if from < 0 || from >= 4 {
        None
    } else {
        let index = PokemonMoveIndex::all()[from];
        if side.active().move_at(index).id.text() == name {
            Some(MoveChoice::Move(index))
        } else {
            move_named(side, name, from + 1)
        }
    }
}

/// The option that a text names, once it is in lower case: "none" the
/// choice of nothing, the name of a creature that is not the active one the
/// switch to it, the name of a move of the active creature that move; a
/// creature before a move, and an earlier place before a later one.
pub open spec fn option_named(side: Side, name: Seq<char>) -> Option<MoveChoice> {
    if name == "none"@ {
        Some(MoveChoice::NONE)
    } else if switch_named(side, name, 0).is_some() {
        switch_named(side, name, 0)
    } else {
        move_named(side, name, 0)
    }
}

fn same_text(first: &String, second: &String) -> (r: bool)
    ensures
        r == (first@ == second@),
{
    *first == *second
}

impl Side {
    /// What the option `option` of this side is called.
    pub fn option_to_string(&self, option: &MoveChoice) -> (r: String)
        ensures
            r@ == option_text(*self, *option),
    {
        match option {
            MoveChoice::Move(index) => self.get_active_immutable().get_move(*index).id.name(),
            MoveChoice::Switch(index) => self.get_pokemon(*index).id.name(),
            MoveChoice::NONE => "no move".to_owned(),
        }
    }

    /// The option of this side that `name` is the name of: "none" the choice
    /// of nothing, the name of a creature that is not the active one the
    /// switch to it, the name of a move of the active creature that move.
    pub fn option_of_name(&self, name: &str) -> (r: Option<MoveChoice>)
        ensures
            r == option_named(*self, name@),
    {
        let wanted = name.to_owned();
        if same_text(&wanted, &"none".to_owned()) {
            return Some(MoveChoice::NONE);
        }
        let mut i: usize = 0;
        while i < 6
            invariant
                i <= 6,
                wanted@ == name@,
                name@ != "none"@,
                switch_named(*self, name@, 0) == switch_named(*self, name@, i as int),
            decreases 6 - i,
        {
            let index = PokemonIndex::from_usize(i).unwrap();
            if same_text(&self.get_pokemon(index).id.name(), &wanted) && index != self.active_index {
                assert(switch_named(*self, name@, i as int) == Some(MoveChoice::Switch(index)));
                return Some(MoveChoice::Switch(index));
            }
            i += 1;
        }
        let mut j: usize = 0;
        while j < 4
            invariant
                j <= 4,
                wanted@ == name@,
                name@ != "none"@,
                switch_named(*self, name@, 0).is_none(),
                move_named(*self, name@, 0) == move_named(*self, name@, j as int),
            decreases 4 - j,
        {
            let index = PokemonMoveIndex::from_usize(j).unwrap();
            if same_text(&self.get_active_immutable().get_move(index).id.name(), &wanted) {
                assert(move_named(*self, name@, j as int) == Some(MoveChoice::Move(index)));
                return Some(MoveChoice::Move(index));
            }
            j += 1;
        }
        None
    }

    /// The option of this side that the text `s` names, whatever the case
    /// of its letters.
    pub fn string_to_movechoice(&self, s: &str) -> (r: Option<MoveChoice>)
        ensures
            r == option_named(*self, lowercase(s@)),
    {
        self.option_of_name(to_lowercase(s).as_str())
    }
}

/// What the option `move_choice` of the side `side` is called in a list of
/// results.
pub fn get_move_id_from_movechoice(side: &Side, move_choice: &MoveChoice) -> (r: String)
    ensures
        r@ == move_id_text(*side, *move_choice),
{
    match move_choice {
        MoveChoice::Move(index) => side.get_active_immutable().get_move(*index).id.name(),
        MoveChoice::Switch(index) => {
            let mut text = "switch ".to_owned();
            let name = side.get_pokemon(*index).id.name();
            push_str(&mut text, name.as_str());
            text
        },
        MoveChoice::NONE => "No Move".to_owned(),
    }
}

} // verus!
