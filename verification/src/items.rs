//! Held items and what they do to a move before, while and after it is used.

use vstd::prelude::*;
use crate::choices::{
    Choice, ChoiceView, Choices, Effect, MoveCategory, MoveTarget, Secondary, StatBoosts,
};
use crate::damage_calc::{type_effectiveness, type_effectiveness_modifier, NEUTRAL};
use crate::effects::{immune_to_status, status_immune};
use crate::instruction::{DisableMoveInstruction, Instruction, StateInstructions};
use crate::perform::perform_all;
use crate::stages::append_instructions;
use crate::state::{
    divide, quotient, Pokemon, PokemonBoostableStat, PokemonMoveIndex, PokemonName,
    PokemonStatus, PokemonType, SideReference, State, Terrain, MAX_BOOST,
};
use crate::steps::{run, Step};

verus! {

#[allow(non_camel_case_types)]
#[derive(Clone, Copy, Debug, PartialEq, Eq, Structural)]
pub enum Items {
    NONE,
    UNKNOWNITEM,
    ABSORBBULB,
    ADAMANTORB,
    AIRBALLOON,
    ASSAULTVEST,
    BABIRIBERRY,
    BLACKBELT,
    BLACKSLUDGE,
    BLACKGLASSES,
    CELLBATTERY,
    CHARCOAL,
    CHARTIBERRY,
    CHILANBERRY,
    CHOICEBAND,
    CHOICESPECS,
    CHOICESCARF,
    CHOPLEBERRY,
    COBABERRY,
    COLBURBERRY,
    DRAGONFANG,
    DREADPLATE,
    ELECTRICSEED,
    EXPERTBELT,
    EVIOLITE,
    FAIRYFEATHER,
    FLAMEORB,
    GRASSYSEED,
    HABANBERRY,
    KASIBBERRY,
    KEBIABERRY,
    LEFTOVERS,
    LIFEORB,
    LUSTROUSORB,
    METALCOAT,
    MISTYSEED,
    MUSCLEBAND,
    MYSTICWATER,
    NEVERMELTICE,
    OCCABERRY,
    ODDINCENSE,
    PASSHOBERRY,
    PAYAPABERRY,
    POISONBARB,
    POWERHERB,
    PSYCHICSEED,
    PUNCHINGGLOVE,
    RINDOBERRY,
    ROSELIBERRY,
    ROCKYHELMET,
    SEAINCENSE,
    SHARPBEAK,
    SHELLBELL,
    SHUCABERRY,
    SILKSCARF,
    SILVERPOWDER,
    SOFTSAND,
    SOULDEW,
    GRISEOUSORB,
    TANGABERRY,
    THROATSPRAY,
    THICKCLUB,
    TOXICORB,
    TWISTEDSPOON,
    WACANBERRY,
    WAVEINCENSE,
    WEAKNESSPOLICY,
    WISEGLASSES,
    BLUNDERPOLICY,
    HEAVYDUTYBOOTS,
    CLEARAMULET,
    PROTECTIVEPADS,
    SHEDSHELL,
    YACHEBERRY,
}

/// The instructions that lock a creature into the move `move_name`: one that
/// disables each other move that is not disabled yet, in the order of the
/// moves.
pub open spec fn choice_lock_instructions(
    pokemon: Pokemon,
    side_ref: SideReference,
    move_name: Choices,
) -> Seq<Instruction> {
    lock_entry(pokemon, side_ref, move_name, PokemonMoveIndex::M0) + lock_entry(
        pokemon,
        side_ref,
        move_name,
        PokemonMoveIndex::M1,
    ) + lock_entry(pokemon, side_ref, move_name, PokemonMoveIndex::M2) + lock_entry(
        pokemon,
        side_ref,
        move_name,
        PokemonMoveIndex::M3,
    )
}

pub open spec fn lock_entry(
    pokemon: Pokemon,
    side_ref: SideReference,
    move_name: Choices,
    move_index: PokemonMoveIndex,
) -> Seq<Instruction> {
    let slot = pokemon.move_at(move_index);
    if slot.id != move_name && !slot.disabled {
        seq![Instruction::DisableMove(DisableMoveInstruction { side_ref, move_index })]
    } else {
        Seq::empty()
    }
}

fn push_lock_entry(
    list: &mut Vec<Instruction>,
    pokemon: &Pokemon,
    side_ref: &SideReference,
    move_name: &Choices,
    move_index: PokemonMoveIndex,
)
    ensures
        final(list)@ == old(list)@ + lock_entry(*pokemon, *side_ref, *move_name, move_index),
{
    let slot = pokemon.get_move(move_index);
    if slot.id != *move_name && !slot.disabled {
        list.push(Instruction::DisableMove(DisableMoveInstruction { side_ref: *side_ref, move_index }));
    }
    assert(list@ =~= old(list)@ + lock_entry(*pokemon, *side_ref, *move_name, move_index));
}

pub fn get_choice_move_disable_instructions(
    pkmn: &Pokemon,
    side_ref: &SideReference,
    move_name: &Choices,
) -> (r: Vec<Instruction>)
    ensures
        r@ == choice_lock_instructions(*pkmn, *side_ref, *move_name),
{
    let mut moves_to_disable: Vec<Instruction> = Vec::new();
    push_lock_entry(&mut moves_to_disable, pkmn, side_ref, move_name, PokemonMoveIndex::M0);
    push_lock_entry(&mut moves_to_disable, pkmn, side_ref, move_name, PokemonMoveIndex::M1);
    push_lock_entry(&mut moves_to_disable, pkmn, side_ref, move_name, PokemonMoveIndex::M2);
    push_lock_entry(&mut moves_to_disable, pkmn, side_ref, move_name, PokemonMoveIndex::M3);
    assert(moves_to_disable@ =~= choice_lock_instructions(*pkmn, *side_ref, *move_name));
    moves_to_disable
}

/// The type of move that a berry weakens, for the berries that do.
pub open spec fn berry_type(item: Items) -> Option<PokemonType> {
    match item {
        Items::CHOPLEBERRY => Some(PokemonType::Fighting),
        Items::BABIRIBERRY => Some(PokemonType::Steel),
        Items::CHARTIBERRY => Some(PokemonType::Rock),
        Items::CHILANBERRY => Some(PokemonType::Normal),
        Items::COBABERRY => Some(PokemonType::Flying),
        Items::COLBURBERRY => Some(PokemonType::Dark),
        Items::HABANBERRY => Some(PokemonType::Dragon),
        Items::KASIBBERRY => Some(PokemonType::GhostType),
        Items::KEBIABERRY => Some(PokemonType::Poison),
        Items::OCCABERRY => Some(PokemonType::Fire),
        Items::PASSHOBERRY => Some(PokemonType::Water),
        Items::PAYAPABERRY => Some(PokemonType::Psychic),
        Items::RINDOBERRY => Some(PokemonType::Grass),
        Items::ROSELIBERRY => Some(PokemonType::Fairy),
        Items::SHUCABERRY => Some(PokemonType::Ground),
        Items::TANGABERRY => Some(PokemonType::Bug),
        Items::WACANBERRY => Some(PokemonType::Electric),
        Items::YACHEBERRY => Some(PokemonType::Ice),
        _ => None,
    }
}

pub fn get_berry_type(item: Items) -> (r: Option<PokemonType>)
    ensures
        r == berry_type(item),
{
    match item {
        Items::CHOPLEBERRY => Some(PokemonType::Fighting),
        Items::BABIRIBERRY => Some(PokemonType::Steel),
        Items::CHARTIBERRY => Some(PokemonType::Rock),
        Items::CHILANBERRY => Some(PokemonType::Normal),
        Items::COBABERRY => Some(PokemonType::Flying),
        Items::COLBURBERRY => Some(PokemonType::Dark),
        Items::HABANBERRY => Some(PokemonType::Dragon),
        Items::KASIBBERRY => Some(PokemonType::GhostType),
        Items::KEBIABERRY => Some(PokemonType::Poison),
        Items::OCCABERRY => Some(PokemonType::Fire),
        Items::PASSHOBERRY => Some(PokemonType::Water),
        Items::PAYAPABERRY => Some(PokemonType::Psychic),
        Items::RINDOBERRY => Some(PokemonType::Grass),
        Items::ROSELIBERRY => Some(PokemonType::Fairy),
        Items::SHUCABERRY => Some(PokemonType::Ground),
        Items::TANGABERRY => Some(PokemonType::Bug),
        Items::WACANBERRY => Some(PokemonType::Electric),
        Items::YACHEBERRY => Some(PokemonType::Ice),
        _ => None,
    }
}

/// Whether the berry of the defender weakens the move: the move is of the
/// type of the berry and strong against the defender. The chilan berry
/// weakens every normal move.
pub open spec fn berry_weakens(s: State, choice: ChoiceView, attacking_side: SideReference) -> bool {
    let defender = s.active(attacking_side.other());
    match berry_type(defender.item) {
        Some(weakened) => choice.move_type == weakened && (defender.item == Items::CHILANBERRY
            || type_effectiveness(weakened, defender.types) > NEUTRAL),
        None => false,
    }
}

fn damage_reduction_berry(state: &State, choice: &Choice, attacking_side_ref: &SideReference) -> (r:
    bool)
    ensures
        r == berry_weakens(*state, choice@, *attacking_side_ref),
{
    let defender = state.get_side_immutable(
        &attacking_side_ref.get_other_side(),
    ).get_active_immutable();
    match get_berry_type(defender.item) {
        Some(weakened) => choice.move_type == weakened && (defender.item == Items::CHILANBERRY
            || type_effectiveness_modifier(&weakened, &defender.types) > NEUTRAL),
        None => false,
    }
}

/// Whether an item locks its holder into one move.
pub open spec fn locks_choice(item: Items) -> bool {
    item == Items::CHOICESPECS || item == Items::CHOICEBAND || item == Items::CHOICESCARF
}

/// What the items of both creatures make of the choice before the move: a
/// berry of the defender that weakens the move halves its power.
pub open spec fn item_before_move_choice(s: State, choice: ChoiceView, side_ref: SideReference) -> ChoiceView {
    if berry_weakens(s, choice, side_ref) {
        choice.with_power_scaled(1, 2)
    } else {
        choice
    }
}

/// What the items of both creatures ask for before the move: a berry of
/// the defender that weakens the move is eaten, and an item that locks the
/// attacker into its move disables its other moves.
pub open spec fn item_before_move_steps(s: State, choice: ChoiceView, side_ref: SideReference) -> Seq<
    Step,
> {
    let eaten = if berry_weakens(s, choice, side_ref) {
        seq![Step::SetItem { side_ref: side_ref.other(), item: Items::NONE }]
    } else {
        Seq::empty()
    };
    eaten + lock_steps(s.active(side_ref), side_ref, choice.move_id)
}

/// The steps that lock `pokemon`, where it holds an item that does so, into
/// the move `move_name`.
pub open spec fn lock_steps(pokemon: Pokemon, side_ref: SideReference, move_name: Choices) -> Seq<
    Step,
> {
    if locks_choice(pokemon.item) {
        lock_step(pokemon, side_ref, move_name, PokemonMoveIndex::M0) + lock_step(
            pokemon,
            side_ref,
            move_name,
            PokemonMoveIndex::M1,
        ) + lock_step(pokemon, side_ref, move_name, PokemonMoveIndex::M2) + lock_step(
            pokemon,
            side_ref,
            move_name,
            PokemonMoveIndex::M3,
        )
    } else {
        Seq::empty()
    }
}

pub open spec fn lock_step(
    pokemon: Pokemon,
    side_ref: SideReference,
    move_name: Choices,
    move_index: PokemonMoveIndex,
) -> Seq<Step> {
    if pokemon.move_at(move_index).id != move_name {
        seq![Step::DisableMove { side_ref, move_index }]
    } else {
        Seq::empty()
    }
}

fn push_lock_step(
    steps: &mut Vec<Step>,
    pokemon: &Pokemon,
    side_ref: &SideReference,
    move_name: &Choices,
    move_index: PokemonMoveIndex,
)
    ensures
        final(steps)@ == old(steps)@ + lock_step(*pokemon, *side_ref, *move_name, move_index),
{
    if pokemon.get_move(move_index).id != *move_name {
        steps.push(Step::DisableMove { side_ref: *side_ref, move_index });
    }
    assert(steps@ =~= old(steps)@ + lock_step(*pokemon, *side_ref, *move_name, move_index));
}

fn push_lock_steps(
    steps: &mut Vec<Step>,
    pokemon: &Pokemon,
    side_ref: &SideReference,
    move_name: &Choices,
)
    ensures
        final(steps)@ == old(steps)@ + lock_steps(*pokemon, *side_ref, *move_name),
{
    match pokemon.item {
        Items::CHOICESPECS | Items::CHOICEBAND | Items::CHOICESCARF => {
            push_lock_step(steps, pokemon, side_ref, move_name, PokemonMoveIndex::M0);
            push_lock_step(steps, pokemon, side_ref, move_name, PokemonMoveIndex::M1);
            push_lock_step(steps, pokemon, side_ref, move_name, PokemonMoveIndex::M2);
            push_lock_step(steps, pokemon, side_ref, move_name, PokemonMoveIndex::M3);
            assert(steps@ =~= old(steps)@ + (lock_step(
                *pokemon,
                *side_ref,
                *move_name,
                PokemonMoveIndex::M0,
            ) + lock_step(*pokemon, *side_ref, *move_name, PokemonMoveIndex::M1) + lock_step(
                *pokemon,
                *side_ref,
                *move_name,
                PokemonMoveIndex::M2,
            ) + lock_step(*pokemon, *side_ref, *move_name, PokemonMoveIndex::M3)));
        },
        _ => {
            assert(steps@ =~= old(steps)@ + Seq::<Step>::empty());
        },
    }
}

fn build_item_before_move_steps(state: &State, choice: &Choice, side_ref: &SideReference) -> (r: Vec<
    Step,
>)
    ensures
        r@ == item_before_move_steps(*state, choice@, *side_ref),
{
    let mut steps: Vec<Step> = Vec::new();
    if damage_reduction_berry(state, choice, side_ref) {
        steps.push(Step::SetItem { side_ref: side_ref.get_other_side(), item: Items::NONE });
    }
    let attacker = state.get_side_immutable(side_ref).get_active_immutable();
    push_lock_steps(&mut steps, attacker, side_ref, &choice.move_id);
    steps
}

/// Carries `steps` out on the state and records their instructions at the
/// end of `instructions`.
fn perform_and_record(state: &mut State, steps: &Vec<Step>, instructions: &mut StateInstructions)
    requires
        old(state).in_bounds(),
    ensures
        final(instructions)@ == old(instructions)@.followed_by(run(*old(state), steps@)),
        *final(state) == old(state).apply_all(run(*old(state), steps@)),
        old(state).all_applicable(run(*old(state), steps@)),
{
    let added = perform_all(state, steps);
    append_instructions(&mut instructions.instruction_list, &added);
}

/// The items of both creatures before the move of the side `side_ref`: the
/// power of the choice is halved by a berry that weakens the move, and
/// what the items ask for is carried out on the state and recorded at the
/// end of `instructions`.
pub fn item_before_move(
    state: &mut State,
    choice: &mut Choice,
    side_ref: &SideReference,
    instructions: &mut StateInstructions,
)
    requires
        old(state).in_bounds(),
    ensures
        final(choice)@ == item_before_move_choice(*old(state), old(choice)@, *side_ref),
        final(instructions)@ == old(instructions)@.followed_by(
            run(*old(state), item_before_move_steps(*old(state), old(choice)@, *side_ref)),
        ),
        *final(state) == old(state).apply_all(
            run(*old(state), item_before_move_steps(*old(state), old(choice)@, *side_ref)),
        ),
        old(state).all_applicable(
            run(*old(state), item_before_move_steps(*old(state), old(choice)@, *side_ref)),
        ),
{
    let steps = build_item_before_move_steps(state, choice, side_ref);
    if damage_reduction_berry(state, choice, side_ref) {
        choice.scale_base_power(1, 2);
    }
    perform_and_record(state, &steps, instructions);
}

/// The terrain that a seed answers to and the stat that it raises, for the
/// seeds.
pub open spec fn seed_of(item: Items) -> Option<(Terrain, PokemonBoostableStat)> {
    match item {
        Items::ELECTRICSEED => Some((Terrain::ElectricTerrain, PokemonBoostableStat::Defense)),
        Items::GRASSYSEED => Some((Terrain::GrassyTerrain, PokemonBoostableStat::Defense)),
        Items::MISTYSEED => Some((Terrain::MistyTerrain, PokemonBoostableStat::SpecialDefense)),
        Items::PSYCHICSEED => Some((Terrain::PsychicTerrain, PokemonBoostableStat::SpecialDefense)),
        _ => None,
    }
}

pub fn get_seed_of(item: Items) -> (r: Option<(Terrain, PokemonBoostableStat)>)
    ensures
        r == seed_of(item),
{
    match item {
        Items::ELECTRICSEED => Some((Terrain::ElectricTerrain, PokemonBoostableStat::Defense)),
        Items::GRASSYSEED => Some((Terrain::GrassyTerrain, PokemonBoostableStat::Defense)),
        Items::MISTYSEED => Some((Terrain::MistyTerrain, PokemonBoostableStat::SpecialDefense)),
        Items::PSYCHICSEED => Some((Terrain::PsychicTerrain, PokemonBoostableStat::SpecialDefense)),
        _ => None,
    }
}

/// What the item of a creature asks for when it comes in: on its terrain a
/// seed raises its stat by one stage and is used up, unless the stat is at
/// the highest stage.
pub open spec fn item_on_switch_in_steps(s: State, side_ref: SideReference) -> Seq<Step> {
    let pokemon = s.active(side_ref);
    match seed_of(pokemon.item) {
        Some((terrain, stat)) => if s.has_terrain(terrain) && pokemon.boost(stat) < MAX_BOOST {
            seq![
                Step::Boost { side_ref, stat, amount: 1 },
                Step::SetItem { side_ref, item: Items::NONE },
            ]
        } else {
            Seq::empty()
        },
        None => Seq::empty(),
    }
}

/// The item of the creature that comes in on the side `side_ref`: what it
/// asks for is carried out on the state and recorded at the end of
/// `instructions`.
pub fn item_on_switch_in(
    state: &mut State,
    side_ref: &SideReference,
    instructions: &mut StateInstructions,
)
    requires
        old(state).in_bounds(),
    ensures
        final(instructions)@ == old(instructions)@.followed_by(
            run(*old(state), item_on_switch_in_steps(*old(state), *side_ref)),
        ),
        *final(state) == old(state).apply_all(
            run(*old(state), item_on_switch_in_steps(*old(state), *side_ref)),
        ),
        old(state).all_applicable(
            run(*old(state), item_on_switch_in_steps(*old(state), *side_ref)),
        ),
{
    let mut steps: Vec<Step> = Vec::new();
    let pokemon = state.get_side_immutable(side_ref).get_active_immutable();
    if let Some((terrain, stat)) = get_seed_of(pokemon.item) {
        if state.terrain_is_active(&terrain) && pokemon.get_boost_from_boost_enum(&stat)
            < MAX_BOOST {
            steps.push(Step::Boost { side_ref: *side_ref, stat, amount: 1 });
            steps.push(Step::SetItem { side_ref: *side_ref, item: Items::NONE });
        }
    }
    assert(steps@ =~= item_on_switch_in_steps(*state, *side_ref));
    perform_and_record(state, &steps, instructions);
}

/// What the item of a creature asks for at the end of a turn: leftovers
/// heal a holder below its maximum by a sixteenth of the maximum hit
/// points, and the heal is recorded even where that sixteenth is nothing;
/// a black sludge heals a poison creature in the same way and takes a
/// sixteenth from any other; a flame orb burns its holder and a toxic orb
/// poisons it, unless the holder is immune.
pub open spec fn item_end_of_turn_steps(s: State, side_ref: SideReference) -> Seq<Step> {
    let pokemon = s.active(side_ref);
    let sixteenth = quotient(pokemon.maxhp as int, 16) as i16;
    match pokemon.item {
        Items::BLACKSLUDGE => if !pokemon.is_of_type(PokemonType::Poison) {
            seq![Step::Damage { side_ref, amount: sixteenth }]
        } else if pokemon.hp < pokemon.maxhp {
            seq![Step::Heal { side_ref, amount: sixteenth, keep_zero: true }]
        } else {
            Seq::empty()
        },
        Items::LEFTOVERS => if pokemon.hp < pokemon.maxhp {
            seq![Step::Heal { side_ref, amount: sixteenth, keep_zero: true }]
        } else {
            Seq::empty()
        },
        Items::FLAMEORB => if !status_immune(s, MoveTarget::User, side_ref, PokemonStatus::Burn) {
            seq![Step::SetStatus { side_ref, status: PokemonStatus::Burn }]
        } else {
            Seq::empty()
        },
        Items::TOXICORB => if !status_immune(s, MoveTarget::User, side_ref, PokemonStatus::Toxic) {
            seq![Step::SetStatus { side_ref, status: PokemonStatus::Toxic }]
        } else {
            Seq::empty()
        },
        _ => Seq::empty(),
    }
}

pub fn build_item_end_of_turn_steps(state: &State, side_ref: &SideReference) -> (r: Vec<Step>)
    ensures
        r@ == item_end_of_turn_steps(*state, *side_ref),
{
    let mut steps: Vec<Step> = Vec::new();
    let pokemon = state.get_side_immutable(side_ref).get_active_immutable();
    let sixteenth = divide(pokemon.maxhp, 16);
    match pokemon.item {
        Items::BLACKSLUDGE => {
            if !pokemon.has_type(&PokemonType::Poison) {
                steps.push(Step::Damage { side_ref: *side_ref, amount: sixteenth });
            } else if pokemon.hp < pokemon.maxhp {
                steps.push(Step::Heal { side_ref: *side_ref, amount: sixteenth, keep_zero: true });
            }
        },
        Items::LEFTOVERS => {
            if pokemon.hp < pokemon.maxhp {
                steps.push(Step::Heal { side_ref: *side_ref, amount: sixteenth, keep_zero: true });
            }
        },
        Items::FLAMEORB => {
            if !immune_to_status(state, &MoveTarget::User, side_ref, &PokemonStatus::Burn) {
                steps.push(Step::SetStatus { side_ref: *side_ref, status: PokemonStatus::Burn });
            }
        },
        Items::TOXICORB => {
            if !immune_to_status(state, &MoveTarget::User, side_ref, &PokemonStatus::Toxic) {
                steps.push(Step::SetStatus { side_ref: *side_ref, status: PokemonStatus::Toxic });
            }
        },
        _ => {},
    }
    assert(steps@ =~= item_end_of_turn_steps(*state, *side_ref));
    steps
}

/// The item of the active creature of the side `side_ref` at the end of a
/// turn: what it asks for is carried out on the state and recorded at the
/// end of `instructions`.
pub fn item_end_of_turn(
    state: &mut State,
    side_ref: &SideReference,
    instructions: &mut StateInstructions,
)
    requires
        old(state).in_bounds(),
    ensures
        final(instructions)@ == old(instructions)@.followed_by(
            run(*old(state), item_end_of_turn_steps(*old(state), *side_ref)),
        ),
        *final(state) == old(state).apply_all(
            run(*old(state), item_end_of_turn_steps(*old(state), *side_ref)),
        ),
        old(state).all_applicable(run(*old(state), item_end_of_turn_steps(*old(state), *side_ref))),
{
    let steps = build_item_end_of_turn_steps(state, side_ref);
    perform_and_record(state, &steps, instructions);
}

/// A secondary that is certain and boosts its target.
pub open spec fn boost_secondary(target: MoveTarget, boosts: StatBoosts) -> Secondary {
    Secondary { chance: 100, target, effect: Effect::Boost(boosts) }
}

/// A secondary that is certain and takes the item of its target.
pub open spec fn remove_item_secondary(target: MoveTarget) -> Secondary {
    Secondary { chance: 100, target, effect: Effect::RemoveItem }
}

/// A secondary that is certain and heals its target by `amount`
/// thousandths of its maximum hit points.
pub open spec fn heal_secondary(target: MoveTarget, amount: i16) -> Secondary {
    Secondary { chance: 100, target, effect: Effect::Heal(amount) }
}

pub open spec fn no_boosts() -> StatBoosts {
    StatBoosts {
        attack: 0,
        defense: 0,
        special_attack: 0,
        special_defense: 0,
        speed: 0,
        accuracy: 0,
    }
}

/// What the item of the defender makes of the choice of the attacker.
pub open spec fn item_modified_attack_against(
    s: State,
    choice: ChoiceView,
    attacking_side: SideReference,
) -> ChoiceView {
    let defender = s.active(attacking_side.other());
    match defender.item {
        Items::ABSORBBULB => if choice.move_type == PokemonType::Water {
            choice.with_secondary(
                boost_secondary(
                    MoveTarget::Opponent,
                    StatBoosts { special_attack: 1, ..no_boosts() },
                ),
            ).with_secondary(remove_item_secondary(MoveTarget::Opponent))
        } else {
            choice
        },
        Items::AIRBALLOON => if choice.move_type == PokemonType::Ground && choice.move_id
            != Choices::THOUSANDARROWS {
            ChoiceView { base_power: 0, ..choice }
        } else {
            choice.with_secondary(remove_item_secondary(MoveTarget::Opponent))
        },
        Items::ASSAULTVEST => if choice.category == MoveCategory::Special {
            choice.with_power_scaled(2, 3)
        } else {
            choice
        },
        Items::CELLBATTERY => if choice.move_type == PokemonType::Electric {
            choice.with_secondary(
                boost_secondary(MoveTarget::Opponent, StatBoosts { attack: 1, ..no_boosts() }),
            ).with_secondary(remove_item_secondary(MoveTarget::Opponent))
        } else {
            choice
        },
        Items::EVIOLITE => choice.with_power_scaled(2, 3),
        Items::ROCKYHELMET => if choice.flags.contact {
            choice.with_secondary(heal_secondary(MoveTarget::User, -166i16))
        } else {
            choice
        },
        Items::WEAKNESSPOLICY => if choice.category != MoveCategory::Status && type_effectiveness(
            choice.move_type,
            defender.types,
        ) > NEUTRAL {
            choice.with_secondary(
                boost_secondary(
                    MoveTarget::Opponent,
                    StatBoosts { attack: 2, special_attack: 2, ..no_boosts() },
                ),
            ).with_secondary(remove_item_secondary(MoveTarget::Opponent))
        } else {
            choice
        },
        _ => choice,
    }
}

fn certain(target: MoveTarget, effect: Effect) -> (r: Secondary)
    ensures
        r == (Secondary { chance: 100, target, effect }),
{
    Secondary { chance: 100, target, effect }
}

fn boosts_of(attack: i8, special_attack: i8) -> (r: StatBoosts)
    ensures
        r == (StatBoosts { attack, special_attack, ..no_boosts() }),
{
    StatBoosts {
        attack,
        defense: 0,
        special_attack,
        special_defense: 0,
        speed: 0,
        accuracy: 0,
    }
}

/// The item of the defender changes the choice of the attacker: a bulb or
/// a battery answers a move of its type with a boost and is used up, a
/// balloon lifts its holder over ground moves and bursts under any other,
/// a vest and an eviolite weaken what comes in, a helmet hurts who touches
/// it, and a policy answers a strong move with a boost.
pub fn item_modify_attack_against(
    state: &State,
    attacking_choice: &mut Choice,
    attacking_side_ref: &SideReference,
)
    ensures
        final(attacking_choice)@ == item_modified_attack_against(
            *state,
            old(attacking_choice)@,
            *attacking_side_ref,
        ),
{
    let defender = state.get_side_immutable(
        &attacking_side_ref.get_other_side(),
    ).get_active_immutable();
    match defender.item {
        Items::ABSORBBULB => {
            if attacking_choice.move_type == PokemonType::Water {
                attacking_choice.add_or_create_secondaries(
                    certain(MoveTarget::Opponent, Effect::Boost(boosts_of(0, 1))),
                );
                attacking_choice.add_or_create_secondaries(
                    certain(MoveTarget::Opponent, Effect::RemoveItem),
                );
            }
        },
        Items::AIRBALLOON => {
            if attacking_choice.move_type == PokemonType::Ground && attacking_choice.move_id
                != Choices::THOUSANDARROWS {
                attacking_choice.base_power = 0;
            } else {
                attacking_choice.add_or_create_secondaries(
                    certain(MoveTarget::Opponent, Effect::RemoveItem),
                );
            }
        },
        Items::ASSAULTVEST => {
            if attacking_choice.category == MoveCategory::Special {
                attacking_choice.scale_base_power(2, 3);
            }
        },
        Items::CELLBATTERY => {
            if attacking_choice.move_type == PokemonType::Electric {
                attacking_choice.add_or_create_secondaries(
                    certain(MoveTarget::Opponent, Effect::Boost(boosts_of(1, 0))),
                );
                attacking_choice.add_or_create_secondaries(
                    certain(MoveTarget::Opponent, Effect::RemoveItem),
                );
            }
        },
        Items::EVIOLITE => {
            attacking_choice.scale_base_power(2, 3);
        },
        Items::ROCKYHELMET => {
            if attacking_choice.flags.contact {
                attacking_choice.add_or_create_secondaries(
                    certain(MoveTarget::User, Effect::Heal(-166)),
                );
            }
        },
        Items::WEAKNESSPOLICY => {
            if attacking_choice.category != MoveCategory::Status && type_effectiveness_modifier(
                &attacking_choice.move_type,
                &defender.types,
            ) > NEUTRAL {
                attacking_choice.add_or_create_secondaries(
                    certain(MoveTarget::Opponent, Effect::Boost(boosts_of(2, 2))),
                );
                attacking_choice.add_or_create_secondaries(
                    certain(MoveTarget::Opponent, Effect::RemoveItem),
                );
            }
        },
        _ => {},
    }
}

/// The type of move that an item strengthens by a fifth, for the items
/// that strengthen one type.
pub open spec fn strengthened_type(item: Items) -> Option<PokemonType> {
    match item {
        Items::BLACKBELT => Some(PokemonType::Fighting),
        Items::BLACKGLASSES => Some(PokemonType::Dark),
        Items::CHARCOAL => Some(PokemonType::Fire),
        Items::DRAGONFANG => Some(PokemonType::Dragon),
        Items::DREADPLATE => Some(PokemonType::Dark),
        Items::FAIRYFEATHER => Some(PokemonType::Fairy),
        Items::METALCOAT => Some(PokemonType::Steel),
        Items::MYSTICWATER => Some(PokemonType::Water),
        Items::NEVERMELTICE => Some(PokemonType::Ice),
        Items::ODDINCENSE => Some(PokemonType::Psychic),
        Items::POISONBARB => Some(PokemonType::Poison),
        Items::SEAINCENSE => Some(PokemonType::Water),
        Items::SHARPBEAK => Some(PokemonType::Flying),
        Items::SILKSCARF => Some(PokemonType::Normal),
        Items::SILVERPOWDER => Some(PokemonType::Bug),
        Items::SOFTSAND => Some(PokemonType::Ground),
        Items::TWISTEDSPOON => Some(PokemonType::Psychic),
        Items::WAVEINCENSE => Some(PokemonType::Water),
        _ => None,
    }
}

pub fn get_strengthened_type(item: Items) -> (r: Option<PokemonType>)
    ensures
        r == strengthened_type(item),
{
    match item {
        Items::BLACKBELT => Some(PokemonType::Fighting),
        Items::BLACKGLASSES => Some(PokemonType::Dark),
        Items::CHARCOAL => Some(PokemonType::Fire),
        Items::DRAGONFANG => Some(PokemonType::Dragon),
        Items::DREADPLATE => Some(PokemonType::Dark),
        Items::FAIRYFEATHER => Some(PokemonType::Fairy),
        Items::METALCOAT => Some(PokemonType::Steel),
        Items::MYSTICWATER => Some(PokemonType::Water),
        Items::NEVERMELTICE => Some(PokemonType::Ice),
        Items::ODDINCENSE => Some(PokemonType::Psychic),
        Items::POISONBARB => Some(PokemonType::Poison),
        Items::SEAINCENSE => Some(PokemonType::Water),
        Items::SHARPBEAK => Some(PokemonType::Flying),
        Items::SILKSCARF => Some(PokemonType::Normal),
        Items::SILVERPOWDER => Some(PokemonType::Bug),
        Items::SOFTSAND => Some(PokemonType::Ground),
        Items::TWISTEDSPOON => Some(PokemonType::Psychic),
        Items::WAVEINCENSE => Some(PokemonType::Water),
        _ => None,
    }
}

/// Whether an orb or a dew strengthens the move of its holder: each of
/// them does so for one species and two types of move.
pub open spec fn species_item_applies(pokemon: Pokemon, move_type: PokemonType) -> bool {
    match pokemon.item {
        Items::SOULDEW => (pokemon.id == PokemonName::LATIOS || pokemon.id == PokemonName::LATIAS)
            && (move_type == PokemonType::Dragon || move_type == PokemonType::Psychic),
        Items::GRISEOUSORB => pokemon.id == PokemonName::GIRATINA && (move_type
            == PokemonType::Dragon || move_type == PokemonType::GhostType),
        Items::LUSTROUSORB => pokemon.id == PokemonName::PALKIA && (move_type
            == PokemonType::Dragon || move_type == PokemonType::GhostType),
        Items::ADAMANTORB => pokemon.id == PokemonName::DIALGA && (move_type == PokemonType::Dragon
            || move_type == PokemonType::Steel),
        _ => false,
    }
}

fn get_species_item_applies(pokemon: &Pokemon, move_type: PokemonType) -> (r: bool)
    ensures
        r == species_item_applies(*pokemon, move_type),
{
    match pokemon.item {
        Items::SOULDEW => (pokemon.id == PokemonName::LATIOS || pokemon.id == PokemonName::LATIAS)
            && (move_type == PokemonType::Dragon || move_type == PokemonType::Psychic),
        Items::GRISEOUSORB => pokemon.id == PokemonName::GIRATINA && (move_type
            == PokemonType::Dragon || move_type == PokemonType::GhostType),
        Items::LUSTROUSORB => pokemon.id == PokemonName::PALKIA && (move_type
            == PokemonType::Dragon || move_type == PokemonType::GhostType),
        Items::ADAMANTORB => pokemon.id == PokemonName::DIALGA && (move_type == PokemonType::Dragon
            || move_type == PokemonType::Steel),
        _ => false,
    }
}

/// What the item of the attacker makes of its choice.
pub open spec fn item_modified_attack_being_used(
    s: State,
    choice: ChoiceView,
    attacking_side: SideReference,
) -> ChoiceView {
    let attacker = s.active(attacking_side);
    let defender = s.active(attacking_side.other());
    if strengthened_type(attacker.item).is_some() {
        if choice.move_type == strengthened_type(attacker.item).unwrap() {
            choice.with_power_scaled(6, 5)
        } else {
            choice
        }
    } else if species_item_applies(attacker, choice.move_type) {
        choice.with_power_scaled(6, 5)
    } else {
        match attacker.item {
            Items::CHOICEBAND => if choice.category == MoveCategory::Physical {
                choice.with_power_scaled(3, 2)
            } else {
                choice
            },
            Items::CHOICESPECS => if choice.category == MoveCategory::Special {
                choice.with_power_scaled(3, 2)
            } else {
                choice
            },
            Items::EXPERTBELT => if type_effectiveness(choice.move_type, defender.types)
                > NEUTRAL {
                choice.with_power_scaled(6, 5)
            } else {
                choice
            },
            Items::LIFEORB => if choice.category != MoveCategory::Status {
                choice.with_power_scaled(13, 10).with_secondary(
                    heal_secondary(MoveTarget::User, -100i16),
                )
            } else {
                choice
            },
            Items::MUSCLEBAND => if choice.category == MoveCategory::Physical {
                choice.with_power_scaled(11, 10)
            } else {
                choice
            },
            Items::PUNCHINGGLOVE => if choice.flags.punch {
                let stronger = choice.with_power_scaled(11, 10);
                ChoiceView {
                    flags: crate::choices::Flags { contact: false, ..stronger.flags },
                    ..stronger
                }
            } else {
                choice
            },
            Items::SHELLBELL => ChoiceView { drain: Some(125i16), ..choice },
            Items::THROATSPRAY => if choice.flags.sound {
                choice.with_secondary(
                    boost_secondary(MoveTarget::User, StatBoosts { special_attack: 1, ..no_boosts() }),
                ).with_secondary(remove_item_secondary(MoveTarget::User))
            } else {
                choice
            },
            Items::THICKCLUB => if attacker.id == PokemonName::CUBONE || attacker.id
                == PokemonName::MAROWAK || attacker.id == PokemonName::MAROWAKALOLA {
                choice.with_power_scaled(2, 1)
            } else {
                choice
            },
            Items::WISEGLASSES => if choice.category == MoveCategory::Special {
                choice.with_power_scaled(11, 10)
            } else {
                choice
            },
            _ => choice,
        }
    }
}

/// The item of the attacker changes its choice: the items of one type
/// strengthen moves of that type by a fifth, as the orbs and the dew do
/// for their species; a band and the specs strengthen one category by a
/// half, the muscle band and the glasses by a tenth; a belt strengthens
/// what is strong against the defender; a life orb strengthens every
/// damaging move and costs its holder a tenth of its hit points; a glove
/// strengthens punches and keeps them from touching; a bell drains an
/// eighth of the damage; a spray answers a sound with a boost; and a club
/// doubles the moves of the species that wield it.
pub fn item_modify_attack_being_used(
    state: &State,
    attacking_choice: &mut Choice,
    attacking_side_ref: &SideReference,
)
    ensures
        final(attacking_choice)@ == item_modified_attack_being_used(
            *state,
            old(attacking_choice)@,
            *attacking_side_ref,
        ),
{
    let attacker = state.get_side_immutable(attacking_side_ref).get_active_immutable();
    let defender = state.get_side_immutable(
        &attacking_side_ref.get_other_side(),
    ).get_active_immutable();
    if let Some(strengthened) = get_strengthened_type(attacker.item) {
        if attacking_choice.move_type == strengthened {
            attacking_choice.scale_base_power(6, 5);
        }
        return ;
    }
    if get_species_item_applies(attacker, attacking_choice.move_type) {
        attacking_choice.scale_base_power(6, 5);
        return ;
    }
    match attacker.item {
        Items::CHOICEBAND => {
            if attacking_choice.category == MoveCategory::Physical {
                attacking_choice.scale_base_power(3, 2);
            }
        },
        Items::CHOICESPECS => {
            if attacking_choice.category == MoveCategory::Special {
                attacking_choice.scale_base_power(3, 2);
            }
        },
        Items::EXPERTBELT => {
            if type_effectiveness_modifier(&attacking_choice.move_type, &defender.types)
                > NEUTRAL {
                attacking_choice.scale_base_power(6, 5);
            }
        },
        Items::LIFEORB => {
            if attacking_choice.category != MoveCategory::Status {
                attacking_choice.scale_base_power(13, 10);
                attacking_choice.add_or_create_secondaries(
                    certain(MoveTarget::User, Effect::Heal(-100)),
                );
            }
        },
        Items::MUSCLEBAND => {
            if attacking_choice.category == MoveCategory::Physical {
                attacking_choice.scale_base_power(11, 10);
            }
        },
        Items::PUNCHINGGLOVE => {
            if attacking_choice.flags.punch {
                attacking_choice.scale_base_power(11, 10);
                attacking_choice.flags.contact = false;
            }
        },
        Items::SHELLBELL => {
            attacking_choice.drain = Some(125);
        },
        Items::THROATSPRAY => {
            if attacking_choice.flags.sound {
                attacking_choice.add_or_create_secondaries(
                    certain(MoveTarget::User, Effect::Boost(boosts_of(0, 1))),
                );
                attacking_choice.add_or_create_secondaries(
                    certain(MoveTarget::User, Effect::RemoveItem),
                );
            }
        },
        Items::THICKCLUB => {
            if attacker.id == PokemonName::CUBONE || attacker.id == PokemonName::MAROWAK
                || attacker.id == PokemonName::MAROWAKALOLA {
                attacking_choice.scale_base_power(2, 1);
            }
        },
        Items::WISEGLASSES => {
            if attacking_choice.category == MoveCategory::Special {
                attacking_choice.scale_base_power(11, 10);
            }
        },
        _ => {},
    }
}

} // verus!
