//! A decision engine for a turn-based battle between two sides of six
//! creatures: it enumerates the weighted outcomes of a turn as lists of
//! reversible instructions, scores states, and searches the game tree.

pub mod abilities;
pub mod accessors;
pub mod apply;
pub mod boosting;
pub mod branches;
pub mod checked;
pub mod choices;
pub mod combine;
pub mod damage_calc;
pub mod deepen;
pub mod dialogue;
pub mod effects;
pub mod end_of_turn;
pub mod evaluate;
pub mod explore;
pub mod fitting;
pub mod generate_instructions;
pub mod half_turn;
pub mod instruction;
pub mod items;
pub mod labels;
pub mod laws;
pub mod moves;
pub mod names;
pub mod options;
pub mod parse;
pub mod perform;
pub mod plain_hit;
pub mod report;
pub mod safest;
pub mod search;
pub mod stages;
pub mod state;
pub mod steps;
pub mod text;
pub mod turn;
pub mod unfolding;
pub mod writing;
