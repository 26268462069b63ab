//! A verified chess game core: a game state machine with matched move
//! and position history, undo and outcome derivation, and a
//! depth-limited minimax engine with alpha-beta pruning over a static
//! material evaluator. Board representation, legal-move generation,
//! outcome detection and notation parsing come from the `chess` crate,
//! consumed as a rules oracle through a narrow trusted boundary.

pub mod ai;
pub mod game;
pub mod oracle;
