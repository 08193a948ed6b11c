//! Monte-Carlo sampling of random chess games.
//!
//! Each trial plays uniformly random legal moves from the initial position
//! until the game ends, only the two kings are left, or the action cap is
//! reached; the terminal result is then collapsed into a four-way
//! [`Outcome`]. A batch runs many such trials in parallel and folds their
//! outcomes into an [`AggregateReport`].

mod batch;
mod engine;
mod outcome;
mod report;
mod trial;

pub use batch::run_batch;
pub use engine::{
    actions_of, board_after, dead_end_result, legal_list, moves_left, pieces_of, position_of, result_after,
    result_of, start_of, ActionKind,
};
pub use outcome::{
    classify, decide_step, lemma_action_cap_draw, lemma_bare_kings_draw, outcome_of, step_of, EngineResult,
    Outcome, Status, Step, TrialResult, ACTION_CAP,
};
pub use report::{
    aggregate, count_outcome, count_parts, lemma_count_flatten, lemma_count_permutation, lemma_count_split,
    lemma_count_swap, lemma_counts_sum, lemma_merge_matches_whole, AggregateReport,
};
pub use trial::{
    classify_game, ended_by, is_played_trial, legal_walk, moves_before, play_out, played_out, replay,
    run_trial, trial_of, walked,
};
