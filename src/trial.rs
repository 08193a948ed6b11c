//! One trial: random legal moves from the initial position until the game is
//! over or a heuristic ends it.
use vstd::prelude::*;
use crate::engine::{
    accept_draw, action_count, actions_of, board_after, board_status, current_position, game_result,
    legal_list, legal_moves, make_move, move_count, new_game, new_rng, nth_move, offer_draw,
    piece_count, pieces_of, position_of, random_index, result_after, result_of, side_to_move,
    start_of, ActionKind,
};
use crate::outcome::{classify, decide_step, outcome_of, EngineResult, Outcome, Step, TrialResult, ACTION_CAP};

verus! {

/// The board reached from `b` by playing the moves of `ms` in order.
pub open spec fn replay(b: chess::Board, ms: Seq<chess::ChessMove>) -> chess::Board
    decreases ms.len(),
{
    if ms.len() == 0 {
        b
    } else {
        board_after(replay(b, ms.drop_last()), ms.last())
    }
}

/// Whether every move of `ms` is legal on the board it is played on, starting from `b`.
pub open spec fn legal_walk(b: chess::Board, ms: Seq<chess::ChessMove>) -> bool
    decreases ms.len(),
{
    if ms.len() == 0 {
        true
    } else {
        legal_walk(b, ms.drop_last()) && legal_list(replay(b, ms.drop_last())).contains(ms.last())
    }
}

/// Whether every action of `acts` before index `n` is a move.
pub open spec fn moves_before(acts: Seq<ActionKind>, n: int) -> bool {
    forall|i: int| 0 <= i < n ==> #[trigger] acts[i] == ActionKind::Move
}

/// Whether `g` is a game of nothing but the legal moves `ms` from its start.
pub open spec fn walked(g: chess::Game, ms: Seq<chess::ChessMove>) -> bool {
    &&& legal_walk(start_of(g), ms)
    &&& replay(start_of(g), ms) == position_of(g)
    &&& actions_of(g).len() == ms.len()
    &&& moves_before(actions_of(g), ms.len() as int)
}

/// How the game `g`, after the legal moves `ms` from its start, was ended:
/// either the side to move had no legal move left, or a draw was offered and
/// accepted right away because only the two kings were left or the moves had
/// reached `ACTION_CAP`.
pub open spec fn ended_by(g: chess::Game, ms: Seq<chess::ChessMove>) -> bool {
    let acts = actions_of(g);
    let pos = position_of(g);
    &&& legal_walk(start_of(g), ms)
    &&& replay(start_of(g), ms) == pos
    &&& ms.len() <= ACTION_CAP
    &&& moves_before(acts, ms.len() as int)
    &&& {
        ||| acts.len() == ms.len() && legal_list(pos).len() == 0
        ||| acts.len() == ms.len() + 2 && acts[ms.len() as int] == ActionKind::OfferDraw && acts[ms.len() as int + 1]
            == ActionKind::AcceptDraw && legal_list(pos).len() > 0 && (pieces_of(pos) == 2 || ms.len()
            == ACTION_CAP)
    }
}

/// A game that a trial has played to its end: a walk of legal moves from its
/// start, ended as `ended_by` says, with a result. A game left with legal
/// moves was drawn off, with two bare kings or after `ACTION_CAP` moves, and
/// only such a game records more than `ACTION_CAP` actions.
pub open spec fn played_out(g: chess::Game) -> bool {
    &&& exists|ms: Seq<chess::ChessMove>| #[trigger] ended_by(g, ms)
    &&& result_of(g) is Some
    &&& actions_of(g).len() <= ACTION_CAP + 2
    &&& actions_of(g).len() > ACTION_CAP ==> result_of(g) == Some(EngineResult::DrawAccepted)
    &&& legal_list(position_of(g)).len() > 0 ==> result_of(g) == Some(EngineResult::DrawAccepted) && (
    pieces_of(position_of(g)) == 2 || actions_of(g).len() == ACTION_CAP + 2)
}

/// The classified result of a game that has a result.
pub open spec fn trial_of(g: chess::Game) -> TrialResult {
    TrialResult { outcome: outcome_of(result_of(g)->Some_0), ply_count: actions_of(g).len() as usize }
}

/// A trial result that some game played out from the full initial set of
/// pieces gives.
pub open spec fn is_played_trial(t: TrialResult) -> bool {
    exists|g: chess::Game| pieces_of(start_of(g)) == 32 && played_out(g) && t == trial_of(g)
}

/// Plays `game` to its end, choosing every move uniformly among the legal
/// ones with `rng`. Each iteration first stops on a checkmate or stalemate,
/// then closes the game by a draw offer and its acceptance when only the
/// two kings are left or `ACTION_CAP` actions are recorded, and otherwise
/// plays one move. The loop runs whatever indices the generator draws.
pub fn play_out(game: &mut chess::Game, rng: &mut rand::rngs::ThreadRng)
    requires
        exists|ms: Seq<chess::ChessMove>| #[trigger] walked(*old(game), ms) && ms.len() <= ACTION_CAP,
    ensures
        played_out(*final(game)),
        start_of(*final(game)) == start_of(*old(game)),
{
    let ghost start = start_of(*game);
    let ghost mut ms: Seq<chess::ChessMove> = choose|ms: Seq<chess::ChessMove>|
        #[trigger] walked(*game, ms) && ms.len() <= ACTION_CAP;
    loop
        invariant_except_break
            start_of(*game) == start,
            walked(*game, ms),
            ms.len() <= ACTION_CAP,
        ensures
            start_of(*game) == start,
            ended_by(*game, ms),
            played_out(*game),
        decreases ACTION_CAP - ms.len(),
    {
        let ghost acts = actions_of(*game);
        assert(acts.len() == 0 || acts.last() == ActionKind::Move);
        assert(result_after(acts) is None);
        let board = current_position(game);
        let status = board_status(&board);
        let pieces = piece_count(&board);
        let taken = action_count(game);
        match decide_step(status, pieces, taken) {
            Step::Finished => {
                assert(ended_by(*game, ms));
                break;
            },
            Step::ForceDraw => {
                let side = side_to_move(game);
                offer_draw(game, side);
                accept_draw(game);
                let ghost a = actions_of(*game);
                assert(a == acts.push(ActionKind::OfferDraw).push(ActionKind::AcceptDraw));
                assert(moves_before(a, ms.len() as int)) by {
                    assert forall|i: int| 0 <= i < ms.len() implies #[trigger] a[i] == ActionKind::Move by {
                        assert(a[i] == acts[i]);
                    }
                }
                assert(ended_by(*game, ms));
                break;
            },
            Step::Play => {
                let mut moves = legal_moves(&board);
                let k = move_count(&board);
                let i = random_index(rng, k);
                let m = match nth_move(&mut moves, i) {
                    Some(m) => m,
                    None => vstd::pervasive::unreached(),
                };
                assert(legal_list(board)[i as int] == m);
                make_move(game, m);
                proof {
                    let next = ms.push(m);
                    assert(next.drop_last() == ms);
                    let a = actions_of(*game);
                    assert(moves_before(a, next.len() as int)) by {
                        assert forall|j: int| 0 <= j < next.len() implies #[trigger] a[j] == ActionKind::Move by {
                            if j < ms.len() {
                                assert(a[j] == acts[j]);
                            }
                        }
                    }
                    ms = next;
                }
            },
        }
    }
}

/// Pairs the game's outcome with the number of actions it recorded.
pub fn classify_game(game: &chess::Game) -> (t: TrialResult)
    requires
        result_of(*game) is Some,
    ensures
        t == trial_of(*game),
{
    let length = action_count(game);
    match game_result(game) {
        Some(e) => TrialResult { outcome: classify(e), ply_count: length },
        None => vstd::pervasive::unreached(),
    }
}

/// Plays one game from the initial position to its end and classifies it.
/// A trial always terminates and records at most `ACTION_CAP + 2` actions;
/// one that records more than `ACTION_CAP` was cut short and is a draw.
pub fn run_trial() -> (t: TrialResult)
    ensures
        is_played_trial(t),
        t.ply_count <= ACTION_CAP + 2,
        t.ply_count > ACTION_CAP ==> t.outcome == Outcome::Draw,
{
    let mut game = new_game();
    let mut rng = new_rng();
    assert(walked(game, Seq::<chess::ChessMove>::empty()));
    play_out(&mut game, &mut rng);
    let t = classify_game(&game);
    assert(pieces_of(start_of(game)) == 32 && played_out(game) && t == trial_of(game));
    t
}

} // verus!
