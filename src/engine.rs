//! The rules engine (the `chess` crate) and the random source (`rand`), as
//! seen by the trial runner.
use vstd::prelude::*;
use rand::Rng;
use crate::outcome::{EngineResult, Status};

verus! {

#[verifier::external_type_specification]
#[verifier::external_body]
pub struct ExGame(chess::Game);

#[verifier::external_type_specification]
#[verifier::external_body]
pub struct ExBoard(chess::Board);

#[verifier::external_type_specification]
#[verifier::external_body]
pub struct ExMoveGen(chess::MoveGen);

#[verifier::external_type_specification]
#[verifier::external_body]
pub struct ExChessMove(chess::ChessMove);

#[verifier::external_type_specification]
#[verifier::external_body]
pub struct ExColor(chess::Color);

#[verifier::external_type_specification]
#[verifier::external_body]
pub struct ExThreadRng(rand::rngs::ThreadRng);

/// An action recorded by a game, with the colour of offers and resignations
/// kept only where the result depends on it.
#[derive(Clone, Copy, Debug, PartialEq, Eq, Structural)]
pub enum ActionKind {
    Move,
    OfferDraw,
    AcceptDraw,
    DeclareDraw,
    ResignWhite,
    ResignBlack,
}

/// The actions a game has recorded, in order: `chess::Game::actions()`.
pub uninterp spec fn actions_of(g: chess::Game) -> Seq<ActionKind>;

/// The board after every recorded move: `chess::Game::current_position()`.
pub uninterp spec fn position_of(g: chess::Game) -> chess::Board;

/// The legal moves of a board, in the order `chess::MoveGen::new_legal` yields them.
pub uninterp spec fn legal_list(b: chess::Board) -> Seq<chess::ChessMove>;

/// The moves a generator has still to yield, in order.
pub uninterp spec fn moves_left(m: chess::MoveGen) -> Seq<chess::ChessMove>;

/// The number of occupied squares of a board.
pub uninterp spec fn pieces_of(b: chess::Board) -> u32;

/// The position a game started from.
pub uninterp spec fn start_of(g: chess::Game) -> chess::Board;

/// The board that a move leads to: `chess::Board::make_move_new`.
pub uninterp spec fn board_after(b: chess::Board, m: chess::ChessMove) -> chess::Board;

/// The result `chess::Game::result()` gives when the side to move has no
/// legal move (a checkmate or a stalemate).
pub uninterp spec fn dead_end_result(g: chess::Game) -> EngineResult;

/// The result a game still in play takes from its last action.
pub open spec fn result_after(acts: Seq<ActionKind>) -> Option<EngineResult> {
    if acts.len() == 0 {
        None
    } else {
        match acts.last() {
            ActionKind::AcceptDraw => Some(EngineResult::DrawAccepted),
            ActionKind::DeclareDraw => Some(EngineResult::DrawDeclared),
            ActionKind::ResignWhite => Some(EngineResult::WhiteResigns),
            ActionKind::ResignBlack => Some(EngineResult::BlackResigns),
            _ => None,
        }
    }
}

/// The result of a game: fixed by the board when no legal move is left,
/// otherwise by the last recorded action.
pub open spec fn result_of(g: chess::Game) -> Option<EngineResult> {
    if legal_list(position_of(g)).len() == 0 {
        Some(dead_end_result(g))
    } else {
        result_after(actions_of(g))
    }
}

/// Relies on `chess::Game::new`: a game at the standard initial position
/// (`Board::default`, all 32 pieces on the board) with no recorded action.
#[verifier::external_body]
pub(crate) fn new_game() -> (g: chess::Game)
    ensures
        actions_of(g) == Seq::<ActionKind>::empty(),
        position_of(g) == start_of(g),
        pieces_of(start_of(g)) == 32,
{
    chess::Game::new()
}

/// Relies on `chess::Game::actions`: the recorded actions, of which we take the count.
#[verifier::external_body]
pub(crate) fn action_count(g: &chess::Game) -> (n: usize)
    ensures
        n == actions_of(*g).len(),
{
    g.actions().len()
}

/// Relies on `chess::Game::current_position`: the board after every recorded move.
#[verifier::external_body]
pub(crate) fn current_position(g: &chess::Game) -> (b: chess::Board)
    ensures
        b == position_of(*g),
{
    g.current_position()
}

/// Relies on `chess::Board::status`: whether the side to move is mated,
/// stalemated, or can still move; it is ongoing exactly when a legal move exists.
#[verifier::external_body]
pub(crate) fn board_status(b: &chess::Board) -> (r: Status)
    ensures
        (r == Status::Ongoing) <==> legal_list(*b).len() > 0,
{
    match b.status() {
        chess::BoardStatus::Ongoing => Status::Ongoing,
        chess::BoardStatus::Stalemate => Status::Stalemate,
        chess::BoardStatus::Checkmate => Status::Checkmate,
    }
}

/// Relies on `chess::BitBoard::popcnt` of `chess::Board::combined`: the number
/// of occupied squares, a count of the bits of a `u64`.
#[verifier::external_body]
pub(crate) fn piece_count(b: &chess::Board) -> (n: u32)
    ensures
        n == pieces_of(*b),
        n <= 64,
{
    b.combined().popcnt()
}

/// Relies on `chess::MoveGen::new_legal`: a generator of the legal moves of the board.
#[verifier::external_body]
pub(crate) fn legal_moves(b: &chess::Board) -> (m: chess::MoveGen)
    ensures
        moves_left(m) == legal_list(*b),
{
    chess::MoveGen::new_legal(b)
}

/// Relies on `chess::MoveGen::movegen_perft_test` at depth 1: the length of
/// a fresh `MoveGen::new_legal` of the board, that is, its number of legal moves.
#[verifier::external_body]
pub(crate) fn move_count(b: &chess::Board) -> (n: usize)
    ensures
        n == legal_list(*b).len(),
{
    chess::MoveGen::movegen_perft_test(b, 1)
}

/// Relies on `Iterator::nth` for `chess::MoveGen`: the move at index `i` of
/// those still to come, if there are that many.
#[verifier::external_body]
pub(crate) fn nth_move(m: &mut chess::MoveGen, i: usize) -> (r: Option<chess::ChessMove>)
    ensures
        i < moves_left(*old(m)).len() ==> r == Some(moves_left(*old(m))[i as int]),
{
    m.nth(i)
}

/// Relies on `chess::Game::make_move`: a move of the current legal moves is
/// accepted while the game has no result, and then recorded, which moves the
/// board on by `Board::make_move_new`; on refusal the game is left as it was.
#[verifier::external_body]
pub(crate) fn make_move(g: &mut chess::Game, m: chess::ChessMove) -> (ok: bool)
    ensures
        legal_list(position_of(*old(g))).contains(m) && result_of(*old(g)) is None ==> ok,
        ok ==> actions_of(*final(g)) == actions_of(*old(g)).push(ActionKind::Move),
        ok ==> position_of(*final(g)) == board_after(position_of(*old(g)), m),
        ok ==> start_of(*final(g)) == start_of(*old(g)),
        !ok ==> *final(g) == *old(g),
{
    g.make_move(m)
}

/// Relies on `chess::Game::side_to_move`: the colour whose turn it is.
#[verifier::external_body]
pub(crate) fn side_to_move(g: &chess::Game) -> chess::Color {
    g.side_to_move()
}

/// Relies on `chess::Game::offer_draw`: while the game has no result the
/// offer is recorded and the board stays as it was; otherwise the game is
/// left as it was.
#[verifier::external_body]
pub(crate) fn offer_draw(g: &mut chess::Game, c: chess::Color) -> (ok: bool)
    ensures
        result_of(*old(g)) is None ==> ok,
        ok ==> actions_of(*final(g)) == actions_of(*old(g)).push(ActionKind::OfferDraw),
        ok ==> position_of(*final(g)) == position_of(*old(g)),
        ok ==> start_of(*final(g)) == start_of(*old(g)),
        !ok ==> *final(g) == *old(g),
{
    g.offer_draw(c)
}

/// Relies on `chess::Game::accept_draw`: a draw offered by the last action is
/// accepted while the game has no result, and the acceptance is recorded with
/// the board as it was; on refusal the game is left as it was.
#[verifier::external_body]
pub(crate) fn accept_draw(g: &mut chess::Game) -> (ok: bool)
    ensures
        result_of(*old(g)) is None && actions_of(*old(g)).len() > 0 && actions_of(*old(g)).last()
            == ActionKind::OfferDraw ==> ok,
        ok ==> actions_of(*final(g)) == actions_of(*old(g)).push(ActionKind::AcceptDraw),
        ok ==> position_of(*final(g)) == position_of(*old(g)),
        ok ==> start_of(*final(g)) == start_of(*old(g)),
        !ok ==> *final(g) == *old(g),
{
    g.accept_draw()
}

/// Relies on `chess::Game::result`: the way the game ended, if it has; with
/// no legal move left it is a checkmate or a stalemate.
#[verifier::external_body]
pub(crate) fn game_result(g: &chess::Game) -> (r: Option<EngineResult>)
    ensures
        r == result_of(*g),
        legal_list(position_of(*g)).len() == 0 ==> r == Some(dead_end_result(*g)),
        legal_list(position_of(*g)).len() == 0 ==> r == Some(EngineResult::Stalemate) || r == Some(
            EngineResult::WhiteCheckmates,
        ) || r == Some(EngineResult::BlackCheckmates),
{
    match g.result() {
        Some(chess::GameResult::WhiteCheckmates) => Some(EngineResult::WhiteCheckmates),
        Some(chess::GameResult::WhiteResigns) => Some(EngineResult::WhiteResigns),
        Some(chess::GameResult::BlackCheckmates) => Some(EngineResult::BlackCheckmates),
        Some(chess::GameResult::BlackResigns) => Some(EngineResult::BlackResigns),
        Some(chess::GameResult::Stalemate) => Some(EngineResult::Stalemate),
        Some(chess::GameResult::DrawAccepted) => Some(EngineResult::DrawAccepted),
        Some(chess::GameResult::DrawDeclared) => Some(EngineResult::DrawDeclared),
        None => None,
    }
}

/// Relies on `rand::thread_rng`: a handle on the calling thread's generator.
#[verifier::external_body]
pub(crate) fn new_rng() -> rand::rngs::ThreadRng {
    rand::thread_rng()
}

/// Relies on `rand::Rng::gen_range` over `0..k`: a value in the half-open
/// range; it panics on an empty range, which `requires` rules out.
#[verifier::external_body]
pub(crate) fn random_index(rng: &mut rand::rngs::ThreadRng, k: usize) -> (i: usize)
    requires
        0 < k,
    ensures
        i < k,
{
    rng.gen_range(0..k)
}

} // verus!
