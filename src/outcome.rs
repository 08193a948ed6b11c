use vstd::prelude::*;

verus! {

/// Number of recorded actions after which a trial is cut short by a forced draw.
pub const ACTION_CAP: usize = 1000;

/// The four-way classification of a finished trial.
#[derive(Clone, Copy, Debug, PartialEq, Eq, Structural)]
pub enum Outcome {
    WhiteWin,
    BlackWin,
    Draw,
    Stalemate,
}

/// The rules engine's own vocabulary for a concluded game.
#[derive(Clone, Copy, Debug, PartialEq, Eq, Structural)]
pub enum EngineResult {
    WhiteCheckmates,
    WhiteResigns,
    BlackCheckmates,
    BlackResigns,
    Stalemate,
    DrawAccepted,
    DrawDeclared,
}

/// What the rules engine reports about the position on the board.
#[derive(Clone, Copy, Debug, PartialEq, Eq, Structural)]
pub enum Status {
    Ongoing,
    Stalemate,
    Checkmate,
}

/// What a trial does next, given what it observed this iteration.
#[derive(Clone, Copy, Debug, PartialEq, Eq, Structural)]
pub enum Step {
    /// The engine already concluded the game.
    Finished,
    /// A heuristic ends the game through a draw offer that is accepted.
    ForceDraw,
    /// Play one more random legal move.
    Play,
}

/// One classified trial: its outcome and the number of actions it recorded.
#[derive(Clone, Copy, Debug, PartialEq, Eq, Structural)]
pub struct TrialResult {
    pub outcome: Outcome,
    pub ply_count: usize,
}

/// The classification table: a decisive result goes to the side it favours,
/// a stalemate stays a stalemate, and every accepted or declared draw is a draw.
pub open spec fn outcome_of(r: EngineResult) -> Outcome {
    match r {
        EngineResult::WhiteCheckmates => Outcome::WhiteWin,
        EngineResult::BlackResigns => Outcome::WhiteWin,
        EngineResult::BlackCheckmates => Outcome::BlackWin,
        EngineResult::WhiteResigns => Outcome::BlackWin,
        EngineResult::Stalemate => Outcome::Stalemate,
        EngineResult::DrawAccepted => Outcome::Draw,
        EngineResult::DrawDeclared => Outcome::Draw,
    }
}

/// The early-termination policy: a concluded game stops, two bare kings or a
/// trial that has used up its action budget end in a forced draw, anything
/// else plays on.
pub open spec fn step_of(status: Status, pieces: u32, actions: usize) -> Step {
    if status != Status::Ongoing {
        Step::Finished
    } else if pieces == 2 || actions >= ACTION_CAP {
        Step::ForceDraw
    } else {
        Step::Play
    }
}

/// Collapses the engine's result into an [`Outcome`].
pub fn classify(r: EngineResult) -> (o: Outcome)
    ensures
        o == outcome_of(r),
{
    match r {
        EngineResult::WhiteCheckmates => Outcome::WhiteWin,
        EngineResult::BlackResigns => Outcome::WhiteWin,
        EngineResult::BlackCheckmates => Outcome::BlackWin,
        EngineResult::WhiteResigns => Outcome::BlackWin,
        EngineResult::Stalemate => Outcome::Stalemate,
        EngineResult::DrawAccepted => Outcome::Draw,
        EngineResult::DrawDeclared => Outcome::Draw,
    }
}

/// Decides the next step of a trial from the position's status, the number
/// of pieces on the board and the number of actions recorded so far.
pub fn decide_step(status: Status, pieces: u32, actions: usize) -> (s: Step)
    ensures
        s == step_of(status, pieces, actions),
{
    match status {
        Status::Ongoing => {
            if pieces == 2 || actions >= ACTION_CAP {
                Step::ForceDraw
            } else {
                Step::Play
            }
        },
        _ => Step::Finished,
    }
}

/// Two bare kings on a board still in play always end the trial in a forced
/// draw, whichever side is to move and however many actions came before; the
/// accepted draw that closes it is classified as a draw.
pub proof fn lemma_bare_kings_draw(actions: usize)
    ensures
        step_of(Status::Ongoing, 2, actions) == Step::ForceDraw,
        outcome_of(EngineResult::DrawAccepted) == Outcome::Draw,
{
}

/// A trial still in play that has recorded `ACTION_CAP` actions always ends
/// in a forced draw, whatever is on the board; the accepted draw that closes
/// it is classified as a draw.
pub proof fn lemma_action_cap_draw(pieces: u32)
    ensures
        step_of(Status::Ongoing, pieces, ACTION_CAP) == Step::ForceDraw,
        outcome_of(EngineResult::DrawAccepted) == Outcome::Draw,
{
}

} // verus!
