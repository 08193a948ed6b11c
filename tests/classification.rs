use game_sampler::{classify, decide_step, EngineResult, Outcome, Status, Step, ACTION_CAP};

#[test]
fn classification_table_holds_for_every_result() {
    let table = [
        (EngineResult::WhiteCheckmates, Outcome::WhiteWin),
        (EngineResult::WhiteResigns, Outcome::BlackWin),
        (EngineResult::BlackCheckmates, Outcome::BlackWin),
        (EngineResult::BlackResigns, Outcome::WhiteWin),
        (EngineResult::Stalemate, Outcome::Stalemate),
        (EngineResult::DrawAccepted, Outcome::Draw),
        (EngineResult::DrawDeclared, Outcome::Draw),
    ];
    for (result, expected) in table {
        assert_eq!(classify(result), expected);
        // the same input always gives the same output
        assert_eq!(classify(result), classify(result));
    }
}

#[test]
fn finished_position_stops_the_trial() {
    assert_eq!(decide_step(Status::Checkmate, 20, 57), Step::Finished);
    assert_eq!(decide_step(Status::Stalemate, 3, 80), Step::Finished);
    // a natural end takes precedence over both heuristics
    assert_eq!(decide_step(Status::Stalemate, 2, ACTION_CAP), Step::Finished);
}

#[test]
fn bare_kings_force_a_draw() {
    assert_eq!(decide_step(Status::Ongoing, 2, 0), Step::ForceDraw);
    assert_eq!(decide_step(Status::Ongoing, 2, 1), Step::ForceDraw);
    assert_eq!(decide_step(Status::Ongoing, 2, 431), Step::ForceDraw);
    assert_eq!(classify(EngineResult::DrawAccepted), Outcome::Draw);
}

#[test]
fn action_cap_forces_a_draw() {
    assert_eq!(ACTION_CAP, 1000);
    assert_eq!(decide_step(Status::Ongoing, 32, 1000), Step::ForceDraw);
    assert_eq!(decide_step(Status::Ongoing, 5, 1000), Step::ForceDraw);
    assert_eq!(decide_step(Status::Ongoing, 32, 999), Step::Play);
}

#[test]
fn ongoing_game_plays_on() {
    assert_eq!(decide_step(Status::Ongoing, 32, 0), Step::Play);
    assert_eq!(decide_step(Status::Ongoing, 3, 500), Step::Play);
}
