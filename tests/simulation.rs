use game_sampler::{classify_game, play_out, run_batch, run_trial, AggregateReport, Outcome, ACTION_CAP};

#[test]
fn a_random_trial_ends_within_the_cap() {
    for _ in 0..20 {
        let t = run_trial();
        assert!(t.ply_count <= ACTION_CAP + 2);
        // the quickest checkmate takes four moves
        assert!(t.ply_count >= 4);
        if t.ply_count > ACTION_CAP {
            assert_eq!(t.outcome, Outcome::Draw);
        }
    }
}

#[test]
fn a_played_out_game_has_a_result() {
    for _ in 0..10 {
        let mut game = chess::Game::new();
        let mut rng = rand::thread_rng();
        play_out(&mut game, &mut rng);
        let result = game.result().expect("a played-out game has a result");
        let t = classify_game(&game);
        assert_eq!(t.ply_count, game.actions().len());
        assert!(t.ply_count <= ACTION_CAP + 2);
        let expected = match result {
            chess::GameResult::WhiteCheckmates | chess::GameResult::BlackResigns => Outcome::WhiteWin,
            chess::GameResult::BlackCheckmates | chess::GameResult::WhiteResigns => Outcome::BlackWin,
            chess::GameResult::Stalemate => Outcome::Stalemate,
            chess::GameResult::DrawAccepted | chess::GameResult::DrawDeclared => Outcome::Draw,
        };
        assert_eq!(t.outcome, expected);
    }
}

#[test]
fn a_batch_counts_every_trial() {
    let r = run_batch(16);
    assert_eq!(r.white_wins + r.black_wins + r.draws + r.stalemates, 16);
}

#[test]
fn an_empty_batch_is_all_zero() {
    assert_eq!(run_batch(0), AggregateReport::new());
}
