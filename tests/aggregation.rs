use game_sampler::{
    aggregate, classify, decide_step, AggregateReport, EngineResult, Outcome, Status, Step, TrialResult,
};

fn tr(outcome: Outcome, ply_count: usize) -> TrialResult {
    TrialResult { outcome, ply_count }
}

/// A scripted rules engine: the positions a trial observes, one per
/// iteration, and the result it reports once the trial stops.
struct StubTrial {
    observations: Vec<(Status, u32)>,
    final_result: EngineResult,
}

fn run_stub(stub: &StubTrial) -> TrialResult {
    let mut actions: usize = 0;
    for &(status, pieces) in &stub.observations {
        match decide_step(status, pieces, actions) {
            Step::Finished => break,
            Step::ForceDraw => {
                // the draw offer and its acceptance
                actions += 2;
                break;
            }
            Step::Play => actions += 1,
        }
    }
    TrialResult { outcome: classify(stub.final_result), ply_count: actions }
}

#[test]
fn empty_batch_counts_nothing() {
    let r = aggregate(&vec![]);
    assert_eq!(r, AggregateReport { white_wins: 0, black_wins: 0, draws: 0, stalemates: 0 });
    assert_eq!(r, AggregateReport::new());
}

#[test]
fn counts_add_up_to_population() {
    let results = vec![
        tr(Outcome::WhiteWin, 10),
        tr(Outcome::Draw, 1002),
        tr(Outcome::Draw, 33),
        tr(Outcome::BlackWin, 71),
        tr(Outcome::Stalemate, 90),
        tr(Outcome::WhiteWin, 12),
    ];
    let r = aggregate(&results);
    assert_eq!(r, AggregateReport { white_wins: 2, black_wins: 1, draws: 2, stalemates: 1 });
    assert_eq!(r.white_wins + r.black_wins + r.draws + r.stalemates, results.len());
}

#[test]
fn record_counts_one_outcome() {
    let mut r = AggregateReport::new();
    r.record(Outcome::Stalemate);
    r.record(Outcome::BlackWin);
    r.record(Outcome::Stalemate);
    assert_eq!(r, AggregateReport { white_wins: 0, black_wins: 1, draws: 0, stalemates: 2 });
}

#[test]
fn one_worker_and_many_workers_agree() {
    let results: Vec<TrialResult> = (0..37)
        .map(|i| {
            let outcome = match i % 5 {
                0 => Outcome::WhiteWin,
                1 => Outcome::BlackWin,
                2 | 3 => Outcome::Draw,
                _ => Outcome::Stalemate,
            };
            tr(outcome, i)
        })
        .collect();
    let whole = aggregate(&results);
    for workers in [1usize, 2, 3, 4, 8, 37] {
        let chunk = (results.len() + workers - 1) / workers;
        let mut merged = AggregateReport::new();
        // merge the private counts in reverse order of the chunks
        for part in results.chunks(chunk).rev() {
            merged = merged.merge(&aggregate(&part.to_vec()));
        }
        assert_eq!(merged, whole);
    }
    assert_eq!(whole, AggregateReport { white_wins: 8, black_wins: 8, draws: 14, stalemates: 7 });
}

#[test]
fn four_scripted_trials_end_to_end() {
    // trial 1: White mates after a few moves
    let mut t1 = vec![(Status::Ongoing, 32); 23];
    t1.push((Status::Checkmate, 30));
    // trial 2: stalemate
    let mut t2 = vec![(Status::Ongoing, 32); 60];
    t2.push((Status::Stalemate, 4));
    // trial 3: only the two kings are left
    let mut t3 = vec![(Status::Ongoing, 32); 140];
    t3.push((Status::Ongoing, 2));
    // trial 4: the game shuffles on until the action cap
    let t4 = vec![(Status::Ongoing, 12); 1200];
    let stubs = [
        StubTrial { observations: t1, final_result: EngineResult::WhiteCheckmates },
        StubTrial { observations: t2, final_result: EngineResult::Stalemate },
        StubTrial { observations: t3, final_result: EngineResult::DrawAccepted },
        StubTrial { observations: t4, final_result: EngineResult::DrawAccepted },
    ];
    let results: Vec<_> = stubs.iter().map(run_stub).collect();
    assert_eq!(results[0], tr(Outcome::WhiteWin, 23));
    assert_eq!(results[1], tr(Outcome::Stalemate, 60));
    assert_eq!(results[2], tr(Outcome::Draw, 142));
    assert_eq!(results[3], tr(Outcome::Draw, 1002));
    assert_eq!(aggregate(&results), AggregateReport { white_wins: 1, black_wins: 0, draws: 2, stalemates: 1 });
}

#[test]
fn any_completion_order_gives_the_same_counts() {
    let results = vec![
        tr(Outcome::Draw, 1002),
        tr(Outcome::WhiteWin, 31),
        tr(Outcome::Stalemate, 77),
        tr(Outcome::BlackWin, 48),
        tr(Outcome::Draw, 140),
        tr(Outcome::WhiteWin, 9),
    ];
    let expected = AggregateReport { white_wins: 2, black_wins: 1, draws: 2, stalemates: 1 };
    assert_eq!(aggregate(&results), expected);
    let mut reversed = results.clone();
    reversed.reverse();
    assert_eq!(aggregate(&reversed), expected);
    for k in 1..results.len() {
        let mut rotated = results.clone();
        rotated.rotate_left(k);
        assert_eq!(aggregate(&rotated), expected);
    }
}
