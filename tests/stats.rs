use blackjack::hand::Outcome;
use blackjack::stats::{RunStats, TotalRunStats};

fn run(wins: usize, losses: usize, pushes: usize, credits: isize) -> RunStats {
    let mut r = RunStats::new();
    for _ in 0..wins {
        r.record_match_end(Outcome::Win);
    }
    for _ in 0..losses {
        r.record_match_end(Outcome::Loss);
    }
    for _ in 0..pushes {
        r.record_match_end(Outcome::Push);
    }
    r.record_credits(credits);
    r
}

#[test]
fn run_stats_count_each_outcome() {
    let r = run(6, 3, 1, 120);
    assert_eq!(r.num_games(), 10);
    assert_eq!(r.wins(), 6);
    assert_eq!(r.losses(), 3);
    assert_eq!(r.pushes(), 1);
    assert_eq!(r.remaining_credits(), 120);
}

#[test]
fn new_run_stats_are_empty() {
    let r = RunStats::new();
    assert_eq!(r.num_games(), 0);
    assert_eq!(r.wins() + r.losses() + r.pushes(), 0);
    assert_eq!(r.remaining_credits(), 0);
}

#[test]
fn two_runs_merge_into_totals() {
    let mut total = TotalRunStats::new(100);
    let first = run(6, 3, 1, 120);
    let second = run(4, 5, 1, 80);
    assert!(total.has_room_for(&first));
    total.add_run(first);
    assert!(total.has_room_for(&second));
    total.add_run(second);
    assert_eq!(total.num_runs(), 2);
    assert_eq!(total.num_games(), 20);
    assert_eq!(total.wins(), 10);
    assert_eq!(total.losses(), 8);
    assert_eq!(total.pushes(), 2);
    assert_eq!(total.total_credits(), 200);
    assert_eq!(total.num_walk_away_with_more(), 1);
    assert_eq!(total.starting_credits(), 100);
}

#[test]
fn ending_level_is_not_ahead() {
    let mut total = TotalRunStats::new(100);
    total.add_run(run(1, 1, 0, 100));
    assert_eq!(total.num_walk_away_with_more(), 0);
    total.add_run(run(1, 0, 0, 101));
    assert_eq!(total.num_walk_away_with_more(), 1);
}

#[test]
fn merge_order_does_not_matter() {
    let runs = [(6, 3, 1, 120), (4, 5, 1, 80), (0, 2, 0, 0), (9, 0, 0, 150)];
    let mut forward = TotalRunStats::new(100);
    for (w, l, p, c) in runs.iter() {
        forward.add_run(run(*w, *l, *p, *c));
    }
    let mut backward = TotalRunStats::new(100);
    for (w, l, p, c) in runs.iter().rev() {
        backward.add_run(run(*w, *l, *p, *c));
    }
    assert_eq!(forward.num_games(), backward.num_games());
    assert_eq!(forward.wins(), backward.wins());
    assert_eq!(forward.losses(), backward.losses());
    assert_eq!(forward.pushes(), backward.pushes());
    assert_eq!(forward.total_credits(), backward.total_credits());
    assert_eq!(forward.num_walk_away_with_more(), backward.num_walk_away_with_more());
    assert_eq!(forward.num_walk_away_with_more(), 2);
}

#[test]
fn totals_report_when_a_run_would_overflow() {
    let mut total = TotalRunStats::new(0);
    total.add_run(run(0, 0, 0, isize::MAX));
    assert!(!total.has_room_for(&run(0, 0, 0, 1)));
    assert!(total.has_room_for(&run(0, 0, 0, -1)));
}
