use gurtle::entry::{Entry, SubmittedEntry};
use gurtle::ranking::{rank_position, top_scores};
use gurtle::store::{ScoreBoard, SubmitOutcome};

const NOW_SECS: i64 = 1_700_000_000;
const NOW_NANOS: u32 = 123_456_789;

fn utc_string(secs: i64, nanos: u32) -> String {
    chrono::DateTime::<chrono::Utc>::from_timestamp(secs, nanos)
        .unwrap()
        .to_string()
}

fn entry(name: &str, score: i32, secs: i64) -> Entry {
    Entry {
        name: name.to_string(),
        score,
        datetime: utc_string(secs, 0),
    }
}

fn valid_hash(name: &str, score: i32) -> String {
    sha256::digest(format!("{}TheTurtle{}", name, score))
}

#[test]
fn valid_submission_is_stored() {
    let mut board = ScoreBoard::new();
    let sub = SubmittedEntry {
        name: "Ann".to_string(),
        score: 42,
        hash: valid_hash("Ann", 42),
    };
    let outcome = board.submit_score(&sub, NOW_SECS, NOW_NANOS);
    assert!(matches!(outcome, SubmitOutcome::Added));
    assert_eq!(outcome.status_code(), 200);
    assert_eq!(outcome.body(), "Score added");
    assert_eq!(board.entries.len(), 1);
    assert_eq!(board.entries[0].name, "Ann");
    assert_eq!(board.entries[0].score, 42);
    assert_eq!(board.entries[0].datetime, utc_string(NOW_SECS, NOW_NANOS));
    let listed = board.get_scores("alltime", NOW_SECS, NOW_NANOS);
    assert_eq!(listed.len(), 1);
    assert_eq!(listed[0].name, "Ann");
    assert_eq!(listed[0].score, 42);
    assert_eq!(listed[0].datetime, utc_string(NOW_SECS, NOW_NANOS));
}

#[test]
fn bogus_hash_is_rejected() {
    let mut board = ScoreBoard::new();
    let sub = SubmittedEntry {
        name: "Ann".to_string(),
        score: 42,
        hash: "bogus".to_string(),
    };
    let outcome = board.submit_score(&sub, NOW_SECS, NOW_NANOS);
    assert!(matches!(outcome, SubmitOutcome::InvalidHash));
    assert_eq!(outcome.status_code(), 403);
    assert!(outcome.body().contains("Invalid hash"));
    assert_eq!(board.entries.len(), 0);
}

#[test]
fn almost_valid_hash_is_rejected() {
    let mut board = ScoreBoard::new();
    let mut hash = valid_hash("Ann", 42);
    // flip the last hex digit
    let last = hash.pop().unwrap();
    hash.push(if last == '0' { '1' } else { '0' });
    let sub = SubmittedEntry {
        name: "Ann".to_string(),
        score: 42,
        hash,
    };
    let outcome = board.submit_score(&sub, NOW_SECS, NOW_NANOS);
    assert_eq!(outcome.status_code(), 403);
    assert_eq!(board.entries.len(), 0);
}

#[test]
fn submission_is_not_idempotent() {
    let mut board = ScoreBoard::new();
    let sub = SubmittedEntry {
        name: "Bo".to_string(),
        score: 7,
        hash: valid_hash("Bo", 7),
    };
    let first = board.submit_score(&sub, NOW_SECS, NOW_NANOS);
    let second = board.submit_score(&sub, NOW_SECS + 5, NOW_NANOS);
    assert!(matches!(first, SubmitOutcome::Added));
    assert!(matches!(second, SubmitOutcome::Added));
    assert_eq!(board.entries.len(), 2);
    assert_eq!(board.entries[0].name, "Bo");
    assert_eq!(board.entries[1].name, "Bo");
    assert_eq!(board.entries[0].score, 7);
    assert_eq!(board.entries[1].score, 7);
}

#[test]
fn negative_score_hash_round_trip() {
    let mut board = ScoreBoard::new();
    let sub = SubmittedEntry {
        name: "Neg".to_string(),
        score: -17,
        hash: valid_hash("Neg", -17),
    };
    let outcome = board.submit_score(&sub, NOW_SECS, NOW_NANOS);
    assert!(matches!(outcome, SubmitOutcome::Added));
    assert_eq!(board.entries[0].score, -17);
}

#[test]
fn top_scores_sorted_and_limited_to_ten() {
    let scores = [30, 5, 70, 10, 110, 90, 50, 20, 100, 60, 40, 80];
    let mut entries = Vec::new();
    for (i, s) in scores.iter().enumerate() {
        entries.push(entry(&format!("p{}", i), *s, NOW_SECS - 100));
    }
    let top = top_scores(entries, "alltime", NOW_SECS, NOW_NANOS);
    assert_eq!(top.len(), 10);
    let got: Vec<i32> = top.iter().map(|e| e.score).collect();
    assert_eq!(got, vec![5, 10, 20, 30, 40, 50, 60, 70, 80, 90]);
}

#[test]
fn top_scores_keeps_duplicates_and_short_pools() {
    let entries = vec![
        entry("a", 3, NOW_SECS - 1),
        entry("b", 1, NOW_SECS - 2),
        entry("c", 3, NOW_SECS - 3),
    ];
    let top = top_scores(entries, "alltime", NOW_SECS, NOW_NANOS);
    let got: Vec<i32> = top.iter().map(|e| e.score).collect();
    assert_eq!(got, vec![1, 3, 3]);
}

#[test]
fn unrecognized_duration_lists_everything() {
    // entries far older than any window still match an unknown selector
    let entries = vec![
        entry("old", 2, 0),
        entry("ancient", 1, -1_000_000),
        entry("fresh", 3, NOW_SECS),
    ];
    let top = top_scores(entries, "bogus", NOW_SECS, NOW_NANOS);
    let got: Vec<i32> = top.iter().map(|e| e.score).collect();
    assert_eq!(got, vec![1, 2, 3]);
}

#[test]
fn weekly_window_excludes_old_entries() {
    let ten_days_ago = NOW_SECS - 10 * 86_400;
    let one_day_ago = NOW_SECS - 86_400;
    let entries = vec![
        entry("old", 1, ten_days_ago),
        entry("recent", 2, one_day_ago),
    ];
    let top = top_scores(entries, "weekly", NOW_SECS, NOW_NANOS);
    assert_eq!(top.len(), 1);
    assert_eq!(top[0].name, "recent");
}

#[test]
fn monthly_window_reaches_four_weeks_back() {
    let ten_days_ago = NOW_SECS - 10 * 86_400;
    let forty_days_ago = NOW_SECS - 40 * 86_400;
    let entries = vec![
        entry("outside", 1, forty_days_ago),
        entry("inside", 2, ten_days_ago),
    ];
    let top = top_scores(entries, "monthly", NOW_SECS, NOW_NANOS);
    assert_eq!(top.len(), 1);
    assert_eq!(top[0].name, "inside");
}

#[test]
fn weekly_window_is_inclusive_at_the_bound() {
    let at_bound = Entry {
        name: "edge".to_string(),
        score: 9,
        datetime: utc_string(NOW_SECS - 7 * 86_400, NOW_NANOS),
    };
    let just_before = Entry {
        name: "late".to_string(),
        score: 8,
        datetime: utc_string(NOW_SECS - 7 * 86_400 - 1, NOW_NANOS),
    };
    let top = top_scores(vec![at_bound, just_before], "weekly", NOW_SECS, NOW_NANOS);
    assert_eq!(top.len(), 1);
    assert_eq!(top[0].name, "edge");
}

#[test]
fn position_on_empty_store_is_one() {
    let board = ScoreBoard::new();
    let p = board.get_position("alltime", 100, NOW_SECS, NOW_NANOS);
    assert_eq!(p.position, 1);
}

#[test]
fn position_on_empty_matching_set_is_one() {
    // a weekly query over entries that all fall outside the window
    let entries = vec![entry("old", 500, NOW_SECS - 30 * 86_400)];
    let p = rank_position(&entries, "weekly", 100, NOW_SECS, NOW_NANOS);
    assert_eq!(p, 1);
}

#[test]
fn position_counts_scores_at_least_threshold() {
    let entries = vec![
        entry("a", 50, NOW_SECS - 10),
        entry("b", 60, NOW_SECS - 10),
        entry("c", 100, NOW_SECS - 10),
        entry("d", 150, NOW_SECS - 10),
    ];
    let p = rank_position(&entries, "alltime", 100, NOW_SECS, NOW_NANOS);
    assert_eq!(p, 3);
}

#[test]
fn position_respects_the_window() {
    let entries = vec![
        entry("in", 100, NOW_SECS - 86_400),
        entry("out", 100, NOW_SECS - 10 * 86_400),
    ];
    let p = rank_position(&entries, "weekly", 100, NOW_SECS, NOW_NANOS);
    assert_eq!(p, 2);
    let p_all = rank_position(&entries, "alltime", 100, NOW_SECS, NOW_NANOS);
    assert_eq!(p_all, 3);
}

#[test]
fn store_error_outcome_reports_the_store_text() {
    let outcome = SubmitOutcome::StoreError("write refused".to_string());
    assert_eq!(outcome.status_code(), 500);
    assert_eq!(outcome.body(), "write refused");
}
