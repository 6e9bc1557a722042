use fuzzy_finder::engine::{CasePolicy, MatchEngine, TickStatus, MAX_CANDIDATES};
use fuzzy_finder::query::QueryChange;

fn engine_with(candidates: &[&str]) -> MatchEngine {
    let mut engine = MatchEngine::new(CasePolicy::Smart);
    for candidate in candidates {
        assert!(engine.push(candidate.to_string()));
    }
    engine
}

fn settle(engine: &mut MatchEngine) -> bool {
    let mut changed = false;
    for _ in 0..1000 {
        let status = engine.tick(10);
        changed = changed || status.changed;
        if !status.running {
            return changed;
        }
    }
    panic!("the engine did not settle");
}

fn sorted(mut lines: Vec<String>) -> Vec<String> {
    lines.sort();
    lines
}

#[test]
fn new_engine_is_empty() {
    let engine = MatchEngine::new(CasePolicy::Smart);
    assert_eq!(engine.candidate_count(), 0);
    assert_eq!(engine.scanned_count(), 0);
    assert_eq!(engine.matched_count(), 0);
    assert_eq!(engine.reparse_count(), 0);
    assert_eq!(engine.extension_count(), 0);
    assert_eq!(engine.case_policy(), CasePolicy::Smart);
    assert_eq!(engine.snapshot(10), Vec::<String>::new());
}

#[test]
fn snapshot_accounts_for_every_candidate_once_nothing_runs() {
    let mut engine = engine_with(&["src/main.rs", "README.md", "src/lib.rs"]);
    assert_eq!(engine.scanned_count(), 0);
    engine.set_query("src", "");
    assert_eq!(engine.scanned_count(), 0);
    settle(&mut engine);
    assert_eq!(engine.scanned_count(), 3);
    assert_eq!(engine.scanned_count(), engine.candidate_count());
    assert_eq!(engine.matched_count(), 2);

    // New candidates are not accounted for before a tick has settled again.
    assert!(engine.push("src/lib2.rs".to_string()));
    assert!(engine.push("notes.txt".to_string()));
    assert_eq!(engine.scanned_count(), 3);
    settle(&mut engine);
    assert_eq!(engine.scanned_count(), 5);
    assert_eq!(engine.matched_count(), 3);
}

#[test]
fn settled_snapshot_is_that_of_the_query_in_force() {
    let mut engine = engine_with(&["src/main.rs", "README.md", "src/lib.rs"]);
    let queries = ["s", "sr", "README", "lib", "", "src/m"];
    let expected = [2, 2, 1, 1, 3, 1];
    let mut prior = "";
    for (query, count) in queries.iter().zip(expected) {
        engine.set_query(query, prior);
        prior = query;
        // The first tick that reports nothing running shows the new query.
        loop {
            if !engine.tick(10).running {
                break;
            }
        }
        assert_eq!(engine.matched_count(), count);
        assert_eq!(engine.scanned_count(), 3);
    }
}

#[test]
fn impatient_ticks_settle_on_the_query_in_force() {
    let candidates: Vec<String> =
        (0..30_000).map(|i| format!("dir{}/file{}.rs", i % 100, i)).collect();
    let queries = ["f", "fi", "file1", "dir7", "dir77/", "x", "", "rs"];

    let mut engine = MatchEngine::new(CasePolicy::Smart);
    for candidate in &candidates {
        assert!(engine.push(candidate.clone()));
    }
    let mut prior = "";
    for query in queries {
        engine.set_query(query, prior);
        prior = query;
        // Ticks that hardly wait: most of them find the workers busy.
        let mut ticks = 0u32;
        while engine.tick(0).running {
            ticks += 1;
            assert!(ticks < 10_000_000);
        }
        assert_eq!(engine.scanned_count(), 30_000);

        let mut fresh = MatchEngine::new(CasePolicy::Smart);
        for candidate in &candidates {
            assert!(fresh.push(candidate.clone()));
        }
        fresh.set_query(query, "");
        settle(&mut fresh);
        assert_eq!(engine.matched_count(), fresh.matched_count());
        assert_eq!(sorted(engine.snapshot(30_000)), sorted(fresh.snapshot(30_000)));
    }
}

#[test]
fn capacity_is_what_a_matching_run_goes_through() {
    assert_eq!(MAX_CANDIDATES, u32::MAX - 32);
}

#[test]
fn push_counts_candidates() {
    let engine = engine_with(&["a", "b", "a"]);
    assert_eq!(engine.candidate_count(), 3);
}

#[test]
fn push_is_not_shown_before_a_tick() {
    let engine = engine_with(&["src/main.rs", "README.md"]);
    assert_eq!(engine.matched_count(), 0);
    assert_eq!(engine.snapshot(10), Vec::<String>::new());
}

#[test]
fn empty_query_shows_every_candidate() {
    let mut engine = engine_with(&["src/main.rs", "README.md", "src/lib.rs"]);
    assert!(settle(&mut engine));
    assert_eq!(engine.matched_count(), 3);
    assert_eq!(
        sorted(engine.snapshot(10)),
        vec!["README.md".to_string(), "src/lib.rs".to_string(), "src/main.rs".to_string()]
    );
}

#[test]
fn query_src_finds_both_source_files() {
    let mut engine = engine_with(&["src/main.rs", "README.md", "src/lib.rs"]);
    assert_eq!(engine.set_query("src", ""), QueryChange::Extended);
    settle(&mut engine);
    let top = engine.snapshot(10);
    assert!(top.contains(&"src/main.rs".to_string()));
    assert!(top.contains(&"src/lib.rs".to_string()));
    assert!(!top.contains(&"README.md".to_string()));
    assert_eq!(top.len(), 2);
    assert_eq!(engine.matched_count(), 2);
}

#[test]
fn snapshot_returns_only_pushed_candidates_and_at_most_limit() {
    let pushed = ["alpha", "beta", "gamma", "delta", "alphabet"];
    let mut engine = engine_with(&pushed[..3]);
    engine.set_query("a", "");
    settle(&mut engine);
    for candidate in &pushed[3..] {
        assert!(engine.push(candidate.to_string()));
    }
    settle(&mut engine);
    for limit in 0..7 {
        let top = engine.snapshot(limit);
        assert!(top.len() <= limit);
        assert_eq!(top.len(), limit.min(5));
        for line in &top {
            assert!(pushed.contains(&line.as_str()));
        }
    }
}

#[test]
fn snapshot_is_a_prefix_of_a_longer_snapshot() {
    let mut engine = engine_with(&["aa", "ab", "ba", "bb", "a"]);
    engine.set_query("a", "");
    settle(&mut engine);
    let all = engine.snapshot(100);
    assert_eq!(all.len(), 4);
    assert_eq!(engine.snapshot(2), all[..2].to_vec());
    assert_eq!(engine.snapshot(0), Vec::<String>::new());
    assert_eq!(engine.snapshot(4), all);
}

#[test]
fn snapshot_does_not_change_the_engine() {
    let mut engine = engine_with(&["src/main.rs", "src/lib.rs"]);
    engine.set_query("src", "");
    settle(&mut engine);
    let first = engine.snapshot(10);
    let second = engine.snapshot(10);
    assert_eq!(first, second);
    assert_eq!(engine.matched_count(), 2);
    assert_eq!(engine.candidate_count(), 2);
}

#[test]
fn better_match_comes_first() {
    let mut engine = engine_with(&["xxlxxixxb", "lib"]);
    engine.set_query("lib", "");
    settle(&mut engine);
    assert_eq!(engine.snapshot(10), vec!["lib".to_string(), "xxlxxixxb".to_string()]);
}

#[test]
fn set_query_with_same_query_is_a_no_op() {
    let mut engine = engine_with(&["src/main.rs", "README.md", "src/lib.rs"]);
    engine.set_query("src", "");
    settle(&mut engine);
    let before = engine.snapshot(10);
    assert_eq!(engine.reparse_count(), 1);

    assert_eq!(engine.set_query("src", "src"), QueryChange::Unchanged);
    assert_eq!(engine.reparse_count(), 1);
    assert_eq!(engine.extension_count(), 1);
    assert_eq!(engine.snapshot(10), before);

    // The next tick has nothing to do: the repeated call left no work behind.
    let status = engine.tick(10);
    assert_eq!(status, TickStatus { changed: false, running: false });
    assert_eq!(engine.snapshot(10), before);
}

#[test]
fn set_query_counts_reparses_and_hints() {
    let mut engine = engine_with(&["src/main.rs"]);
    assert_eq!(engine.set_query("s", ""), QueryChange::Extended);
    assert_eq!((engine.reparse_count(), engine.extension_count()), (1, 1));
    assert_eq!(engine.set_query("sr", "s"), QueryChange::Extended);
    assert_eq!((engine.reparse_count(), engine.extension_count()), (2, 2));
    assert_eq!(engine.set_query("lib", "sr"), QueryChange::Replaced);
    assert_eq!((engine.reparse_count(), engine.extension_count()), (3, 2));
    assert_eq!(engine.set_query("lib", "lib"), QueryChange::Unchanged);
    assert_eq!((engine.reparse_count(), engine.extension_count()), (3, 2));
}

#[test]
fn set_query_replaces_the_matches() {
    let mut engine = engine_with(&["src/main.rs", "README.md", "src/lib.rs"]);
    engine.set_query("src", "");
    settle(&mut engine);
    assert_eq!(engine.matched_count(), 2);
    engine.set_query("READ", "src");
    settle(&mut engine);
    assert_eq!(engine.snapshot(10), vec!["README.md".to_string()]);
}

#[test]
fn extension_hint_gives_the_matches_of_a_fresh_scan() {
    let candidates = ["src/main.rs", "README.md", "src/lib.rs", "tests/src.rs", "Cargo.toml"];

    let mut hinted = engine_with(&candidates);
    hinted.set_query("sr", "");
    settle(&mut hinted);
    assert_eq!(hinted.set_query("src/", "sr"), QueryChange::Extended);
    settle(&mut hinted);

    let mut scratch = engine_with(&candidates);
    scratch.set_query("zzz", "");
    settle(&mut scratch);
    assert_eq!(scratch.set_query("src/", "zzz"), QueryChange::Replaced);
    settle(&mut scratch);

    assert_eq!(hinted.extension_count(), 2);
    assert_eq!(scratch.extension_count(), 1);
    assert_eq!(sorted(hinted.snapshot(100)), sorted(scratch.snapshot(100)));
    assert_eq!(
        sorted(hinted.snapshot(100)),
        vec!["src/lib.rs".to_string(), "src/main.rs".to_string()]
    );
}

#[test]
fn candidate_pushed_after_the_query_is_matched_too() {
    let mut engine = engine_with(&["src/main.rs"]);
    engine.set_query("src", "");
    settle(&mut engine);
    assert_eq!(engine.matched_count(), 1);
    assert!(engine.push("src/lib.rs".to_string()));
    assert!(engine.push("README.md".to_string()));
    assert_eq!(engine.matched_count(), 1);
    assert!(settle(&mut engine));
    assert_eq!(
        sorted(engine.snapshot(10)),
        vec!["src/lib.rs".to_string(), "src/main.rs".to_string()]
    );
}

#[test]
fn tick_without_change_keeps_the_snapshot() {
    let mut engine = engine_with(&["src/main.rs", "src/lib.rs"]);
    engine.set_query("src", "");
    settle(&mut engine);
    let before = engine.snapshot(10);
    for _ in 0..5 {
        let status = engine.tick(10);
        assert!(!status.changed);
        assert!(!status.running);
        assert_eq!(engine.snapshot(10), before);
    }
}

#[test]
fn smart_case_ignores_case_for_lower_case_queries() {
    let mut engine = engine_with(&["README.md", "readme.txt"]);
    engine.set_query("readme", "");
    settle(&mut engine);
    assert_eq!(engine.matched_count(), 2);
    engine.set_query("README", "readme");
    settle(&mut engine);
    assert_eq!(engine.snapshot(10), vec!["README.md".to_string()]);
}

#[test]
fn ignore_case_matches_both_cases() {
    let mut engine = MatchEngine::new(CasePolicy::Ignore);
    assert!(engine.push("README.md".to_string()));
    assert!(engine.push("readme.txt".to_string()));
    engine.set_query("README", "");
    settle(&mut engine);
    assert_eq!(engine.matched_count(), 2);
}

#[test]
fn respect_case_matches_exact_case_only() {
    let mut engine = MatchEngine::new(CasePolicy::Respect);
    assert!(engine.push("README.md".to_string()));
    assert!(engine.push("readme.txt".to_string()));
    engine.set_query("readme", "");
    settle(&mut engine);
    assert_eq!(engine.snapshot(10), vec!["readme.txt".to_string()]);
}

#[test]
fn duplicate_candidates_are_kept_apart() {
    let mut engine = engine_with(&["same", "same"]);
    engine.set_query("same", "");
    settle(&mut engine);
    assert_eq!(engine.snapshot(10), vec!["same".to_string(), "same".to_string()]);
}
