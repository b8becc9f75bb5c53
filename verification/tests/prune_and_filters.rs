use container_broker::prune::{
    combine_prune, default_filter, filter_pairs, parse_duration, prune_outcome, prune_plan,
    summarize_prune, PruneCandidate, PruneError, PruneFilter, PruneResult,
};

#[test]
fn duration_grammar() {
    assert_eq!(parse_duration("30s"), Some(30));
    assert_eq!(parse_duration("10m"), Some(600));
    assert_eq!(parse_duration("1h"), Some(3600));
    assert_eq!(parse_duration("2d"), Some(172800));
    assert_eq!(parse_duration("0s"), Some(0));
    assert_eq!(parse_duration("120m"), Some(7200));
    assert_eq!(parse_duration(""), None);
    assert_eq!(parse_duration("m"), None);
    assert_eq!(parse_duration("10"), None);
    assert_eq!(parse_duration("10x"), None);
    assert_eq!(parse_duration("x5m"), None);
    assert_eq!(parse_duration("999999999999999999999d"), None);
}

#[test]
fn default_filter_is_one_hour_no_dangling() {
    let f = default_filter();
    assert_eq!(f.max_age, "1h");
    assert!(!f.include_dangling);
    let pairs = filter_pairs(&f);
    assert_eq!(pairs.len(), 2);
    assert_eq!(pairs[0].0, "until");
    assert_eq!(pairs[0].1, vec!["1h"]);
    assert_eq!(pairs[1].0, "dangling");
    assert_eq!(pairs[1].1, vec!["false"]);
}

#[test]
fn dangling_pair_follows_filter() {
    let f = PruneFilter { max_age: String::from("10m"), include_dangling: true };
    let pairs = filter_pairs(&f);
    assert_eq!(pairs[0].1, vec!["10m"]);
    assert_eq!(pairs[1].1, vec!["true"]);
}

fn candidate(id: &str, age_seconds: i64, now: i64, size: u64, dangling: bool) -> PruneCandidate {
    PruneCandidate {
        id: String::from(id),
        created: now - age_seconds,
        size_bytes: size,
        dangling,
    }
}

#[test]
fn ten_minute_filter_removes_only_the_older_image() {
    let now: i64 = 1_700_000_000;
    let images = vec![
        candidate("img-5min", 5 * 60, now, 100, false),
        candidate("img-20min", 20 * 60, now, 250, false),
    ];
    let filter = PruneFilter { max_age: String::from("10m"), include_dangling: false };
    let plan = prune_plan(&images, now, &filter).expect("the filter is well-formed");
    assert_eq!(plan.remove_ids, vec!["img-20min"]);
    assert_eq!(plan.result.removed_count, 1);
    assert_eq!(plan.result.bytes_reclaimed, 250);
}

#[test]
fn dangling_resources_go_only_when_asked() {
    let now: i64 = 10_000;
    let images = vec![
        candidate("young-dangling", 60, now, 10, true),
        candidate("old", 7200, now, 20, false),
    ];
    let keep = PruneFilter { max_age: String::from("1h"), include_dangling: false };
    let plan = prune_plan(&images, now, &keep).expect("well-formed filter");
    assert_eq!(plan.remove_ids, vec!["old"]);

    let sweep = PruneFilter { max_age: String::from("1h"), include_dangling: true };
    let plan = prune_plan(&images, now, &sweep).expect("well-formed filter");
    assert_eq!(plan.remove_ids, vec!["young-dangling", "old"]);
    assert_eq!(plan.result.removed_count, 2);
    assert_eq!(plan.result.bytes_reclaimed, 30);
}

#[test]
fn malformed_age_filter_is_rejected() {
    let filter = PruneFilter { max_age: String::from("soon"), include_dangling: false };
    match prune_plan(&vec![], 0, &filter) {
        Err(PruneError::InvalidAgeFilter(age)) => assert_eq!(age, "soon"),
        _ => panic!("a malformed age must be rejected"),
    }
}

#[test]
fn prune_summary_counts_deleted_entries() {
    let r = summarize_prune(&Some(vec![String::from("a"), String::from("b")]), Some(4096));
    assert_eq!(r.removed_count, 2);
    assert_eq!(r.bytes_reclaimed, 4096);
    let r = summarize_prune(&None, None);
    assert_eq!(r.removed_count, 0);
    assert_eq!(r.bytes_reclaimed, 0);
}

#[test]
fn runtime_prune_failure_is_surfaced() {
    match prune_outcome(Err(String::from("daemon busy"))) {
        Err(PruneError::RuntimeFailure(cause)) => assert_eq!(cause, "daemon busy"),
        _ => panic!("a failed prune call must surface as a runtime failure"),
    }
    let ok = prune_outcome(Ok((Some(vec![String::from("x")]), None))).expect("call succeeded");
    assert_eq!(ok.removed_count, 1);
    assert_eq!(ok.bytes_reclaimed, 0);
}

#[test]
fn combined_prune_adds_with_saturation() {
    let a = PruneResult { removed_count: 2, bytes_reclaimed: u64::MAX - 1 };
    let b = PruneResult { removed_count: 3, bytes_reclaimed: 10 };
    let r = combine_prune(&a, &b);
    assert_eq!(r.removed_count, 5);
    assert_eq!(r.bytes_reclaimed, u64::MAX);
}
