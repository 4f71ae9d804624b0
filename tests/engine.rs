use parrot::dispatch::{
    plan_for, playlist_order, reply_for, single_item_plan, AfterEntry, BulkRun, ListKind,
    Placement, Plan, PlaylistOrder, Reply, SinglePlan,
};
use parrot::error::PlayError;
use parrot::estimate::{calculate_time_until_play, QueuedItem, TimeToPlay};
use parrot::policy::{compare_domains, DomainPolicy, PolicyDecision};
use parrot::query::{Mode, QueryType};
use parrot::queue::{
    append, check_insert_index, force_skip_current, insert_at, jump_to_front, relocate_tail,
    rotate_tail,
};
use parrot::resolver::{classify_query, resolve_query, Resolution};
use parrot::store::GuildStore;
use parrot::text::{contains_text, same_text};

fn strs(v: &[&str]) -> Vec<String> {
    v.iter().map(|s| s.to_string()).collect()
}

fn policy(allowed: &[&str], banned: &[&str]) -> DomainPolicy {
    DomainPolicy {
        allowed_domains: strs(allowed),
        banned_domains: strs(banned),
    }
}

fn item(duration: Option<u64>, elapsed: u64) -> QueuedItem {
    QueuedItem {
        title: "t".to_string(),
        source_url: "https://example.com/v".to_string(),
        thumbnail_url: "https://example.com/t.png".to_string(),
        duration,
        elapsed,
    }
}

fn rejected(d: PolicyDecision) -> Option<String> {
    match d {
        PolicyDecision::Reject(s) => Some(s),
        PolicyDecision::Allow => None,
    }
}

#[test]
fn compare_domains_exact_and_subdomain() {
    assert!(compare_domains("example.com", "example.com"));
    assert!(compare_domains("example.com", "sub.example.com"));
    assert!(compare_domains("example.com", "a.b.example.com"));
    assert!(!compare_domains("example.com", "notexample.com"));
    assert!(!compare_domains("example.com", "example.org"));
    assert!(!compare_domains("sub.example.com", "example.com"));
}

#[test]
fn banned_domain_rejected_even_when_allowed() {
    let p = policy(&["example.com"], &["example.com"]);
    assert_eq!(rejected(p.evaluate("example.com")), Some("example.com".to_string()));
    assert_eq!(rejected(p.evaluate("m.example.com")), Some("m.example.com".to_string()));
}

#[test]
fn ban_list_disables_allow_list() {
    let p = policy(&["example.com"], &["bad.com"]);
    assert_eq!(rejected(p.evaluate("other.org")), None);
    assert_eq!(rejected(p.evaluate("example.com")), None);
}

#[test]
fn empty_ban_list_denies_unlisted_domains() {
    let p = policy(&["example.com"], &[]);
    assert_eq!(rejected(p.evaluate("example.com")), None);
    assert_eq!(rejected(p.evaluate("www.example.com")), None);
    assert_eq!(rejected(p.evaluate("other.org")), Some("other.org".to_string()));
    let empty = DomainPolicy::new();
    assert_eq!(rejected(empty.evaluate("youtube.com")), Some("youtube.com".to_string()));
    assert_eq!(rejected(empty.evaluate("anything.net")), Some("anything.net".to_string()));
}

#[test]
fn text_helpers() {
    assert!(same_text("abc", "abc"));
    assert!(!same_text("abc", "abd"));
    assert!(!same_text("abc", "ab"));
    assert!(contains_text("https://x.com/watch?v=1&list=PL", "list="));
    assert!(!contains_text("https://x.com/watch?v=1", "list="));
    assert!(contains_text("abc", ""));
}

#[test]
fn keyword_query_rejected_with_empty_policy() {
    let r = resolve_query("lofi beats", &DomainPolicy::new(), true);
    match r {
        Err(PlayError::Rejected(d)) => assert_eq!(d, "youtube.com"),
        other => panic!("unexpected {:?}", other),
    }
}

#[test]
fn keyword_query_allowed_when_search_domain_allowed() {
    let r = resolve_query("lofi beats", &policy(&["youtube.com"], &[]), false);
    match r {
        Ok(Resolution::Query(QueryType::Keywords(s))) => assert_eq!(s, "lofi beats"),
        other => panic!("unexpected {:?}", other),
    }
}

#[test]
fn links_classified_by_playlist_marker() {
    let p = policy(&["youtube.com"], &[]);
    match resolve_query("https://www.youtube.com/watch?v=abc", &p, false) {
        Ok(Resolution::Query(QueryType::VideoLink(s))) => {
            assert_eq!(s, "https://www.youtube.com/watch?v=abc")
        }
        other => panic!("unexpected {:?}", other),
    }
    match resolve_query("https://www.youtube.com/playlist?list=PL1", &p, false) {
        Ok(Resolution::Query(QueryType::PlaylistLink(s))) => {
            assert_eq!(s, "https://www.youtube.com/playlist?list=PL1")
        }
        other => panic!("unexpected {:?}", other),
    }
}

#[test]
fn link_host_checked_against_policy() {
    let p = policy(&[], &["evil.com"]);
    match resolve_query("https://cdn.evil.com/a.mp3", &p, false) {
        Err(PlayError::Rejected(d)) => assert_eq!(d, "cdn.evil.com"),
        other => panic!("unexpected {:?}", other),
    }
}

#[test]
fn streaming_links_need_a_session() {
    let p = DomainPolicy::new();
    match resolve_query("https://open.spotify.com/track/1", &p, false) {
        Err(PlayError::AuthUnavailable) => {}
        other => panic!("unexpected {:?}", other),
    }
    match resolve_query("https://open.spotify.com/track/1", &p, true) {
        Ok(Resolution::StreamingLink(s)) => assert_eq!(s, "https://open.spotify.com/track/1"),
        other => panic!("unexpected {:?}", other),
    }
}

#[test]
fn classify_without_host_is_a_search() {
    let p = policy(&["youtube.com"], &[]);
    match classify_query("unix:/run/foo", &Some(None), &p, false) {
        Ok(Resolution::Query(QueryType::Keywords(s))) => assert_eq!(s, "unix:/run/foo"),
        other => panic!("unexpected {:?}", other),
    }
    match classify_query("x", &Some(Some("example.org".to_string())), &p, false) {
        Err(PlayError::Rejected(d)) => assert_eq!(d, "example.org"),
        other => panic!("unexpected {:?}", other),
    }
}

#[test]
fn insert_at_on_single_item_queue_appends() {
    let mut q = strs(&["a"]);
    assert!(insert_at(&mut q, "n".to_string(), 7).is_ok());
    assert_eq!(q, strs(&["a", "n"]));
    let mut e: Vec<String> = Vec::new();
    assert!(insert_at(&mut e, "n".to_string(), 0).is_ok());
    assert_eq!(e, strs(&["n"]));
}

#[test]
fn insert_at_places_item() {
    let mut q = strs(&["a", "b", "c"]);
    assert!(insert_at(&mut q, "n".to_string(), 1).is_ok());
    assert_eq!(q, strs(&["a", "n", "b", "c"]));
    let mut q = strs(&["a", "b", "c"]);
    assert!(insert_at(&mut q, "n".to_string(), 3).is_ok());
    assert_eq!(q, strs(&["a", "b", "c", "n"]));
}

#[test]
fn insert_at_out_of_range_leaves_queue() {
    let mut q = strs(&["a", "b", "c"]);
    match insert_at(&mut q, "n".to_string(), 0) {
        Err(PlayError::IndexOutOfRange(0, 1, 3)) => {}
        other => panic!("unexpected {:?}", other),
    }
    match insert_at(&mut q, "n".to_string(), 4) {
        Err(PlayError::IndexOutOfRange(4, 1, 3)) => {}
        other => panic!("unexpected {:?}", other),
    }
    assert_eq!(q, strs(&["a", "b", "c"]));
}

#[test]
fn check_insert_index_cases() {
    assert!(matches!(check_insert_index(1, 9), Ok(false)));
    assert!(matches!(check_insert_index(2, 2), Ok(true)));
    assert!(matches!(check_insert_index(2, 3), Err(PlayError::IndexOutOfRange(3, 1, 2))));
}

#[test]
fn relocate_tail_moves_last() {
    let mut q = strs(&["a", "b", "c", "n"]);
    relocate_tail(&mut q, 1);
    assert_eq!(q, strs(&["a", "n", "b", "c"]));
}

#[test]
fn rotate_tail_short_queue_fails() {
    let mut q = strs(&["a", "b"]);
    assert!(matches!(rotate_tail(&mut q, 1), Err(PlayError::RotationInvalid)));
    assert_eq!(q, strs(&["a", "b"]));
    let mut one = strs(&["a"]);
    assert!(matches!(rotate_tail(&mut one, 1), Err(PlayError::RotationInvalid)));
    assert_eq!(one, strs(&["a"]));
}

#[test]
fn rotate_tail_rotates_after_current() {
    let mut q = strs(&["p", "a", "b", "c"]);
    assert!(rotate_tail(&mut q, 1).is_ok());
    assert_eq!(q, strs(&["p", "c", "a", "b"]));
    let mut q = strs(&["p", "a", "b", "c"]);
    assert!(rotate_tail(&mut q, 5).is_ok());
    assert_eq!(q, strs(&["p", "b", "c", "a"]));
    let mut q = strs(&["p", "a", "b", "c"]);
    assert!(rotate_tail(&mut q, 3).is_ok());
    assert_eq!(q, strs(&["p", "a", "b", "c"]));
}

#[test]
fn append_and_skip() {
    let mut q = strs(&["a"]);
    append(&mut q, "b".to_string());
    assert_eq!(q, strs(&["a", "b"]));
    force_skip_current(&mut q);
    assert_eq!(q, strs(&["b"]));
    let mut e: Vec<String> = Vec::new();
    force_skip_current(&mut e);
    assert!(e.is_empty());
}

#[test]
fn jump_on_three_items() {
    let mut q = strs(&["p", "x", "y"]);
    assert!(jump_to_front(&mut q, "n".to_string()).is_ok());
    assert_eq!(q, strs(&["n", "x", "y"]));
    assert_eq!(q[0], "n");
    assert_eq!(q[2], "y");
}

#[test]
fn jump_on_empty_and_single() {
    let mut e: Vec<String> = Vec::new();
    assert!(jump_to_front(&mut e, "n".to_string()).is_ok());
    assert_eq!(e, strs(&["n"]));
    let mut one = strs(&["p"]);
    assert!(matches!(jump_to_front(&mut one, "n".to_string()), Err(PlayError::RotationInvalid)));
    assert_eq!(one, strs(&["p", "n"]));
}

#[test]
fn estimate_livestream_ahead_is_infinite() {
    let q = vec![item(Some(300), 100), item(Some(200), 0), item(None, 0), item(Some(50), 0)];
    assert_eq!(calculate_time_until_play(&q, Mode::End), Some(TimeToPlay::Infinite));
}

#[test]
fn estimate_next_single() {
    let q = vec![item(Some(300), 100)];
    assert_eq!(calculate_time_until_play(&q, Mode::Next), Some(TimeToPlay::Known(200)));
}

#[test]
fn estimate_unknown_top_is_infinite() {
    let q = vec![item(None, 0)];
    assert_eq!(calculate_time_until_play(&q, Mode::Next), Some(TimeToPlay::Infinite));
    let q = vec![item(None, 0), item(Some(10), 0)];
    assert_eq!(calculate_time_until_play(&q, Mode::End), Some(TimeToPlay::Infinite));
}

#[test]
fn estimate_sums_center() {
    let q = vec![item(Some(300), 100), item(Some(200), 0), item(Some(40), 0), item(None, 0)];
    assert_eq!(calculate_time_until_play(&q, Mode::End), Some(TimeToPlay::Known(440)));
    let q = vec![item(Some(300), 100), item(None, 0)];
    assert_eq!(calculate_time_until_play(&q, Mode::End), Some(TimeToPlay::Known(200)));
    let q = vec![item(Some(300), 100)];
    assert_eq!(calculate_time_until_play(&q, Mode::Jump), Some(TimeToPlay::Known(200)));
}

#[test]
fn estimate_edge_cases() {
    assert_eq!(calculate_time_until_play(&Vec::new(), Mode::End), None);
    let q = vec![item(Some(10), 50)];
    assert_eq!(calculate_time_until_play(&q, Mode::Next), Some(TimeToPlay::Known(0)));
    let q = vec![item(Some(1), 0), item(Some(u64::MAX), 0), item(Some(1), 0)];
    assert_eq!(calculate_time_until_play(&q, Mode::End), Some(TimeToPlay::Infinite));
    assert_eq!(TimeToPlay::Infinite.as_millis(), u64::MAX);
    assert_eq!(TimeToPlay::Known(7).as_millis(), 7);
}

#[test]
fn single_plans() {
    assert_eq!(single_item_plan(Mode::End, false), SinglePlan::Append);
    assert_eq!(single_item_plan(Mode::Next, false), SinglePlan::InsertAt(1));
    assert_eq!(single_item_plan(Mode::Jump, true), SinglePlan::Append);
    assert_eq!(single_item_plan(Mode::Jump, false), SinglePlan::JumpToFront);
    assert_eq!(single_item_plan(Mode::All, false), SinglePlan::BulkOfSingle);
    assert_eq!(single_item_plan(Mode::Shuffle, true), SinglePlan::BulkOfSingle);
}

#[test]
fn plans_by_query() {
    let pl = QueryType::PlaylistLink("u".to_string());
    assert_eq!(plan_for(&pl, Mode::Reverse, false), Plan::Playlist(PlaylistOrder::Reverse));
    assert_eq!(plan_for(&pl, Mode::Shuffle, false), Plan::Playlist(PlaylistOrder::Shuffle));
    assert_eq!(plan_for(&pl, Mode::All, false), Plan::Playlist(PlaylistOrder::Natural));
    let kl = QueryType::KeywordList(strs(&["a", "b"]));
    assert_eq!(plan_for(&kl, Mode::Next, false), Plan::KeywordList);
    let v = QueryType::VideoLink("u".to_string());
    assert_eq!(plan_for(&v, Mode::Reverse, false), Plan::Single(SinglePlan::BulkOfSingle));
    assert_eq!(playlist_order(Mode::End), PlaylistOrder::Natural);
}

#[test]
fn bulk_next_inserts_progressively() {
    let mut run = BulkRun::new(Mode::Next, ListKind::Playlist, false);
    assert_eq!(run.placement(), Placement::InsertAt(1));
    assert_eq!(run.record(true), AfterEntry::Continue);
    assert_eq!(run.placement(), Placement::InsertAt(2));
    assert_eq!(run.record(false), AfterEntry::Abort);
}

#[test]
fn bulk_jump_skips_after_first() {
    let mut run = BulkRun::new(Mode::Jump, ListKind::Playlist, false);
    assert_eq!(run.placement(), Placement::InsertAt(1));
    assert_eq!(run.record(true), AfterEntry::ForceSkip);
    assert_eq!(run.placement(), Placement::InsertAt(1));
    assert_eq!(run.record(false), AfterEntry::Continue);
    assert_eq!(run.record(true), AfterEntry::Continue);
    assert_eq!(run.placement(), Placement::InsertAt(2));
    let mut fresh = BulkRun::new(Mode::Jump, ListKind::Keywords, true);
    assert_eq!(fresh.record(true), AfterEntry::Continue);
    assert_eq!(fresh.placement(), Placement::InsertAt(2));
    assert_eq!(fresh.record(false), AfterEntry::Abort);
}

#[test]
fn bulk_append_modes() {
    let mut run = BulkRun::new(Mode::Shuffle, ListKind::Playlist, false);
    assert_eq!(run.placement(), Placement::Append);
    assert_eq!(run.record(false), AfterEntry::Continue);
    let mut kw = BulkRun::new(Mode::All, ListKind::Keywords, false);
    assert_eq!(kw.record(false), AfterEntry::Abort);
    let mut end = BulkRun::new(Mode::End, ListKind::Playlist, true);
    assert_eq!(end.record(false), AfterEntry::Continue);
}

#[test]
fn replies() {
    let q = vec![item(Some(300), 100), item(Some(60), 0)];
    assert_eq!(reply_for(&q, false, Mode::Next), Reply::Queued(1, TimeToPlay::Known(200)));
    assert_eq!(reply_for(&q, false, Mode::End), Reply::Queued(1, TimeToPlay::Known(200)));
    assert_eq!(reply_for(&q, true, Mode::End), Reply::ListQueued);
    assert_eq!(reply_for(&q, false, Mode::Jump), Reply::Silent);
    assert_eq!(reply_for(&q[..1].to_vec(), false, Mode::End), Reply::NowPlaying);
    assert_eq!(reply_for(&Vec::new(), false, Mode::End), Reply::Silent);
}

#[test]
fn store_creates_policy_and_logs_queries() {
    let mut store = GuildStore::new();
    match store.resolve_for_guild(7, "lofi beats", false) {
        Err(PlayError::Rejected(d)) => assert_eq!(d, "youtube.com"),
        other => panic!("unexpected {:?}", other),
    }
    assert!(store.settings.contains_key(&7));
    assert!(!store.stored_queues.contains_key(&7));
    store
        .settings
        .get_mut(&7)
        .unwrap()
        .allowed_domains
        .push("youtube.com".to_string());
    assert!(store.resolve_for_guild(7, "lofi beats", false).is_ok());
    assert!(store.resolve_for_guild(7, "more", false).is_ok());
    let log = &store.stored_queues[&7];
    assert!(log.continue_play);
    assert_eq!(log.queue.len(), 2);
    assert!(matches!(&log.queue[1], QueryType::Keywords(s) if s == "more"));
}
