use rt_engine::peer_id::{
    accept_suffix, build_peer_id, env_peer_id, init, load_or_generate_suffix,
    needs_stored_suffix, our_peer_id,
    random_suffix, resolve_peer_id, user_agent, SuffixChoice, DEFAULT_PEER_ID, DEFAULT_USER_AGENT,
    PEER_ID_PREFIX,
};

fn stored(choice: SuffixChoice) -> String {
    match choice {
        SuffixChoice::Stored(suffix) => suffix,
        SuffixChoice::Fresh(suffix) => suffix,
    }
}

#[test]
fn default_identity_is_upstream_rtorrent_0_16_11_pair() {
    assert_eq!(DEFAULT_PEER_ID.len(), 20);
    assert!(DEFAULT_PEER_ID.starts_with(&PEER_ID_PREFIX));
    assert_eq!(DEFAULT_USER_AGENT, "rtorrent/0.16.11/0.16.11");
}

#[test]
fn independently_generated_peer_ids_do_not_collide() {
    let a = build_peer_id(&random_suffix());
    let b = build_peer_id(&random_suffix());
    assert_ne!(a, b, "two independently generated peer ids must differ");
    assert!(a.starts_with(&PEER_ID_PREFIX));
    assert_eq!(a.len(), 20);
}

#[test]
fn persisted_suffix_is_stable_across_reloads() {
    let first = stored(load_or_generate_suffix(None));
    let second = stored(load_or_generate_suffix(Some(&first)));
    assert_eq!(first, second, "restarting must not change the peer id");
}

#[test]
fn init_persists_and_is_idempotent_for_this_process() {
    let file = stored(load_or_generate_suffix(None));
    let first = resolve_peer_id(None, Some(&file));
    let again = stored(load_or_generate_suffix(Some(&file)));
    let second = resolve_peer_id(None, Some(&again));
    assert_eq!(first, second);
}

#[test]
fn a_second_init_changes_nothing() {
    let mut identity = None;
    init(&mut identity, None, Some("abcdefghijkl"));
    assert_eq!(identity, Some(*b"-lt100B-abcdefghijkl"));
    init(&mut identity, Some("-XX0001-000000000000"), Some("zzzzzzzzzzzz"));
    assert_eq!(our_peer_id(&mut identity, None), *b"-lt100B-abcdefghijkl");
}

#[test]
fn a_configured_identity_wins() {
    assert_eq!(env_peer_id(Some("-XX0001-000000000000")), Some(*b"-XX0001-000000000000"));
    assert_eq!(env_peer_id(Some("short")), None);
    assert_eq!(env_peer_id(None), None);
    assert_eq!(
        resolve_peer_id(Some("-XX0001-000000000000"), Some("abcdefghijkl")),
        *b"-XX0001-000000000000"
    );
}

#[test]
fn a_damaged_suffix_is_replaced() {
    assert_eq!(accept_suffix("abcdefghijkl\n"), Some("abcdefghijkl".to_owned()));
    assert_eq!(accept_suffix("abc"), None);
    assert!(matches!(load_or_generate_suffix(Some("abc")), SuffixChoice::Fresh(s) if s.len() == 12));
    assert!(matches!(load_or_generate_suffix(Some("abcdefghijkl")), SuffixChoice::Stored(_)));
}

#[test]
fn the_user_agent_can_be_configured() {
    assert_eq!(user_agent(None), DEFAULT_USER_AGENT);
    assert_eq!(user_agent(Some("   ")), DEFAULT_USER_AGENT);
    assert_eq!(user_agent(Some("mine/1")), "mine/1");
}

#[test]
fn fresh_suffixes_are_letters_and_digits() {
    for existing in [None, Some("            "), Some("\u{e9}bcdefghijkl")] {
        match load_or_generate_suffix(existing) {
            SuffixChoice::Fresh(suffix) => {
                assert!(suffix.chars().all(|c| c.is_ascii_alphanumeric()));
                assert_eq!(accept_suffix(&suffix), Some(suffix));
            }
            other => panic!("{other:?}"),
        }
    }
}

#[test]
fn the_stored_suffix_is_needed_only_where_nothing_else_decides() {
    assert!(needs_stored_suffix(&None, None));
    assert!(needs_stored_suffix(&None, Some("short")));
    assert!(!needs_stored_suffix(&None, Some("-XX0001-000000000000")));
    assert!(!needs_stored_suffix(&Some(*b"-lt100B-abcdefghijkl"), None));
}
