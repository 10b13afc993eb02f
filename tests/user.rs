use std::cmp::Ordering;

use data::user::{AccessLevel, ColorMode, Nick, NickRef, User};

#[test]
fn access_levels_rank_owner_highest() {
    let order = [
        AccessLevel::Member,
        AccessLevel::Voice,
        AccessLevel::HalfOp,
        AccessLevel::Oper,
        AccessLevel::Admin,
        AccessLevel::Owner,
    ];
    for (i, a) in order.iter().enumerate() {
        for (j, b) in order.iter().enumerate() {
            assert_eq!(a.cmp(b), i.cmp(&j));
        }
    }
}

#[test]
fn access_level_symbols() {
    assert_eq!(AccessLevel::Owner.to_string(), "~");
    assert_eq!(AccessLevel::Admin.to_string(), "&");
    assert_eq!(AccessLevel::Oper.to_string(), "@");
    assert_eq!(AccessLevel::HalfOp.to_string(), "%");
    assert_eq!(AccessLevel::Voice.to_string(), "+");
    assert_eq!(AccessLevel::Member.to_string(), "");
}

#[test]
fn parse_reads_ranks_and_parts() {
    let u = User::parse("@~alice!al@example.org").unwrap();
    assert_eq!(u.nickname().as_str(), "alice");
    assert_eq!(u.username(), Some("al"));
    assert_eq!(u.hostname(), Some("example.org"));
    assert_eq!(u.highest_access_level(), AccessLevel::Owner);

    let v = User::parse("bob").unwrap();
    assert_eq!(v.nickname().as_str(), "bob");
    assert_eq!(v.username(), None);
    assert_eq!(v.hostname(), None);
    assert_eq!(v.highest_access_level(), AccessLevel::Member);
}

#[test]
fn canonical_and_display_forms() {
    let u = User::new(Nick::from("bob"), Some("b"), Some("h.example"));
    assert_eq!(u.to_canonical(), "bob!b@h.example");
    assert_eq!(u.formatted(), "bob (b@h.example)");
    assert_eq!(u.to_string(), "bob");
}

#[test]
fn new_without_host_or_user() {
    let u = User::new(Nick::from("bob"), None, None);
    assert_eq!(u.to_canonical(), "bob");
    assert_eq!(u.formatted(), "bob");
    let p = User::parse("bob!b").unwrap();
    assert_eq!(p.username(), Some("b"));
    assert_eq!(p.hostname(), None);
    assert_eq!(p.formatted(), "bob (b)");
}

#[test]
fn roster_order_rank_then_nick() {
    let mut users = vec![
        User::parse("~zeta").unwrap(),
        User::parse("alpha").unwrap(),
        User::parse("~alpha").unwrap(),
    ];
    users.sort_by(|a, b| a.cmp(b));
    let names: Vec<(AccessLevel, String)> = users
        .iter()
        .map(|u| (u.highest_access_level(), u.nickname().to_string()))
        .collect();
    assert_eq!(
        names,
        vec![
            (AccessLevel::Owner, "alpha".to_string()),
            (AccessLevel::Owner, "zeta".to_string()),
            (AccessLevel::Member, "alpha".to_string()),
        ]
    );
}

#[test]
fn nick_order_ignores_case() {
    assert_eq!(NickRef::from("Alice").cmp(&NickRef::from("alice")), Ordering::Equal);
    assert_eq!(NickRef::from("Bob").cmp(&NickRef::from("alice")), Ordering::Greater);
    assert_eq!(NickRef::from("alice").cmp(&NickRef::from("BOB")), Ordering::Less);
    assert!(!NickRef::from("Alice").eq_nick(&Nick::from("alice")));
    assert!(NickRef::from("Alice").eq_nick(&NickRef::from("Alice").to_owned()));
}

#[test]
fn equality_ignores_rank() {
    assert!(User::parse("@bob!b@h").unwrap() == User::parse("bob!b@h").unwrap());
    assert!(User::parse("bob!b@h").unwrap() != User::parse("Bob!b@h").unwrap());
    assert_eq!(User::parse("@bob").unwrap().cmp(&User::parse("bob").unwrap()), Ordering::Less);
}

#[test]
fn color_seed_prefers_hostname() {
    let u = User::parse("bob!b@h.example").unwrap();
    assert_eq!(u.color_seed(&ColorMode::Unique), Some("h.example".to_string()));
    assert_eq!(u.color_seed(&ColorMode::Solid), None);
    let v = User::parse("bob").unwrap();
    assert_eq!(v.color_seed(&ColorMode::Unique), Some("bob".to_string()));
}

#[test]
fn hash_ignores_rank() {
    let mut set = std::collections::HashSet::new();
    set.insert(User::parse("@bob!b@h").unwrap());
    set.insert(User::parse("+bob!b@h").unwrap());
    set.insert(User::parse("bob!b@other").unwrap());
    assert_eq!(set.len(), 2);
}

#[test]
fn access_level_operators_follow_rank() {
    assert!(AccessLevel::Owner > AccessLevel::Admin);
    assert!(AccessLevel::Voice > AccessLevel::Member);
    assert!(AccessLevel::HalfOp < AccessLevel::Oper);
    assert!(AccessLevel::Member <= AccessLevel::Member);
}

#[test]
fn new_keeps_username_without_hostname() {
    let u = User::new(Nick::from("bob"), Some("b"), None);
    assert_eq!(u.nickname().as_str(), "bob");
    assert_eq!(u.username(), Some("b"));
    assert_eq!(u.hostname(), None);
    assert_eq!(u.highest_access_level(), AccessLevel::Member);
    assert_eq!(u.to_canonical(), "bob!b");
    assert_eq!(u.formatted(), "bob (b)");
}

#[test]
fn new_keeps_hostname_without_username() {
    let u = User::new(Nick::from("n"), None, Some("h"));
    assert_eq!(u.nickname().as_str(), "n");
    assert_eq!(u.username(), None);
    assert_eq!(u.hostname(), Some("h"));
    assert_eq!(u.to_canonical(), "n@h");
    assert_eq!(u.formatted(), "n (h)");
}

#[test]
fn users_compare_with_operators() {
    let owner = User::parse("~zeta").unwrap();
    let member = User::parse("alpha").unwrap();
    assert!(owner < member);
    assert!(User::parse("Alpha").unwrap() < User::parse("beta").unwrap());
    assert_eq!(owner.partial_cmp(&member), Some(Ordering::Less));
}

#[test]
fn parse_reads_nick_at_host() {
    let u = User::parse("+n@h.example").unwrap();
    assert_eq!(u.nickname().as_str(), "n");
    assert_eq!(u.username(), None);
    assert_eq!(u.hostname(), Some("h.example"));
    assert_eq!(u.highest_access_level(), AccessLevel::Voice);
}

#[test]
fn canonical_text_reads_back_in_every_shape() {
    let shapes = [
        (None, None),
        (Some("u"), None),
        (None, Some("h.example")),
        (Some("u"), Some("h.example")),
    ];
    for (user, host) in shapes {
        let u = User::new(Nick::from("n"), user, host);
        let back = User::parse(&u.to_canonical()).unwrap();
        assert!(back == u);
        assert_eq!(back.username(), user);
        assert_eq!(back.hostname(), host);
        assert_eq!(back.highest_access_level(), AccessLevel::Member);
    }
}

#[test]
fn from_parts_keeps_rank() {
    let u = User::from_parts(Nick::from("op"), None, Some("h"), AccessLevel::Oper);
    assert_eq!(u.highest_access_level(), AccessLevel::Oper);
    assert_eq!(u.nickname().as_str(), "op");
    assert_eq!(u.hostname(), Some("h"));
    assert_eq!(u.username(), None);
}
