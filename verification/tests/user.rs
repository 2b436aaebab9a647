use spotify_playlist_notification::user::{User, UserMaster, UserRecord};

fn member(name: &str, spotify_user_id: &str, discord_user_id: &str, order: usize) -> User {
    User {
        name: name.to_string(),
        spotify_user_id: spotify_user_id.to_string(),
        discord_user_id: discord_user_id.to_string(),
        order,
    }
}

#[test]
fn test_get_next_user_by_spotify_id() {
    let user1 = User {
        name: "User1".to_string(),
        spotify_user_id: "spotify1".to_string(),
        discord_user_id: "discord1".to_string(),
        order: 1,
    };
    let user2 = User {
        name: "User2".to_string(),
        spotify_user_id: "spotify2".to_string(),
        discord_user_id: "discord2".to_string(),
        order: 2,
    };
    let user3 = User {
        name: "User3".to_string(),
        spotify_user_id: "spotify3".to_string(),
        discord_user_id: "discord3".to_string(),
        order: 3,
    };
    let user_master = UserMaster {
        users: vec![user1, user2, user3],
    };
    assert_eq!(
        user_master
            .get_next_user_by_spotify_id("spotify1")
            .unwrap()
            .spotify_user_id,
        "spotify2"
    );
    assert_eq!(
        user_master
            .get_next_user_by_spotify_id("spotify2")
            .unwrap()
            .spotify_user_id,
        "spotify3"
    );
    assert_eq!(
        user_master
            .get_next_user_by_spotify_id("spotify3")
            .unwrap()
            .spotify_user_id,
        "spotify1"
    );
    assert!(user_master.get_next_user_by_spotify_id("unknown").is_none());
}

#[test]
fn next_user_wraps_round_at_the_end_of_the_roster() {
    let roster = UserMaster {
        users: vec![member("A", "a", "da", 1), member("B", "b", "db", 2), member("C", "c", "dc", 3)],
    };
    assert_eq!(roster.get_next_user_by_spotify_id("b").unwrap().name, "C");
    assert_eq!(roster.get_next_user_by_spotify_id("c").unwrap().name, "A");
}

#[test]
fn next_user_of_an_empty_roster_is_nobody() {
    let roster = UserMaster { users: vec![] };
    assert!(roster.get_next_user_by_spotify_id("a").is_none());
}

#[test]
fn next_user_of_a_single_member_is_that_member() {
    let roster = UserMaster { users: vec![member("A", "a", "da", 1)] };
    assert_eq!(roster.get_next_user_by_spotify_id("a").unwrap().discord_user_id, "da");
}

#[test]
fn next_user_goes_by_the_first_member_with_the_identifier() {
    let roster = UserMaster {
        users: vec![member("A", "x", "da", 1), member("B", "b", "db", 2), member("C", "x", "dc", 3)],
    };
    assert_eq!(roster.get_next_user_by_spotify_id("x").unwrap().name, "B");
}

fn record(name: Option<&str>, spotify: Option<&str>, discord: Option<&str>, order: Option<&str>) -> UserRecord {
    UserRecord {
        name: name.map(|t| t.to_string()),
        spotify_user_id: spotify.map(|t| t.to_string()),
        discord_user_id: discord.map(|t| t.to_string()),
        order: order.map(|t| t.to_string()),
    }
}

fn names(roster: &UserMaster) -> Vec<&str> {
    roster.users.iter().map(|u| u.name.as_str()).collect()
}

#[test]
fn user_from_a_full_record() {
    let user = User::from_record(&record(Some("Ann"), Some("s1"), Some("d1"), Some("3")));
    assert_eq!(user.name, "Ann");
    assert_eq!(user.spotify_user_id, "s1");
    assert_eq!(user.discord_user_id, "d1");
    assert_eq!(user.order, 3);
}

#[test]
fn user_from_an_empty_record() {
    let user = User::from_record(&record(None, None, None, None));
    assert_eq!(user.name, "");
    assert_eq!(user.spotify_user_id, "");
    assert_eq!(user.discord_user_id, "");
    assert_eq!(user.order, 0);
}

#[test]
fn user_from_a_record_whose_rank_is_no_number() {
    assert_eq!(User::from_record(&record(Some("Ann"), None, None, Some("1.5"))).order, 0);
    assert_eq!(User::from_record(&record(Some("Ann"), None, None, Some("-2"))).order, 0);
    assert_eq!(User::from_record(&record(Some("Ann"), None, None, Some(""))).order, 0);
    assert_eq!(User::from_record(&record(Some("Ann"), None, None, Some("+4"))).order, 4);
}

#[test]
fn roster_from_records_is_sorted_by_rank() {
    let records = vec![
        record(Some("C"), Some("c"), Some("dc"), Some("3")),
        record(Some("A"), Some("a"), Some("da"), Some("1")),
        record(Some("B"), Some("b"), Some("db"), Some("2")),
    ];
    let roster = UserMaster::from_records(&records);
    assert_eq!(names(&roster), vec!["A", "B", "C"]);
    assert_eq!(roster.get_next_user_by_spotify_id("c").unwrap().name, "A");
}

#[test]
fn roster_from_records_keeps_equal_ranks_in_the_given_order() {
    let records = vec![
        record(Some("late"), None, None, Some("7")),
        record(Some("first zero"), None, None, None),
        record(Some("one"), None, None, Some("1")),
        record(Some("second zero"), None, None, Some("none")),
        record(Some("other one"), None, None, Some("1")),
        record(Some("third zero"), None, None, Some("0")),
    ];
    let roster = UserMaster::from_records(&records);
    assert_eq!(
        names(&roster),
        vec!["first zero", "second zero", "third zero", "one", "other one", "late"]
    );
}

#[test]
fn roster_from_no_records_is_empty() {
    assert!(UserMaster::from_records(&vec![]).users.is_empty());
}

#[test]
fn sorted_by_order_agrees_with_a_stable_sort() {
    let ranks = [5usize, 1, 3, 1, 5, 0, 2, 3, 3, 1, 0, 9];
    let given: Vec<User> = ranks
        .iter()
        .enumerate()
        .map(|(i, rank)| member(&format!("m{i}"), &format!("s{i}"), &format!("d{i}"), *rank))
        .collect();
    let mut expected: Vec<(usize, String)> =
        given.iter().map(|u| (u.order, u.name.clone())).collect();
    expected.sort_by_key(|pair| pair.0);
    let roster = UserMaster::sorted_by_order(given);
    let got: Vec<(usize, String)> =
        roster.users.iter().map(|u| (u.order, u.name.clone())).collect();
    assert_eq!(got, expected);
}

#[test]
fn sorted_by_order_of_a_sorted_roster_changes_nothing() {
    let given = vec![member("A", "a", "da", 1), member("B", "b", "db", 2), member("C", "c", "dc", 2)];
    let roster = UserMaster::sorted_by_order(given);
    assert_eq!(names(&roster), vec!["A", "B", "C"]);
}
