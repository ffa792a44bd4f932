use rustybot::auth::{AuthConfig, AuthUser};

fn user(id: &str, key: &str) -> AuthUser {
    AuthUser { id: id.to_string(), key: key.to_string(), note: None }
}

#[test]
fn hash_matches_sha512_of_id_key_salt() {
    let u = user("alice", "secret");
    assert_eq!(
        u.hash("salt"),
        "7b1a82c50406f0f697837850460ab15f778c7354126d640015ba8521f558c9be39df2dbbb64d0300ad9c25019a91c62e53b722a1c3ee0549447bbb7eebcdc40f"
    );
    let u2 = AuthUser {
        id: "bob".to_string(),
        key: "hunter2".to_string(),
        note: Some("a note".to_string()),
    };
    assert_eq!(
        u2.hash("pepper"),
        "66b62e6eaab87b50572dcf2eb8bec3b6e72c9c41bf376a3d6c3115ef80ffec7bd48548e93dd9fec1e4f5db4961d1003d7b46e01aac26f1fda466387bc611ff74"
    );
}

#[test]
fn find_returns_the_first_matching_user() {
    let cfg = AuthConfig {
        users: vec![user("alice", "first"), user("bob", "k"), user("alice", "second")],
    };
    let found = cfg.find("alice").unwrap();
    assert_eq!(found.key, "first");
    assert!(cfg.find("carol").is_none());
}

#[test]
fn authenticate_accepts_exactly_the_right_hash() {
    let cfg = AuthConfig { users: vec![user("alice", "secret")] };
    let good = user("alice", "secret").hash("salt");
    assert!(cfg.authenticate("alice", &good, "salt"));
    assert!(!cfg.authenticate("alice", &good, "othersalt"));
    assert!(!cfg.authenticate("bob", &good, "salt"));
    let mut tampered = good.clone();
    tampered.pop();
    tampered.push('0');
    let flipped = if good.ends_with('0') {
        let mut t = good.clone();
        t.pop();
        t.push('1');
        t
    } else {
        tampered
    };
    assert!(!cfg.authenticate("alice", &flipped, "salt"));
}
