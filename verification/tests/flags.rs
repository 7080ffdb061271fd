use publisher::flags::dtos::{CreateFlagRequest, EvaluationResult};
use publisher::flags::handlers::{check_flag, require_flag};
use publisher::flags::model::{EvaluationContext, Flag, Rule};
use publisher::error::AppError;

fn flag(key: &str, is_enabled: bool, rules: Vec<Rule>) -> Flag {
    Flag {
        id: uuid::Uuid::nil(),
        key: key.to_string(),
        name: format!("{key} flag"),
        description: None,
        is_enabled,
        rules,
        created_at: 1_700_000_000_000_000,
        updated_at: 1_700_000_000_000_000,
    }
}

fn user(id: &str) -> EvaluationContext {
    EvaluationContext { user_id: Some(id.to_string()), email: None }
}

fn anonymous() -> EvaluationContext {
    EvaluationContext { user_id: None, email: Some("someone@example.com".to_string()) }
}

fn targets(ids: &[&str]) -> Rule {
    Rule::TargetUsers { user_ids: ids.iter().map(|s| s.to_string()).collect() }
}

#[test]
fn disabled_flag_is_off_for_everyone() {
    let f = flag("beta", false, vec![]);
    assert!(!f.evaluate(&user("alice")));
    assert!(!f.evaluate(&anonymous()));
    let f = flag("beta", false, vec![targets(&["alice"]), Rule::Percentage { rollout: 100 }]);
    assert!(!f.evaluate(&user("alice")));
}

#[test]
fn enabled_flag_without_rules_is_on_for_everyone() {
    let f = flag("beta", true, vec![]);
    assert!(f.evaluate(&user("alice")));
    assert!(f.evaluate(&anonymous()));
}

#[test]
fn anonymous_request_is_off_under_rules() {
    let f = flag("beta", true, vec![Rule::Percentage { rollout: 100 }]);
    assert!(!f.evaluate(&anonymous()));
    let f = flag("beta", true, vec![targets(&["alice"])]);
    assert!(!f.evaluate(&anonymous()));
}

#[test]
fn target_users_admits_listed_users_only() {
    let f = flag("beta", true, vec![targets(&["alice", "bob"])]);
    assert!(f.evaluate(&user("alice")));
    assert!(f.evaluate(&user("bob")));
    assert!(!f.evaluate(&user("carol")));
    assert!(!f.evaluate(&user("Alice")));
}

// Buckets are crc32("<user>:<key>") % 100:
// alice:beta -> 21, bob:beta -> 14, carol:beta -> 50, frank:new-checkout -> 99.
#[test]
fn percentage_rollout_uses_crc32_bucket_of_user_and_key() {
    let cases = [("alice", "beta", 21u8), ("bob", "beta", 14), ("carol", "beta", 50), ("frank", "new-checkout", 99), ("bob", "new-checkout", 96)];
    for (u, k, bucket) in cases {
        assert_eq!(crc32fast::hash(format!("{u}:{k}").as_bytes()) % 100, bucket as u32);
        let inside = flag(k, true, vec![Rule::Percentage { rollout: bucket + 1 }]);
        assert!(inside.evaluate(&user(u)), "{u}:{k} should be inside rollout {}", bucket + 1);
        let outside = flag(k, true, vec![Rule::Percentage { rollout: bucket }]);
        assert!(!outside.evaluate(&user(u)), "{u}:{k} should be outside rollout {bucket}");
    }
}

#[test]
fn percentage_bucket_depends_on_key() {
    // alice is in bucket 21 for "beta" and 59 for "new-checkout".
    let beta = flag("beta", true, vec![Rule::Percentage { rollout: 30 }]);
    let checkout = flag("new-checkout", true, vec![Rule::Percentage { rollout: 30 }]);
    assert!(beta.evaluate(&user("alice")));
    assert!(!checkout.evaluate(&user("alice")));
}

#[test]
fn percentage_bucket_hashes_utf8_bytes() {
    // crc32("é:k") = 0x6cdc9eb2, bucket 74.
    let f = flag("k", true, vec![Rule::Percentage { rollout: 75 }]);
    assert!(f.evaluate(&user("é")));
    let f = flag("k", true, vec![Rule::Percentage { rollout: 74 }]);
    assert!(!f.evaluate(&user("é")));
}

#[test]
fn zero_and_full_rollouts() {
    for u in ["alice", "bob", "carol", "dave", "erin", "frank", "user-1", "user-2"] {
        assert!(!flag("beta", true, vec![Rule::Percentage { rollout: 0 }]).evaluate(&user(u)));
        assert!(flag("beta", true, vec![Rule::Percentage { rollout: 100 }]).evaluate(&user(u)));
        assert!(flag("beta", true, vec![Rule::Percentage { rollout: 255 }]).evaluate(&user(u)));
    }
}

#[test]
fn rollout_is_monotone() {
    for u in ["alice", "bob", "carol", "dave", "erin", "frank"] {
        let mut was_in = false;
        for r in 0..=100u8 {
            let now_in = flag("beta", true, vec![Rule::Percentage { rollout: r }]).evaluate(&user(u));
            assert!(!was_in || now_in);
            was_in = now_in;
        }
        assert!(was_in);
    }
}

#[test]
fn rules_combine_by_union_in_any_order() {
    // alice:beta -> 21, dave:beta -> 83, erin:beta -> 88, frank:beta -> 70.
    let a = || targets(&["erin"]);
    let b = || Rule::Percentage { rollout: 60 };
    for u in ["alice", "dave", "erin", "frank"] {
        let first = flag("beta", true, vec![a()]).evaluate(&user(u));
        let second = flag("beta", true, vec![b()]).evaluate(&user(u));
        let both = flag("beta", true, vec![a(), b()]).evaluate(&user(u));
        let swapped = flag("beta", true, vec![b(), a()]).evaluate(&user(u));
        assert_eq!(both, first || second);
        assert_eq!(both, swapped);
    }
    assert!(flag("beta", true, vec![a(), b()]).evaluate(&user("erin")));
    assert!(flag("beta", true, vec![a(), b()]).evaluate(&user("alice")));
    assert!(!flag("beta", true, vec![a(), b()]).evaluate(&user("dave")));
    assert!(!flag("beta", true, vec![a(), b()]).evaluate(&user("frank")));
}

#[test]
fn check_flag_reports_key_and_decision() {
    let f = flag("beta", true, vec![targets(&["alice"])]);
    let r: EvaluationResult = check_flag("beta".to_string(), &f, &user("alice"));
    assert_eq!(r.key, "beta");
    assert!(r.result);
    let r = check_flag("beta".to_string(), &f, &user("bob"));
    assert!(!r.result);
}

#[test]
fn require_flag_names_missing_key() {
    match require_flag("ghost".to_string(), None) {
        Err(AppError::NotAvailableError(k)) => assert_eq!(k, "ghost"),
        _ => panic!("a missing flag must be reported as not available"),
    }
    let found = require_flag("beta".to_string(), Some(flag("beta", true, vec![])));
    match found {
        Ok(f) => assert_eq!(f.key, "beta"),
        Err(_) => panic!("a found flag must be returned"),
    }
}

#[test]
fn create_flag_request_holds_key_and_name() {
    let r = CreateFlagRequest { key: "beta".to_string(), name: "Beta".to_string() };
    assert_eq!(r.key, "beta");
    assert_eq!(r.name, "Beta");
}

#[test]
fn decision_ignores_email() {
    let f = flag("beta", true, vec![targets(&["alice"])]);
    let with_email = EvaluationContext { user_id: Some("alice".to_string()), email: Some("a@example.com".to_string()) };
    let without_email = EvaluationContext { user_id: Some("alice".to_string()), email: None };
    assert_eq!(f.evaluate(&with_email), f.evaluate(&without_email));
    assert!(f.evaluate(&with_email));
}

#[test]
fn any_rearrangement_of_rules_decides_alike() {
    // dave:beta -> 83, erin:beta -> 88, carol:beta -> 50.
    let rules = || vec![targets(&["erin"]), Rule::Percentage { rollout: 60 }, targets(&["dave"])];
    let orders: [[usize; 3]; 6] = [[0, 1, 2], [0, 2, 1], [1, 0, 2], [1, 2, 0], [2, 0, 1], [2, 1, 0]];
    for u in ["alice", "carol", "dave", "erin", "frank"] {
        let base = flag("beta", true, rules()).evaluate(&user(u));
        for order in orders {
            let all = rules();
            let mut slots: Vec<Option<Rule>> = all.into_iter().map(Some).collect();
            let reordered: Vec<Rule> = order.iter().map(|&i| slots[i].take().unwrap()).collect();
            assert_eq!(flag("beta", true, reordered).evaluate(&user(u)), base);
        }
    }
    assert!(!flag("beta", true, rules()).evaluate(&user("frank")));
    assert!(flag("beta", true, rules()).evaluate(&user("dave")));
}
