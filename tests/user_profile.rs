use lingo_market::host::Identity;
use lingo_market::user_profile::{Error, UserProfileContract};

const USER: Identity = Identity { id: 1 };
const CALLER: Identity = Identity { id: 2 };

#[test]
fn test_create_profile() {
    let mut c = UserProfileContract::new();
    let languages = vec!["English".to_string(), "Spanish".to_string()];
    c.create_profile(USER, languages, 0).unwrap();
    let profile = c.get_profile(USER).unwrap();
    assert_eq!(profile.reputation_score, 100);
    assert_eq!(profile.total_corrections, 0);
    assert_eq!(profile.total_submissions, 0);
    assert_eq!(profile.languages.len(), 2);
    assert!(!profile.is_verified);
}

#[test]
fn test_update_reputation() {
    let mut c = UserProfileContract::new();
    c.create_profile(USER, vec!["English".to_string()], 0).unwrap();
    c.update_reputation(USER, 50, CALLER, 1).unwrap();
    assert_eq!(c.get_reputation(USER), 150);
    c.update_reputation(USER, -25, CALLER, 2).unwrap();
    assert_eq!(c.get_reputation(USER), 125);
}

#[test]
fn reputation_saturates() {
    let mut c = UserProfileContract::new();
    c.create_profile(USER, vec!["English".to_string()], 0).unwrap();
    c.update_reputation(USER, i64::MIN, CALLER, 1).unwrap();
    assert_eq!(c.get_reputation(USER), 0);
    c.update_reputation(USER, i64::MAX, CALLER, 2).unwrap();
    c.update_reputation(USER, i64::MAX, CALLER, 3).unwrap();
    c.update_reputation(USER, i64::MAX, CALLER, 4).unwrap();
    assert_eq!(c.get_reputation(USER), u64::MAX);
}

#[test]
fn profile_errors() {
    let mut c = UserProfileContract::new();
    assert_eq!(c.create_profile(USER, vec![], 0), Err(Error::InvalidInput));
    assert!(matches!(c.get_profile(USER), Err(Error::ProfileNotFound)));
    assert_eq!(c.get_reputation(USER), 0);
    assert_eq!(c.update_reputation(USER, 1, CALLER, 0), Err(Error::ProfileNotFound));
    assert_eq!(c.update_activity(USER, 0), Err(Error::ProfileNotFound));
    c.create_profile(USER, vec!["English".to_string()], 0).unwrap();
    assert_eq!(
        c.create_profile(USER, vec!["French".to_string()], 0),
        Err(Error::ProfileAlreadyExists)
    );
    assert_eq!(Error::Unauthorized.code(), 3);
}

#[test]
fn counters_and_activity() {
    let mut c = UserProfileContract::new();
    c.create_profile(USER, vec!["English".to_string()], 5).unwrap();
    c.increment_corrections(USER, CALLER, 6).unwrap();
    c.increment_corrections(USER, CALLER, 7).unwrap();
    c.increment_submissions(USER, CALLER, 8).unwrap();
    c.update_activity(USER, 9).unwrap();
    let p = c.get_profile(USER).unwrap();
    assert_eq!(p.total_corrections, 2);
    assert_eq!(p.total_submissions, 1);
    assert_eq!(p.last_activity, 9);
    assert_eq!(p.languages, vec!["English".to_string()]);
    assert_eq!(
        c.increment_submissions(CALLER, USER, 1),
        Err(Error::ProfileNotFound)
    );
}
