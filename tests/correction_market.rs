use lingo_market::correction_market::{
    Correction, CorrectionMarketContract, Error, Submission, SubmissionStatus,
};
use lingo_market::host::Identity;

const LEARNER: Identity = Identity { id: 1 };
const CORRECTOR: Identity = Identity { id: 2 };
const OTHER: Identity = Identity { id: 3 };

fn market() -> CorrectionMarketContract {
    CorrectionMarketContract::new()
}

fn text(s: &str) -> String {
    s.to_string()
}

fn submit(m: &mut CorrectionMarketContract, language: &str) -> u64 {
    m.submit_exercise(LEARNER, text("Hello, how are you?"), text(language), 100, 10)
        .unwrap()
}

fn submission(m: &CorrectionMarketContract, id: u64) -> Submission {
    m.get_submission(id).unwrap().0
}

fn corrections(m: &CorrectionMarketContract, id: u64) -> Vec<Correction> {
    m.get_corrections(id).unwrap()
}

#[test]
fn test_submit_exercise() {
    let mut m = market();
    let exercise_text = text("Hello, how are you?");
    let language = text("English");
    let submission_id = m
        .submit_exercise(LEARNER, exercise_text.clone(), language.clone(), 100, 10)
        .unwrap();
    assert_eq!(submission_id, 1);
    let (submission, corrections) = m.get_submission(submission_id).unwrap();
    assert_eq!(submission.learner, LEARNER);
    assert_eq!(submission.exercise_text, exercise_text);
    assert_eq!(submission.language, language);
    assert_eq!(submission.fee_amount, 100);
    assert!(corrections.is_empty());
}

#[test]
fn test_add_correction() {
    let mut m = market();
    let correction_text = text("Hello, how are you doing?");
    let submission_id = submit(&mut m, "English");
    m.add_correction(CORRECTOR, submission_id, correction_text.clone(), 20)
        .unwrap();
    let corrections = m.get_corrections(submission_id).unwrap();
    assert_eq!(corrections.len(), 1);
    assert_eq!(corrections[0].corrector, CORRECTOR);
    assert_eq!(corrections[0].correction_text, correction_text);
    assert!(corrections[0].rating.is_none());
}

#[test]
fn test_rate_correction() {
    let mut m = market();
    let submission_id = submit(&mut m, "English");
    m.add_correction(CORRECTOR, submission_id, text("Hello, how are you doing?"), 20)
        .unwrap();
    m.rate_correction(LEARNER, submission_id, CORRECTOR, 5).unwrap();
    let corrections = m.get_corrections(submission_id).unwrap();
    assert_eq!(corrections[0].rating, Some(5));
}

#[test]
fn full_round_of_submit_correct_rate() {
    let mut m = market();
    let id = m
        .submit_exercise(LEARNER, text("Hello, how are you?"), text("English"), 100, 10)
        .unwrap();
    assert_eq!(id, 1);
    assert_eq!(submission(&m, 1).status, SubmissionStatus::Open);
    m.add_correction(CORRECTOR, 1, text("Hello, how are you doing?"), 20).unwrap();
    assert_eq!(submission(&m, 1).status, SubmissionStatus::HasCorrections);
    m.rate_correction(LEARNER, 1, CORRECTOR, 5).unwrap();
    assert_eq!(corrections(&m, 1)[0].rating, Some(5));
    assert_eq!(submission(&m, 1).status, SubmissionStatus::Completed);
}

#[test]
fn ids_count_up_from_one() {
    let mut m = market();
    assert_eq!(m.get_total_submissions(), 0);
    assert_eq!(submit(&mut m, "English"), 1);
    assert_eq!(
        m.submit_exercise(LEARNER, text(""), text("English"), 100, 10),
        Err(Error::InvalidInput)
    );
    assert_eq!(submit(&mut m, "French"), 2);
    assert_eq!(submit(&mut m, "German"), 3);
    assert_eq!(m.get_total_submissions(), 3);
    assert_eq!(submission(&m, 2).id, 2);
    assert_eq!(submission(&m, 2).created_at, 10);
}

#[test]
fn submit_rejects_empty_text_language_or_fee() {
    let mut m = market();
    assert_eq!(
        m.submit_exercise(LEARNER, text(""), text("English"), 100, 0),
        Err(Error::InvalidInput)
    );
    assert_eq!(
        m.submit_exercise(LEARNER, text("Hi"), text(""), 100, 0),
        Err(Error::InvalidInput)
    );
    assert_eq!(
        m.submit_exercise(LEARNER, text("Hi"), text("English"), 0, 0),
        Err(Error::InvalidInput)
    );
    assert_eq!(m.get_total_submissions(), 0);
}

#[test]
fn stored_hash_is_sha256_of_text() {
    let mut m = market();
    let id = m
        .submit_exercise(LEARNER, text("abc"), text("English"), 5, 0)
        .unwrap();
    let expected: [u8; 32] = [
        0xba, 0x78, 0x16, 0xbf, 0x8f, 0x01, 0xcf, 0xea, 0x41, 0x41, 0x40, 0xde, 0x5d, 0xae, 0x22,
        0x23, 0xb0, 0x03, 0x61, 0xa3, 0x96, 0x17, 0x7a, 0x9c, 0xb4, 0x10, 0xff, 0x61, 0xf2, 0x00,
        0x15, 0xad,
    ];
    assert_eq!(submission(&m, id).exercise_hash, expected);
}

#[test]
fn second_correction_by_same_corrector_fails() {
    let mut m = market();
    let id = submit(&mut m, "English");
    m.add_correction(CORRECTOR, id, text("first"), 1).unwrap();
    assert_eq!(
        m.add_correction(CORRECTOR, id, text("second"), 2),
        Err(Error::AlreadyCorrected)
    );
    assert_eq!(corrections(&m, id).len(), 1);
    assert_eq!(corrections(&m, id)[0].correction_text, "first");
}

#[test]
fn add_correction_errors() {
    let mut m = market();
    let id = submit(&mut m, "English");
    assert_eq!(
        m.add_correction(CORRECTOR, id, text(""), 1),
        Err(Error::InvalidInput)
    );
    assert_eq!(
        m.add_correction(CORRECTOR, 0, text("fix"), 1),
        Err(Error::SubmissionNotFound)
    );
    assert_eq!(
        m.add_correction(CORRECTOR, 2, text("fix"), 1),
        Err(Error::SubmissionNotFound)
    );
    m.add_correction(CORRECTOR, id, text("fix"), 1).unwrap();
    m.rate_correction(LEARNER, id, CORRECTOR, 3).unwrap();
    assert_eq!(
        m.add_correction(OTHER, id, text("late"), 2),
        Err(Error::SubmissionClosed)
    );
}

#[test]
fn completed_only_when_every_correction_rated() {
    let mut m = market();
    let id = submit(&mut m, "English");
    m.add_correction(CORRECTOR, id, text("one"), 1).unwrap();
    m.add_correction(OTHER, id, text("two"), 2).unwrap();
    m.rate_correction(LEARNER, id, OTHER, 4).unwrap();
    assert_eq!(submission(&m, id).status, SubmissionStatus::HasCorrections);
    m.rate_correction(LEARNER, id, CORRECTOR, 2).unwrap();
    assert_eq!(submission(&m, id).status, SubmissionStatus::Completed);
}

#[test]
fn rating_twice_keeps_first_rating() {
    let mut m = market();
    let id = submit(&mut m, "English");
    m.add_correction(CORRECTOR, id, text("fix"), 1).unwrap();
    m.add_correction(OTHER, id, text("fix too"), 1).unwrap();
    m.rate_correction(LEARNER, id, CORRECTOR, 4).unwrap();
    assert_eq!(
        m.rate_correction(LEARNER, id, CORRECTOR, 1),
        Err(Error::AlreadyRated)
    );
    let rated: Vec<Correction> = corrections(&m, id)
        .into_iter()
        .filter(|c| c.corrector == CORRECTOR)
        .collect();
    assert_eq!(rated[0].rating, Some(4));
}

#[test]
fn rate_by_stranger_is_unauthorized() {
    let mut m = market();
    let id = submit(&mut m, "English");
    m.add_correction(CORRECTOR, id, text("fix"), 1).unwrap();
    for rating in 1..=5u32 {
        assert_eq!(
            m.rate_correction(OTHER, id, CORRECTOR, rating),
            Err(Error::Unauthorized)
        );
    }
    assert_eq!(corrections(&m, id)[0].rating, None);
}

#[test]
fn rate_correction_errors() {
    let mut m = market();
    let id = submit(&mut m, "English");
    m.add_correction(CORRECTOR, id, text("fix"), 1).unwrap();
    assert_eq!(
        m.rate_correction(LEARNER, id, CORRECTOR, 0),
        Err(Error::InvalidInput)
    );
    assert_eq!(
        m.rate_correction(LEARNER, id, CORRECTOR, 6),
        Err(Error::InvalidInput)
    );
    assert_eq!(
        m.rate_correction(LEARNER, 9, CORRECTOR, 3),
        Err(Error::SubmissionNotFound)
    );
    assert_eq!(
        m.rate_correction(LEARNER, id, OTHER, 3),
        Err(Error::SubmissionNotFound)
    );
}

#[test]
fn open_submissions_in_other_language_is_empty() {
    let mut m = market();
    submit(&mut m, "English");
    submit(&mut m, "English");
    assert!(m.get_open_submissions(text("French"), 5).is_empty());
}

#[test]
fn open_submissions_newest_first_with_limit() {
    let mut m = market();
    submit(&mut m, "English");
    submit(&mut m, "French");
    submit(&mut m, "English");
    submit(&mut m, "English");
    m.add_correction(CORRECTOR, 4, text("fix"), 1).unwrap();
    m.rate_correction(LEARNER, 4, CORRECTOR, 5).unwrap();
    let ids: Vec<u64> = m
        .get_open_submissions(text("English"), 5)
        .iter()
        .map(|s| s.id)
        .collect();
    assert_eq!(ids, vec![3, 1]);
    let ids: Vec<u64> = m
        .get_open_submissions(text("English"), 1)
        .iter()
        .map(|s| s.id)
        .collect();
    assert_eq!(ids, vec![3]);
    assert!(m.get_open_submissions(text("English"), 0).is_empty());
}

#[test]
fn lookups_of_unknown_ids_fail() {
    let m = market();
    assert!(matches!(m.get_submission(1), Err(Error::SubmissionNotFound)));
    assert!(matches!(m.get_corrections(0), Err(Error::SubmissionNotFound)));
}

#[test]
fn market_error_codes() {
    assert_eq!(Error::SubmissionNotFound.code(), 1);
    assert_eq!(Error::Unauthorized.code(), 2);
    assert_eq!(Error::InvalidInput.code(), 3);
    assert_eq!(Error::AlreadyRated.code(), 4);
    assert_eq!(Error::InsufficientFunds.code(), 5);
    assert_eq!(Error::SubmissionClosed.code(), 6);
    assert_eq!(Error::AlreadyCorrected.code(), 7);
}
