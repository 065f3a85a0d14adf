//! The marketplace itself: submissions, the corrections attached to them,
//! and the ratings that complete them.
use vstd::prelude::*;
use vstd::pervasive::VecAdditionalExecFns;
use vstd::string::StrSliceExecFns;
use crate::host::{Identity, MAX_HASHED_CHARS, sha256_of, sha256_digest};

verus! {

/// Lifecycle stage of a submission.
#[derive(Clone, Copy, Debug, PartialEq, Eq, Structural)]
pub enum SubmissionStatus {
    Open,
    HasCorrections,
    Completed,
    /// Declared for a future expiry policy; no operation enters it.
    Expired,
}

#[derive(Clone, Copy, Debug, PartialEq, Eq, Structural)]
pub enum Error {
    SubmissionNotFound,
    Unauthorized,
    InvalidInput,
    AlreadyRated,
    InsufficientFunds,
    SubmissionClosed,
    AlreadyCorrected,
}

impl Error {
    /// The number under which the host reports this error.
    pub fn code(&self) -> (r: u32)
        ensures
            r == error_code(*self),
    {
        match self {
            Error::SubmissionNotFound => 1,
            Error::Unauthorized => 2,
            Error::InvalidInput => 3,
            Error::AlreadyRated => 4,
            Error::InsufficientFunds => 5,
            Error::SubmissionClosed => 6,
            Error::AlreadyCorrected => 7,
        }
    }
}

pub open spec fn error_code(e: Error) -> u32 {
    match e {
        Error::SubmissionNotFound => 1,
        Error::Unauthorized => 2,
        Error::InvalidInput => 3,
        Error::AlreadyRated => 4,
        Error::InsufficientFunds => 5,
        Error::SubmissionClosed => 6,
        Error::AlreadyCorrected => 7,
    }
}

/// An exercise awaiting correction.
#[derive(Debug)]
pub struct Submission {
    pub id: u64,
    pub learner: Identity,
    pub exercise_text: String,
    pub exercise_hash: [u8; 32],
    pub fee_amount: u64,
    pub status: SubmissionStatus,
    pub created_at: u64,
    pub language: String,
}

/// A corrector's answer to a submission, with the learner's rating once given.
#[derive(Debug)]
pub struct Correction {
    pub corrector: Identity,
    pub correction_text: String,
    pub submitted_at: u64,
    pub rating: Option<u32>,
}

/// Something that happened in the marketplace, as the host announces it.
pub enum CorrectionMarketEvent {
    ExerciseSubmitted { submission_id: u64, learner: Identity, language: String },
    CorrectionAdded { submission_id: u64, corrector: Identity },
    CorrectionRated { submission_id: u64, corrector: Identity, rating: u32 },
}

impl Submission {
    /// A field-by-field copy.
    pub fn copied(&self) -> (r: Submission)
        ensures
            r == *self,
    {
        Submission {
            id: self.id,
            learner: self.learner,
            exercise_text: self.exercise_text.clone(),
            exercise_hash: self.exercise_hash,
            fee_amount: self.fee_amount,
            status: self.status,
            created_at: self.created_at,
            language: self.language.clone(),
        }
    }
}

impl Correction {
    /// A field-by-field copy.
    pub fn copied(&self) -> (r: Correction)
        ensures
            r == *self,
    {
        Correction {
            corrector: self.corrector,
            correction_text: self.correction_text.clone(),
            submitted_at: self.submitted_at,
            rating: self.rating,
        }
    }
}

pub open spec fn is_accepting(s: SubmissionStatus) -> bool {
    s == SubmissionStatus::Open || s == SubmissionStatus::HasCorrections
}

pub open spec fn all_rated(cs: Seq<Correction>) -> bool {
    forall|k: int| 0 <= k < cs.len() ==> (#[trigger] cs[k]).rating is Some
}

/// The status that a submission's corrections call for.
pub open spec fn status_for(cs: Seq<Correction>) -> SubmissionStatus {
    if cs.len() == 0 {
        SubmissionStatus::Open
    } else if all_rated(cs) {
        SubmissionStatus::Completed
    } else {
        SubmissionStatus::HasCorrections
    }
}

pub open spec fn has_corrector(cs: Seq<Correction>, c: Identity) -> bool {
    exists|k: int| 0 <= k < cs.len() && (#[trigger] cs[k]).corrector == c
}

pub open spec fn rated_by(cs: Seq<Correction>, c: Identity) -> bool {
    exists|k: int| 0 <= k < cs.len() && (#[trigger] cs[k]).corrector == c && cs[k].rating is Some
}

pub open spec fn correctors_unique(cs: Seq<Correction>) -> bool {
    forall|a: int, b: int|
        0 <= a < cs.len() && 0 <= b < cs.len() && a != b ==> (#[trigger] cs[a]).corrector
            != (#[trigger] cs[b]).corrector
}

pub open spec fn ratings_in_range(cs: Seq<Correction>) -> bool {
    forall|k: int|
        0 <= k < cs.len() && (#[trigger] cs[k]).rating is Some ==> 1 <= cs[k].rating->0 <= 5
}

/// The corrections with the one by `c` given the rating `r`.
pub open spec fn with_rating(cs: Seq<Correction>, c: Identity, r: u32) -> Seq<Correction> {
    cs.map_values(
        |x: Correction|
            if x.corrector == c {
                Correction { rating: Some(r), ..x }
            } else {
                x
            },
    )
}

/// The submissions that a query for `language` returns, scanning the first
/// `n` submissions from the newest down and keeping at most `limit`.
pub open spec fn open_in_language(subs: Seq<Submission>, n: nat, language: Seq<char>, limit: nat) -> Seq<
    Submission,
>
    decreases n,
{
    if n == 0 || limit == 0 || n > subs.len() {
        Seq::empty()
    } else {
        let s = subs[n - 1];
        if s.language@ == language && is_accepting(s.status) {
            seq![s] + open_in_language(subs, (n - 1) as nat, language, (limit - 1) as nat)
        } else {
            open_in_language(subs, (n - 1) as nat, language, limit)
        }
    }
}

/// The marketplace as a value: the submissions in order of their ids, and
/// beside each the corrections attached to it.
pub struct MarketView {
    pub submissions: Seq<Submission>,
    pub corrections: Seq<Seq<Correction>>,
}

impl MarketView {
    pub open spec fn total(self) -> nat {
        self.submissions.len()
    }

    pub open spec fn has(self, id: u64) -> bool {
        1 <= id <= self.submissions.len()
    }

    pub open spec fn submission(self, id: u64) -> Submission {
        self.submissions[id - 1]
    }

    pub open spec fn corrections_of(self, id: u64) -> Seq<Correction> {
        self.corrections[id - 1]
    }

    /// What holds of every reachable state of the marketplace.
    pub open spec fn wf(self) -> bool {
        &&& self.corrections.len() == self.submissions.len()
        &&& self.submissions.len() <= u64::MAX
        &&& forall|i: int|
            0 <= i < self.submissions.len() ==> {
                let s = #[trigger] self.submissions[i];
                let cs = self.corrections[i];
                &&& s.id == i + 1
                &&& s.exercise_hash@ == sha256_of(s.exercise_text@)
                &&& s.status == status_for(cs)
                &&& correctors_unique(cs)
                &&& ratings_in_range(cs)
            }
    }

    /// The error that `submit_exercise` reports on these arguments, if any.
    pub open spec fn submit_error(text: Seq<char>, language: Seq<char>, fee: u64) -> Option<Error> {
        if text.len() == 0 || language.len() == 0 || fee == 0 {
            Some(Error::InvalidInput)
        } else {
            None
        }
    }

    /// `new` is `self` with one submission more, made of these values.
    pub open spec fn submitted(
        self,
        new: MarketView,
        learner: Identity,
        text: String,
        language: String,
        fee: u64,
        now: u64,
    ) -> bool {
        let s = new.submissions.last();
        &&& new.submissions.len() == self.submissions.len() + 1
        &&& new.submissions.take(self.submissions.len() as int) == self.submissions
        &&& new.corrections == self.corrections.push(Seq::empty())
        &&& s.id == self.submissions.len() + 1
        &&& s.learner == learner
        &&& s.exercise_text == text
        &&& s.exercise_hash@ == sha256_of(text@)
        &&& s.fee_amount == fee
        &&& s.status == SubmissionStatus::Open
        &&& s.created_at == now
        &&& s.language == language
    }

    /// The error that `add_correction` reports on these arguments, if any.
    pub open spec fn add_error(self, corrector: Identity, id: u64, text: Seq<char>) -> Option<Error> {
        if text.len() == 0 {
            Some(Error::InvalidInput)
        } else if !self.has(id) {
            Some(Error::SubmissionNotFound)
        } else if !is_accepting(self.submission(id).status) {
            Some(Error::SubmissionClosed)
        } else if has_corrector(self.corrections_of(id), corrector) {
            Some(Error::AlreadyCorrected)
        } else {
            None
        }
    }

    /// `self` with the correction by `corrector` attached to submission `id`.
    pub open spec fn correction_added(self, corrector: Identity, id: u64, text: String, now: u64) -> MarketView {
        let i = id - 1;
        let c = Correction { corrector, correction_text: text, submitted_at: now, rating: None };
        MarketView {
            submissions: self.submissions.update(
                i,
                Submission { status: SubmissionStatus::HasCorrections, ..self.submissions[i] },
            ),
            corrections: self.corrections.update(i, self.corrections[i].push(c)),
        }
    }

    /// The error that `rate_correction` reports on these arguments, if any.
    pub open spec fn rate_error(self, learner: Identity, id: u64, corrector: Identity, rating: u32) -> Option<
        Error,
    > {
        if rating == 0 || rating > 5 {
            Some(Error::InvalidInput)
        } else if !self.has(id) {
            Some(Error::SubmissionNotFound)
        } else if self.submission(id).learner != learner {
            Some(Error::Unauthorized)
        } else if !has_corrector(self.corrections_of(id), corrector) {
            Some(Error::SubmissionNotFound)
        } else if rated_by(self.corrections_of(id), corrector) {
            Some(Error::AlreadyRated)
        } else {
            None
        }
    }

    /// `self` with the correction by `corrector` on submission `id` rated, and
    /// the submission's status derived anew from its corrections.
    pub open spec fn rating_applied(self, id: u64, corrector: Identity, rating: u32) -> MarketView {
        let i = id - 1;
        let cs = with_rating(self.corrections[i], corrector, rating);
        MarketView {
            submissions: self.submissions.update(
                i,
                Submission { status: status_for(cs), ..self.submissions[i] },
            ),
            corrections: self.corrections.update(i, cs),
        }
    }
}

pub open spec fn outcome(e: Option<Error>) -> Result<(), Error> {
    match e {
        Some(e) => Err(e),
        None => Ok(()),
    }
}

/// The position of the correction by `c`, if there is one.
fn find_corrector(cs: &Vec<Correction>, c: Identity) -> (r: Option<usize>)
    ensures
        match r {
            Some(k) => k < cs@.len() && cs@[k as int].corrector == c,
            None => !has_corrector(cs@, c),
        },
{
    let mut k: usize = 0;
    while k < cs.len()
        invariant
            k <= cs@.len(),
            forall|j: int| 0 <= j < k ==> (#[trigger] cs@[j]).corrector != c,
        decreases cs@.len() - k,
    {
        if cs[k].corrector == c {
            return Some(k);
        }
        k += 1;
    }
    None
}

/// Whether every correction carries a rating.
fn every_one_rated(cs: &Vec<Correction>) -> (r: bool)
    ensures
        r == all_rated(cs@),
{
    let mut k: usize = 0;
    while k < cs.len()
        invariant
            k <= cs@.len(),
            forall|j: int| 0 <= j < k ==> (#[trigger] cs@[j]).rating is Some,
        decreases cs@.len() - k,
    {
        if cs[k].rating.is_none() {
            return false;
        }
        k += 1;
    }
    true
}

/// A copy of the corrections, in the same order.
fn copy_corrections(cs: &Vec<Correction>) -> (r: Vec<Correction>)
    ensures
        r@ == cs@,
{
    let mut r: Vec<Correction> = Vec::new();
    let mut k: usize = 0;
    while k < cs.len()
        invariant
            k <= cs@.len(),
            r@ == cs@.take(k as int),
        decreases cs@.len() - k,
    {
        r.push(cs[k].copied());
        k += 1;
        assert(r@ =~= cs@.take(k as int));
    }
    assert(cs@.take(cs@.len() as int) =~= cs@);
    r
}

/// The marketplace's persistent state.
pub struct CorrectionMarketContract {
    submissions: Vec<Submission>,
    corrections: Vec<Vec<Correction>>,
}

impl View for CorrectionMarketContract {
    type V = MarketView;

    closed spec fn view(&self) -> MarketView {
        MarketView {
            submissions: self.submissions@,
            corrections: self.corrections@.map_values(|v: Vec<Correction>| v@),
        }
    }
}

impl CorrectionMarketContract {
    /// An empty marketplace.
    pub fn new() -> (r: Self)
        ensures
            r@.wf(),
            r@.submissions.len() == 0,
            r@.corrections.len() == 0,
    {
        let r = CorrectionMarketContract { submissions: Vec::new(), corrections: Vec::new() };
        assert(r@.corrections =~= Seq::<Seq<Correction>>::empty());
        r
    }

    /// Records a new exercise by `learner`, received at time `now`, and
    /// returns its id.
    pub fn submit_exercise(
        &mut self,
        learner: Identity,
        exercise_text: String,
        language: String,
        fee_amount: u64,
        now: u64,
    ) -> (r: Result<u64, Error>)
        requires
            old(self)@.wf(),
            old(self)@.total() < u64::MAX,
            exercise_text@.len() <= MAX_HASHED_CHARS,
        ensures
            final(self)@.wf(),
            match MarketView::submit_error(exercise_text@, language@, fee_amount) {
                Some(e) => r == Err::<u64, Error>(e) && final(self)@ == old(self)@,
                None => r == Ok::<u64, Error>((old(self)@.total() + 1) as u64) && old(
                    self,
                )@.submitted(final(self)@, learner, exercise_text, language, fee_amount, now),
            },
    {
        if exercise_text.as_str().unicode_len() == 0 || language.as_str().unicode_len() == 0
            || fee_amount == 0 {
            return Err(Error::InvalidInput);
        }
        let ghost text = exercise_text;
        let ghost lang = language;
        let ghost old_view = self@;
        let id: u64 = self.submissions.len() as u64 + 1;
        let exercise_hash = sha256_digest(&exercise_text);
        let submission = Submission {
            id,
            learner,
            exercise_text,
            exercise_hash,
            fee_amount,
            status: SubmissionStatus::Open,
            created_at: now,
            language,
        };
        self.submissions.push(submission);
        self.corrections.push(Vec::new());
        proof {
            assert(self@.submissions.take(old_view.submissions.len() as int)
                =~= old_view.submissions);
            assert(self@.corrections =~= old_view.corrections.push(Seq::empty()));
            assert forall|i: int| 0 <= i < self@.submissions.len() implies {
                let s = #[trigger] self@.submissions[i];
                let cs = self@.corrections[i];
                &&& s.id == i + 1
                &&& s.exercise_hash@ == sha256_of(s.exercise_text@)
                &&& s.status == status_for(cs)
                &&& correctors_unique(cs)
                &&& ratings_in_range(cs)
            } by {
                if i < old_view.submissions.len() {
                    assert(self@.submissions[i] == old_view.submissions[i]);
                    assert(self@.corrections[i] == old_view.corrections[i]);
                }
            }
        }
        Ok(id)
    }

    /// Attaches a correction by `corrector`, received at time `now`, to
    /// submission `submission_id`.
    pub fn add_correction(
        &mut self,
        corrector: Identity,
        submission_id: u64,
        correction_text: String,
        now: u64,
    ) -> (r: Result<(), Error>)
        requires
            old(self)@.wf(),
        ensures
            final(self)@.wf(),
            r == outcome(old(self)@.add_error(corrector, submission_id, correction_text@)),
            r is Err ==> final(self)@ == old(self)@,
            r is Ok ==> final(self)@ == old(self)@.correction_added(
                corrector,
                submission_id,
                correction_text,
                now,
            ),
    {
        if correction_text.as_str().unicode_len() == 0 {
            return Err(Error::InvalidInput);
        }
        if submission_id == 0 || submission_id > self.submissions.len() as u64 {
            return Err(Error::SubmissionNotFound);
        }
        let i = (submission_id - 1) as usize;
        match self.submissions[i].status {
            SubmissionStatus::Open | SubmissionStatus::HasCorrections => {},
            _ => return Err(Error::SubmissionClosed),
        }
        if find_corrector(&self.corrections[i], corrector).is_some() {
            return Err(Error::AlreadyCorrected);
        }
        let ghost old_view = self@;
        let ghost text = correction_text;
        let mut list: Vec<Correction> = Vec::new();
        self.corrections.set_and_swap(i, &mut list);
        list.push(Correction { corrector, correction_text, submitted_at: now, rating: None });
        self.corrections.set(i, list);
        let s = &self.submissions[i];
        let updated = Submission {
            id: s.id,
            learner: s.learner,
            exercise_text: s.exercise_text.clone(),
            exercise_hash: s.exercise_hash,
            fee_amount: s.fee_amount,
            status: SubmissionStatus::HasCorrections,
            created_at: s.created_at,
            language: s.language.clone(),
        };
        self.submissions.set(i, updated);
        proof {
            let goal = old_view.correction_added(corrector, submission_id, text, now);
            assert(self@.corrections =~= goal.corrections);
            assert(self@.submissions =~= goal.submissions);
            let cs = self@.corrections[i as int];
            assert(cs[cs.len() - 1].rating is None);
            assert(!all_rated(cs));
            assert forall|a: int, b: int|
                0 <= a < cs.len() && 0 <= b < cs.len() && a != b implies (#[trigger] cs[a]).corrector
                != (#[trigger] cs[b]).corrector by {
                if a < cs.len() - 1 && b < cs.len() - 1 {
                    assert(cs[a] == old_view.corrections[i as int][a]);
                    assert(cs[b] == old_view.corrections[i as int][b]);
                } else if a < cs.len() - 1 {
                    assert(cs[a] == old_view.corrections[i as int][a]);
                } else {
                    assert(cs[b] == old_view.corrections[i as int][b]);
                }
            }
            assert forall|k: int|
                0 <= k < cs.len() && (#[trigger] cs[k]).rating is Some implies 1 <= cs[k].rating->0
                <= 5 by {
                assert(cs[k] == old_view.corrections[i as int][k]);
            }
            assert forall|j: int| 0 <= j < self@.submissions.len() implies {
                let s = #[trigger] self@.submissions[j];
                let cs = self@.corrections[j];
                &&& s.id == j + 1
                &&& s.exercise_hash@ == sha256_of(s.exercise_text@)
                &&& s.status == status_for(cs)
                &&& correctors_unique(cs)
                &&& ratings_in_range(cs)
            } by {
                assert(old_view.submissions[j].id == j + 1);
            }
        }
        Ok(())
    }

    /// Records the rating that `learner` gives the correction by `corrector`
    /// on submission `submission_id`; the submission is completed once every
    /// correction on it is rated.
    pub fn rate_correction(
        &mut self,
        learner: Identity,
        submission_id: u64,
        corrector: Identity,
        rating: u32,
    ) -> (r: Result<(), Error>)
        requires
            old(self)@.wf(),
        ensures
            final(self)@.wf(),
            r == outcome(old(self)@.rate_error(learner, submission_id, corrector, rating)),
            r is Err ==> final(self)@ == old(self)@,
            r is Ok ==> final(self)@ == old(self)@.rating_applied(submission_id, corrector, rating),
    {
        if rating == 0 || rating > 5 {
            return Err(Error::InvalidInput);
        }
        if submission_id == 0 || submission_id > self.submissions.len() as u64 {
            return Err(Error::SubmissionNotFound);
        }
        let i = (submission_id - 1) as usize;
        if self.submissions[i].learner != learner {
            return Err(Error::Unauthorized);
        }
        let ghost old_view = self@;
        let ghost old_cs = old_view.corrections[i as int];
        assert(old_cs == self.corrections@[i as int]@);
        let k = match find_corrector(&self.corrections[i], corrector) {
            Some(k) => k,
            None => return Err(Error::SubmissionNotFound),
        };
        if self.corrections[i][k].rating.is_some() {
            return Err(Error::AlreadyRated);
        }
        assert(!rated_by(old_cs, corrector)) by {
            if rated_by(old_cs, corrector) {
                let j = choose|j: int|
                    0 <= j < old_cs.len() && (#[trigger] old_cs[j]).corrector == corrector
                        && old_cs[j].rating is Some;
                assert(j == k);
            }
        }
        let mut list: Vec<Correction> = Vec::new();
        self.corrections.set_and_swap(i, &mut list);
        let c = &list[k];
        let rated = Correction {
            corrector: c.corrector,
            correction_text: c.correction_text.clone(),
            submitted_at: c.submitted_at,
            rating: Some(rating),
        };
        list.set(k, rated);
        let complete = every_one_rated(&list);
        self.corrections.set(i, list);
        if complete {
            let s = &self.submissions[i];
            let updated = Submission {
                id: s.id,
                learner: s.learner,
                exercise_text: s.exercise_text.clone(),
                exercise_hash: s.exercise_hash,
                fee_amount: s.fee_amount,
                status: SubmissionStatus::Completed,
                created_at: s.created_at,
                language: s.language.clone(),
            };
            self.submissions.set(i, updated);
        }
        proof {
            let goal = old_view.rating_applied(submission_id, corrector, rating);
            let cs = self@.corrections[i as int];
            assert(cs =~= with_rating(old_cs, corrector, rating)) by {
                assert forall|j: int| 0 <= j < cs.len() implies cs[j] == with_rating(
                    old_cs,
                    corrector,
                    rating,
                )[j] by {
                    if j != k {
                        assert(old_cs[j].corrector != old_cs[k as int].corrector);
                    }
                }
            }
            assert(self@.corrections =~= goal.corrections);
            assert(old_cs[k as int].rating is None);
            assert(!all_rated(old_cs));
            assert(self@.submissions =~= goal.submissions);
            assert forall|a: int, b: int|
                0 <= a < cs.len() && 0 <= b < cs.len() && a != b implies (#[trigger] cs[a]).corrector
                != (#[trigger] cs[b]).corrector by {
                assert(old_cs[a].corrector != old_cs[b].corrector);
            }
            assert forall|j: int|
                0 <= j < cs.len() && (#[trigger] cs[j]).rating is Some implies 1 <= cs[j].rating->0
                <= 5 by {
                if j != k {
                    assert(cs[j] == old_cs[j]);
                }
            }
            assert forall|j: int| 0 <= j < self@.submissions.len() implies {
                let s = #[trigger] self@.submissions[j];
                let cs = self@.corrections[j];
                &&& s.id == j + 1
                &&& s.exercise_hash@ == sha256_of(s.exercise_text@)
                &&& s.status == status_for(cs)
                &&& correctors_unique(cs)
                &&& ratings_in_range(cs)
            } by {
                assert(old_view.submissions[j].id == j + 1);
            }
        }
        Ok(())
    }

    /// The open submissions in `language`, newest first, at most `limit` of them.
    pub fn get_open_submissions(&self, language: String, limit: u32) -> (r: Vec<Submission>)
        requires
            self@.wf(),
        ensures
            r@ == open_in_language(self@.submissions, self@.total(), language@, limit as nat),
    {
        let ghost subs = self@.submissions;
        let mut results: Vec<Submission> = Vec::new();
        let mut n: usize = self.submissions.len();
        let mut found: u32 = 0;
        while n > 0 && found < limit
            invariant
                subs == self@.submissions,
                n <= subs.len(),
                found <= limit,
                results@ + open_in_language(subs, n as nat, language@, (limit - found) as nat)
                    == open_in_language(subs, subs.len(), language@, limit as nat),
            decreases n,
        {
            let s = &self.submissions[n - 1];
            let ghost rest = open_in_language(subs, (n - 1) as nat, language@, (limit - found) as nat);
            let ghost rest_one = open_in_language(
                subs,
                (n - 1) as nat,
                language@,
                (limit - found - 1) as nat,
            );
            if s.language == language && (s.status == SubmissionStatus::Open || s.status
                == SubmissionStatus::HasCorrections) {
                let ghost before = results@;
                results.push(s.copied());
                found += 1;
                assert(before + (seq![*s] + rest_one) =~= results@ + rest_one);
            }
            n -= 1;
        }
        assert(results@ + Seq::<Submission>::empty() =~= results@);
        results
    }

    /// Submission `submission_id` with its corrections.
    pub fn get_submission(&self, submission_id: u64) -> (r: Result<(Submission, Vec<Correction>), Error>)
        requires
            self@.wf(),
        ensures
            !self@.has(submission_id) ==> r == Err::<(Submission, Vec<Correction>), Error>(
                Error::SubmissionNotFound,
            ),
            self@.has(submission_id) ==> (r matches Ok((s, cs)) && s == self@.submission(
                submission_id,
            ) && cs@ == self@.corrections_of(submission_id)),
    {
        if submission_id == 0 || submission_id > self.submissions.len() as u64 {
            return Err(Error::SubmissionNotFound);
        }
        let i = (submission_id - 1) as usize;
        Ok((self.submissions[i].copied(), copy_corrections(&self.corrections[i])))
    }

    /// The corrections on submission `submission_id`.
    pub fn get_corrections(&self, submission_id: u64) -> (r: Result<Vec<Correction>, Error>)
        requires
            self@.wf(),
        ensures
            !self@.has(submission_id) ==> r == Err::<Vec<Correction>, Error>(
                Error::SubmissionNotFound,
            ),
            self@.has(submission_id) ==> (r matches Ok(cs) && cs@ == self@.corrections_of(
                submission_id,
            )),
    {
        if submission_id == 0 || submission_id > self.submissions.len() as u64 {
            return Err(Error::SubmissionNotFound);
        }
        let i = (submission_id - 1) as usize;
        Ok(copy_corrections(&self.corrections[i]))
    }

    /// The number of submissions so far.
    pub fn get_total_submissions(&self) -> (r: u64)
        requires
            self@.wf(),
        ensures
            r == self@.total(),
    {
        self.submissions.len() as u64
    }
}

/// Submission ids are dense: in every reachable state the submission at
/// position `i` has id `i + 1`. A successful submission adds one to the
/// total and gets an id above every earlier one, namely the new total.
pub proof fn ids_are_dense(
    before: MarketView,
    after: MarketView,
    learner: Identity,
    text: String,
    language: String,
    fee: u64,
    now: u64,
)
    requires
        before.wf(),
        before.submitted(after, learner, text, language, fee, now),
    ensures
        forall|i: int| 0 <= i < before.submissions.len() ==> (#[trigger] before.submissions[i]).id == i + 1,
        after.total() == before.total() + 1,
        after.submissions.last().id == after.total(),
        forall|i: int|
            0 <= i < before.submissions.len() ==> (#[trigger] before.submissions[i]).id
                < after.submissions.last().id,
{
}

/// Every stored submission carries the digest of its own exercise text.
pub proof fn hash_matches_text(v: MarketView, id: u64)
    requires
        v.wf(),
        v.has(id),
    ensures
        v.submission(id).exercise_hash@ == sha256_of(v.submission(id).exercise_text@),
{
    assert(v.submissions[id - 1].id == id);
}

/// No two corrections on one submission share a corrector: once a corrector's
/// correction is attached, a second one from the same corrector with a
/// non-empty text fails with `AlreadyCorrected`.
pub proof fn one_correction_per_corrector(
    before: MarketView,
    corrector: Identity,
    id: u64,
    first: String,
    now: u64,
    second: Seq<char>,
)
    requires
        before.wf(),
        before.add_error(corrector, id, first@) is None,
        second.len() > 0,
    ensures
        ({
            let after = before.correction_added(corrector, id, first, now);
            &&& after.add_error(corrector, id, second) == Some(Error::AlreadyCorrected)
            &&& correctors_unique(after.corrections_of(id))
        }),
{
    let after = before.correction_added(corrector, id, first, now);
    let cs = after.corrections_of(id);
    assert(cs[cs.len() - 1].corrector == corrector);
    let old_cs = before.corrections_of(id);
    assert(before.submissions[id - 1].status == status_for(old_cs));
    assert forall|a: int, b: int|
        0 <= a < cs.len() && 0 <= b < cs.len() && a != b implies (#[trigger] cs[a]).corrector
        != (#[trigger] cs[b]).corrector by {
        if a < cs.len() - 1 && b < cs.len() - 1 {
            assert(cs[a] == old_cs[a]);
            assert(cs[b] == old_cs[b]);
        } else if a < cs.len() - 1 {
            assert(cs[a] == old_cs[a]);
        } else {
            assert(cs[b] == old_cs[b]);
        }
    }
}

/// A submission is `Completed` exactly when it has at least one correction
/// and every correction on it is rated.
pub proof fn completed_iff_all_rated(v: MarketView, id: u64)
    requires
        v.wf(),
        v.has(id),
    ensures
        v.submission(id).status == SubmissionStatus::Completed <==> (v.corrections_of(id).len() >= 1
            && all_rated(v.corrections_of(id))),
{
    assert(v.submissions[id - 1].id == id);
}

/// A rating is set once: after a correction is rated, rating it again fails
/// with `AlreadyRated` (which leaves the state as it is), and the correction
/// keeps the first rating.
pub proof fn rating_is_final(
    before: MarketView,
    learner: Identity,
    id: u64,
    corrector: Identity,
    first: u32,
    second: u32,
)
    requires
        before.wf(),
        before.rate_error(learner, id, corrector, first) is None,
        1 <= second <= 5,
    ensures
        ({
            let after = before.rating_applied(id, corrector, first);
            &&& after.rate_error(learner, id, corrector, second) == Some(Error::AlreadyRated)
            &&& exists|k: int|
                0 <= k < after.corrections_of(id).len() && (#[trigger] after.corrections_of(
                    id,
                )[k]).corrector == corrector && after.corrections_of(id)[k].rating == Some(first)
        }),
{
    let after = before.rating_applied(id, corrector, first);
    let old_cs = before.corrections_of(id);
    let cs = after.corrections_of(id);
    let k = choose|k: int| 0 <= k < old_cs.len() && (#[trigger] old_cs[k]).corrector == corrector;
    assert(cs[k].corrector == corrector && cs[k].rating == Some(first));
    assert(has_corrector(cs, corrector));
    assert(rated_by(cs, corrector));
}

} // verus!
