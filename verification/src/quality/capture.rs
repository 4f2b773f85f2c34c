//! Quality-gated capture: the decisions of the three retry loops. The
//! caller captures frames and sleeps; the controllers here validate each
//! frame, keep the books and say what to do next.

use crate::errors::QualityError;
use crate::fixed::{
    isqrt, largest_to, lemma_div_upper_bound, lemma_square_of_sum, smallest_to, sqrt_floor, sum_to,
};
use crate::quality::validator::{QualityReport, QualityValidator};
use crate::types::CameraFrame;
use vstd::prelude::*;

verus! {

/// The most attempts a best-of-N capture makes.
pub const BEST_OF_N_MAX_ATTEMPTS: u32 = 10;

/// The attempts a best-of-N capture makes when none are asked for.
pub const BEST_OF_N_DEFAULT_ATTEMPTS: u32 = 5;

/// The overall score, in millionths, from which a frame is excellent.
pub const EXCELLENT_SCORE: u64 = 900_000;

/// The pause between two attempts of a best-of-N capture, in milliseconds.
pub const BEST_OF_N_PAUSE_MS: u64 = 100;

/// Capture with quality result.
#[derive(Debug, Clone)]
pub struct CaptureQualityResult {
    pub frame: CameraFrame,
    pub quality_report: QualityReport,
    pub attempts_used: u32,
}

/// What the caller of a controller does next: first pause for
/// `pause_ms` milliseconds (zero for no pause), then capture again when
/// `capture` holds, and otherwise ask the controller for its result.
#[derive(Debug, Clone, Copy, PartialEq, Eq, Structural)]
pub struct NextStep {
    pub pause_ms: u64,
    pub capture: bool,
}

/// The score that a captured frame adds to the record of a controller:
/// the overall score of its report, or nothing when the capture failed or
/// the frame is not well formed.
pub open spec fn observation(validator: &QualityValidator, captured: Option<CameraFrame>) -> Option<
    u64,
> {
    match captured {
        Some(frame) => if frame.well_formed() {
            Some(validator.spec_validate(&frame).score.overall)
        } else {
            None
        },
        None => None,
    }
}

/// `scores` with the observation appended, when there is one.
pub open spec fn observe(scores: Seq<u64>, seen: Option<u64>) -> Seq<u64> {
    match seen {
        Some(score) => scores.push(score),
        None => scores,
    }
}

/// `best` is the largest of `scores`.
pub open spec fn is_maximum(scores: Seq<u64>, best: u64) -> bool {
    &&& forall|i: int| 0 <= i < scores.len() ==> scores[i] <= best
    &&& exists|i: int| 0 <= i < scores.len() && scores[i] == best
}

/// Best-of-N capture: up to N attempts, of which the best frame is kept;
/// an excellent frame ends the run early.
pub struct BestOfN<'a> {
    validator: &'a QualityValidator,
    attempts: u32,
    attempt: u32,
    best: Option<CaptureQualityResult>,
    observed: Ghost<Seq<u64>>,
}

impl<'a> BestOfN<'a> {
    /// The books are in order: the attempts stay within the budget, and
    /// the frame kept is one that was validated and whose score is the
    /// largest observed.
    #[verifier::type_invariant]
    closed spec fn in_order(&self) -> bool {
        &&& self.attempts <= BEST_OF_N_MAX_ATTEMPTS
        &&& self.attempt <= self.attempts
        &&& self.observed@.len() <= self.attempt
        &&& match self.best {
            None => self.observed@.len() == 0,
            Some(best) => {
                &&& best.frame.well_formed()
                &&& best.quality_report@ == self.validator.spec_validate(&best.frame)
                &&& is_maximum(self.observed@, best.quality_report.score.overall)
                &&& 1 <= best.attempts_used <= self.attempt
            },
        }
    }

    /// The validator that scores the frames.
    pub closed spec fn validator(&self) -> &QualityValidator {
        self.validator
    }

    /// The attempts allowed.
    pub closed spec fn budget(&self) -> u32 {
        self.attempts
    }

    /// The attempts made so far.
    pub closed spec fn attempts_made(&self) -> u32 {
        self.attempt
    }

    /// The best frame so far, with its report and the number of the attempt that gave it.
    pub closed spec fn best(&self) -> Option<CaptureQualityResult> {
        self.best
    }

    /// The overall score of every frame validated so far, in order.
    pub closed spec fn observed(&self) -> Seq<u64> {
        self.observed@
    }

    /// The overall score of the frame kept, if any.
    pub open spec fn best_score(&self) -> Option<u64> {
        match self.best() {
            None => None,
            Some(best) => Some(best.quality_report.score.overall),
        }
    }

    /// The run is over: the budget is spent or the frame kept is excellent.
    pub open spec fn is_finished(&self) -> bool {
        ||| self.attempts_made() >= self.budget()
        ||| match self.best_score() {
            Some(score) => score >= EXCELLENT_SCORE,
            None => false,
        }
    }

    /// The budget for a request: five attempts by default, never more than ten.
    pub open spec fn spec_budget(num_attempts: Option<u32>) -> u32 {
        let asked = match num_attempts {
            Some(n) => n,
            None => BEST_OF_N_DEFAULT_ATTEMPTS,
        };
        if asked > BEST_OF_N_MAX_ATTEMPTS {
            BEST_OF_N_MAX_ATTEMPTS
        } else {
            asked
        }
    }

    /// A fresh run with the budget for `num_attempts`.
    pub fn new(validator: &'a QualityValidator, num_attempts: Option<u32>) -> (run: Self)
        ensures
            run.validator() == validator,
            run.budget() == Self::spec_budget(num_attempts),
            run.attempts_made() == 0,
            run.best() is None,
            run.observed() == Seq::<u64>::empty(),
    {
        let asked: u32 = match num_attempts {
            Some(n) => n,
            None => BEST_OF_N_DEFAULT_ATTEMPTS,
        };
        let attempts: u32 = if asked > BEST_OF_N_MAX_ATTEMPTS {
            BEST_OF_N_MAX_ATTEMPTS
        } else {
            asked
        };
        BestOfN { validator, attempts, attempt: 0, best: None, observed: Ghost(Seq::empty()) }
    }

    /// The attempts allowed: never more than ten.
    pub fn attempts(&self) -> (attempts: u32)
        ensures
            attempts == self.budget(),
            attempts <= BEST_OF_N_MAX_ATTEMPTS,
    {
        proof {
            use_type_invariant(self);
        }
        self.attempts
    }

    /// The attempts made so far: never more than allowed, and never
    /// fewer than the frames observed.
    pub fn attempt(&self) -> (attempt: u32)
        ensures
            attempt == self.attempts_made(),
            self.observed().len() <= attempt <= self.budget(),
    {
        proof {
            use_type_invariant(self);
        }
        self.attempt
    }

    /// Whether another capture is due.
    pub fn wants_capture(&self) -> (wanted: bool)
        ensures
            wanted == !self.is_finished(),
    {
        if self.attempt >= self.attempts {
            return false;
        }
        match &self.best {
            Some(best) => best.quality_report.score.overall < EXCELLENT_SCORE,
            None => true,
        }
    }

    /// Takes the outcome of one capture: the frame, or `None` when the
    /// capture failed. The attempt is counted; a well-formed frame is
    /// validated and replaces the frame kept when it scores higher. The
    /// run goes on unless it is finished, after a pause when the attempt
    /// gave a frame and without one when it did not. On a finished run
    /// nothing changes.
    pub fn record(&mut self, captured: Option<CameraFrame>) -> (next: NextStep)
        ensures
            final(self).validator() == old(self).validator(),
            final(self).budget() == old(self).budget(),
            old(self).is_finished() ==> {
                &&& final(self).attempts_made() == old(self).attempts_made()
                &&& final(self).observed() == old(self).observed()
                &&& final(self).best() == old(self).best()
                &&& next == (NextStep { pause_ms: 0, capture: false })
            },
            !old(self).is_finished() ==> {
                &&& final(self).attempts_made() == old(self).attempts_made() + 1
                &&& final(self).observed() == observe(
                    old(self).observed(),
                    observation(old(self).validator(), captured),
                )
                &&& match observation(old(self).validator(), captured) {
                    Some(score) => if old(self).best_score() is None
                        || score > old(self).best_score()->Some_0 {
                        &&& final(self).best() is Some
                        &&& final(self).best()->Some_0.frame == captured->Some_0
                        &&& final(self).best()->Some_0.quality_report@
                            == old(self).validator().spec_validate(&captured->Some_0)
                        &&& final(self).best()->Some_0.attempts_used == final(self).attempts_made()
                    } else {
                        final(self).best() == old(self).best()
                    },
                    None => final(self).best() == old(self).best(),
                }
                &&& next.capture == !final(self).is_finished()
                &&& next.pause_ms == if next.capture && observation(
                    old(self).validator(),
                    captured,
                ) is Some {
                    BEST_OF_N_PAUSE_MS
                } else {
                    0
                }
            },
    {
        proof {
            use_type_invariant(&*self);
        }
        if !self.wants_capture() {
            return NextStep { pause_ms: 0, capture: false };
        }
        self.attempt = self.attempt + 1;
        let mut validated: bool = false;
        if let Some(frame) = captured {
            if let Ok(report) = self.validator.validate_frame(&frame) {
                validated = true;
                let score: u64 = report.score.overall;
                let better: bool = match &self.best {
                    Some(best) => score > best.quality_report.score.overall,
                    None => true,
                };
                let ghost before = self.observed@;
                let ghost after = before.push(score);
                proof {
                    assert(after[before.len() as int] == score);
                    if !better {
                        let kept = self.best->Some_0.quality_report.score.overall;
                        let i = choose|i: int| 0 <= i < before.len() && before[i] == kept;
                        assert(after[i] == kept);
                    }
                }
                if better {
                    *self = BestOfN {
                        validator: self.validator,
                        attempts: self.attempts,
                        attempt: self.attempt,
                        best: Some(
                            CaptureQualityResult {
                                frame,
                                quality_report: report,
                                attempts_used: self.attempt,
                            },
                        ),
                        observed: Ghost(after),
                    };
                } else {
                    self.observed = Ghost(after);
                }
            }
        }
        let capture: bool = self.wants_capture();
        NextStep {
            pause_ms: if capture && validated {
                BEST_OF_N_PAUSE_MS
            } else {
                0
            },
            capture,
        }
    }

    /// Ends the run. It fails exactly when no attempt gave a frame;
    /// otherwise it hands out the frame kept, whose overall score is the
    /// largest of all that were observed, with its report and the number
    /// of attempts the run has used.
    pub fn finish(self) -> (result: Result<CaptureQualityResult, QualityError>)
        ensures
            self.observed().len() == 0 ==> result == Err::<CaptureQualityResult, QualityError>(
                QualityError::NoValidFrames,
            ),
            self.observed().len() > 0 ==> result is Ok,
            result is Ok ==> {
                &&& self.best() is Some
                &&& result->Ok_0.frame == self.best()->Some_0.frame
                &&& result->Ok_0.quality_report == self.best()->Some_0.quality_report
                &&& result->Ok_0.attempts_used == self.attempts_made()
                &&& is_maximum(self.observed(), result->Ok_0.quality_report.score.overall)
                &&& result->Ok_0.frame.well_formed()
                &&& result->Ok_0.quality_report@ == self.validator().spec_validate(
                    &result->Ok_0.frame,
                )
            },
    {
        proof {
            use_type_invariant(&self);
        }
        let attempts_used: u32 = self.attempt;
        match self.best {
            Some(best) => Ok(
                CaptureQualityResult {
                    frame: best.frame,
                    quality_report: best.quality_report,
                    attempts_used,
                },
            ),
            None => Err(QualityError::NoValidFrames),
        }
    }
}

/// The threshold of a threshold-gated capture when none is asked for, in millionths.
pub const AUTO_CAPTURE_DEFAULT_THRESHOLD: u64 = 700_000;

/// The attempts of a threshold-gated capture when none are asked for.
pub const AUTO_CAPTURE_DEFAULT_ATTEMPTS: u32 = 20;

/// The most attempts a threshold-gated capture makes.
pub const AUTO_CAPTURE_MAX_ATTEMPTS: u32 = 50;

/// The time budget of a threshold-gated capture when none is asked for, in seconds.
pub const AUTO_CAPTURE_DEFAULT_TIMEOUT: u32 = 30;

/// The pause after an attempt of a threshold-gated capture, in milliseconds.
pub const AUTO_CAPTURE_PAUSE_MS: u64 = 50;

/// What a threshold-gated capture asks for at the top of each round.
#[derive(Debug, Clone, Copy, PartialEq, Eq, Structural)]
pub enum AutoCaptureStep {
    /// Capture a frame and hand it in.
    Capture,
    /// Give up with this error.
    Fail(QualityError),
}

/// What a threshold-gated capture makes of one attempt.
#[derive(Debug, Clone)]
pub enum AutoCaptureOutcome {
    /// The frame reached the threshold.
    Accepted(CaptureQualityResult),
    /// Pause for so many milliseconds, then start the next round.
    Retry { pause_ms: u64 },
}

/// Threshold-gated capture: attempts go on until a frame reaches the
/// threshold, the attempts are spent or the time has run out.
pub struct AutoCapture<'a> {
    validator: &'a QualityValidator,
    threshold: u64,
    max_attempts: u32,
    timeout_seconds: u32,
    attempt: u32,
}

impl<'a> AutoCapture<'a> {
    /// The attempts stay within the budget of at most fifty.
    #[verifier::type_invariant]
    closed spec fn in_order(&self) -> bool {
        self.attempt <= self.max_attempts <= AUTO_CAPTURE_MAX_ATTEMPTS
    }

    /// The validator that scores the frames.
    pub closed spec fn validator(&self) -> &QualityValidator {
        self.validator
    }

    /// The overall score a frame has to reach, in millionths.
    pub closed spec fn target(&self) -> u64 {
        self.threshold
    }

    /// The attempts allowed.
    pub closed spec fn budget(&self) -> u32 {
        self.max_attempts
    }

    /// The time allowed, in seconds.
    pub closed spec fn time_limit(&self) -> u32 {
        self.timeout_seconds
    }

    /// The attempts made so far.
    pub closed spec fn attempts_made(&self) -> u32 {
        self.attempt
    }

    /// The attempts allowed for a request: twenty by default, never more than fifty.
    pub open spec fn spec_budget(max_attempts: Option<u32>) -> u32 {
        let asked = match max_attempts {
            Some(n) => n,
            None => AUTO_CAPTURE_DEFAULT_ATTEMPTS,
        };
        if asked > AUTO_CAPTURE_MAX_ATTEMPTS {
            AUTO_CAPTURE_MAX_ATTEMPTS
        } else {
            asked
        }
    }

    /// A fresh run. The threshold defaults to 0.7, the attempts to
    /// twenty (capped at fifty) and the time to thirty seconds.
    pub fn new(
        validator: &'a QualityValidator,
        min_quality_threshold: Option<u64>,
        max_attempts: Option<u32>,
        timeout_seconds: Option<u32>,
    ) -> (run: Self)
        ensures
            run.validator() == validator,
            run.target() == match min_quality_threshold {
                Some(t) => t,
                None => AUTO_CAPTURE_DEFAULT_THRESHOLD,
            },
            run.budget() == Self::spec_budget(max_attempts),
            run.time_limit() == match timeout_seconds {
                Some(t) => t,
                None => AUTO_CAPTURE_DEFAULT_TIMEOUT,
            },
            run.attempts_made() == 0,
    {
        let asked: u32 = match max_attempts {
            Some(n) => n,
            None => AUTO_CAPTURE_DEFAULT_ATTEMPTS,
        };
        AutoCapture {
            validator,
            threshold: match min_quality_threshold {
                Some(t) => t,
                None => AUTO_CAPTURE_DEFAULT_THRESHOLD,
            },
            max_attempts: if asked > AUTO_CAPTURE_MAX_ATTEMPTS {
                AUTO_CAPTURE_MAX_ATTEMPTS
            } else {
                asked
            },
            timeout_seconds: match timeout_seconds {
                Some(t) => t,
                None => AUTO_CAPTURE_DEFAULT_TIMEOUT,
            },
            attempt: 0,
        }
    }

    /// The overall score a frame has to reach, in millionths.
    pub fn threshold(&self) -> (threshold: u64)
        ensures
            threshold == self.target(),
    {
        self.threshold
    }

    /// The attempts allowed: never more than fifty.
    pub fn max_attempts(&self) -> (max_attempts: u32)
        ensures
            max_attempts == self.budget(),
            max_attempts <= AUTO_CAPTURE_MAX_ATTEMPTS,
    {
        proof {
            use_type_invariant(self);
        }
        self.max_attempts
    }

    /// The time allowed, in seconds.
    pub fn timeout_seconds(&self) -> (timeout_seconds: u32)
        ensures
            timeout_seconds == self.time_limit(),
    {
        self.timeout_seconds
    }

    /// The attempts made so far: never more than allowed.
    pub fn attempt(&self) -> (attempt: u32)
        ensures
            attempt == self.attempts_made(),
            attempt <= self.budget(),
    {
        proof {
            use_type_invariant(self);
        }
        self.attempt
    }

    /// The step at the top of a round, `elapsed_seconds` after the start: once
    /// the attempts are spent the run fails for want of a good frame; else
    /// once the time is up it fails with a timeout; else it captures.
    pub open spec fn spec_poll(&self, elapsed_seconds: u64) -> AutoCaptureStep {
        if self.attempts_made() >= self.budget() {
            AutoCaptureStep::Fail(
                QualityError::ThresholdNotMet {
                    threshold: self.target(),
                    attempts: self.budget(),
                    elapsed_seconds,
                },
            )
        } else if elapsed_seconds >= self.time_limit() {
            AutoCaptureStep::Fail(
                QualityError::Timeout {
                    timeout_seconds: self.time_limit(),
                    threshold: self.target(),
                    attempts: self.attempts_made(),
                    elapsed_seconds,
                },
            )
        } else {
            AutoCaptureStep::Capture
        }
    }

    /// Decides the step at the top of a round from the whole seconds
    /// elapsed since the run began.
    pub fn poll(&self, elapsed_seconds: u64) -> (step: AutoCaptureStep)
        ensures
            step == self.spec_poll(elapsed_seconds),
    {
        if self.attempt >= self.max_attempts {
            AutoCaptureStep::Fail(
                QualityError::ThresholdNotMet {
                    threshold: self.threshold,
                    attempts: self.max_attempts,
                    elapsed_seconds,
                },
            )
        } else if elapsed_seconds >= self.timeout_seconds as u64 {
            AutoCaptureStep::Fail(
                QualityError::Timeout {
                    timeout_seconds: self.timeout_seconds,
                    threshold: self.threshold,
                    attempts: self.attempt,
                    elapsed_seconds,
                },
            )
        } else {
            AutoCaptureStep::Capture
        }
    }

    /// Takes the outcome of the capture that [`AutoCapture::poll`] asked
    /// for: the frame, or `None` when the capture failed. The attempt is
    /// counted. A well-formed frame whose overall score reaches the
    /// threshold is accepted, with its report and the number of the
    /// attempt; anything else asks for a retry after the pause. A frame
    /// below the threshold is never accepted. Once the attempts are spent
    /// nothing is counted or accepted any more.
    pub fn on_capture(&mut self, captured: Option<CameraFrame>) -> (outcome: AutoCaptureOutcome)
        ensures
            final(self).validator() == old(self).validator(),
            final(self).target() == old(self).target(),
            final(self).budget() == old(self).budget(),
            final(self).time_limit() == old(self).time_limit(),
            old(self).attempts_made() >= old(self).budget() ==> {
                &&& final(self).attempts_made() == old(self).attempts_made()
                &&& outcome matches AutoCaptureOutcome::Retry { pause_ms }
                &&& pause_ms == AUTO_CAPTURE_PAUSE_MS
            },
            old(self).attempts_made() < old(self).budget() ==> {
                &&& final(self).attempts_made() == old(self).attempts_made() + 1
                &&& match observation(old(self).validator(), captured) {
                    Some(score) => if score >= old(self).target() {
                        &&& outcome is Accepted
                        &&& outcome->Accepted_0.frame == captured->Some_0
                        &&& outcome->Accepted_0.quality_report@
                            == old(self).validator().spec_validate(&captured->Some_0)
                        &&& outcome->Accepted_0.attempts_used == old(self).attempts_made() + 1
                    } else {
                        outcome matches AutoCaptureOutcome::Retry { pause_ms }
                            && pause_ms == AUTO_CAPTURE_PAUSE_MS
                    },
                    None => outcome matches AutoCaptureOutcome::Retry { pause_ms }
                        && pause_ms == AUTO_CAPTURE_PAUSE_MS,
                }
            },
            outcome is Accepted ==> outcome->Accepted_0.quality_report.score.overall
                >= old(self).target(),
    {
        proof {
            use_type_invariant(&*self);
        }
        if self.attempt >= self.max_attempts {
            return AutoCaptureOutcome::Retry { pause_ms: AUTO_CAPTURE_PAUSE_MS };
        }
        self.attempt = self.attempt + 1;
        if let Some(frame) = captured {
            if let Ok(report) = self.validator.validate_frame(&frame) {
                if report.score.overall >= self.threshold {
                    return AutoCaptureOutcome::Accepted(
                        CaptureQualityResult {
                            frame,
                            quality_report: report,
                            attempts_used: self.attempt,
                        },
                    );
                }
            }
        }
        AutoCaptureOutcome::Retry { pause_ms: AUTO_CAPTURE_PAUSE_MS }
    }
}

/// The samples of a trend analysis when none are asked for.
pub const TREND_DEFAULT_SAMPLES: u32 = 10;

/// The most samples a trend analysis takes.
pub const TREND_MAX_SAMPLES: u32 = 20;

/// The pause after a sample of a trend analysis, in milliseconds.
pub const TREND_PAUSE_MS: u64 = 200;

/// Quality trend analysis result. Every score is in millionths, rounded down.
#[derive(Debug, Clone, Copy, PartialEq, Eq, Structural)]
pub struct QualityTrendAnalysis {
    pub samples_analyzed: u32,
    pub average_quality: u64,
    pub average_blur_score: u64,
    pub average_exposure_score: u64,
    pub quality_variance: u64,
    pub stability_score: u64,
    pub best_score: u64,
    pub worst_score: u64,
    pub acceptable_ratio: u64,
}

/// The overall score of each report.
pub open spec fn overall_scores(reports: Seq<QualityReport>) -> spec_fn(int) -> int {
    |i: int| reports[i].score.overall as int
}

/// The squared overall score of each report.
pub open spec fn squared_scores(reports: Seq<QualityReport>) -> spec_fn(int) -> int {
    |i: int| (reports[i].score.overall as int) * (reports[i].score.overall as int)
}

/// The blur score of each report.
pub open spec fn blur_scores(reports: Seq<QualityReport>) -> spec_fn(int) -> int {
    |i: int| reports[i].score.blur as int
}

/// The exposure score of each report.
pub open spec fn exposure_scores(reports: Seq<QualityReport>) -> spec_fn(int) -> int {
    |i: int| reports[i].score.exposure as int
}

/// One for each acceptable report, zero for the others.
pub open spec fn acceptances(reports: Seq<QualityReport>) -> spec_fn(int) -> int {
    |i: int|
        if reports[i].is_acceptable {
            1int
        } else {
            0int
        }
}

/// Every score that the statistics read lies between zero and one whole.
pub open spec fn scores_in_range(reports: Seq<QualityReport>) -> bool {
    forall|i: int|
        0 <= i < reports.len() ==> {
            &&& (#[trigger] reports[i]).score.overall <= 1_000_000
            &&& reports[i].score.blur <= 1_000_000
            &&& reports[i].score.exposure <= 1_000_000
        }
}

/// `n * n` times the variance of the overall scores.
pub open spec fn score_spread(reports: Seq<QualityReport>) -> int {
    let n = reports.len() as int;
    let s1 = sum_to(n, overall_scores(reports));
    let s2 = sum_to(n, squared_scores(reports));
    n * s2 - s1 * s1
}

/// The spread of the overall scores is never negative.
pub proof fn lemma_score_spread_is_nonnegative(reports: Seq<QualityReport>)
    ensures
        score_spread(reports) >= 0,
{
    lemma_square_of_sum(reports.len() as int, overall_scores(reports), squared_scores(reports));
}

/// The stability score: one whole less the standard deviation of the
/// overall scores, never below zero.
pub open spec fn spec_stability(reports: Seq<QualityReport>) -> int {
    let deviation = sqrt_floor(score_spread(reports) as nat) as int / (reports.len() as int);
    if deviation > 1_000_000 {
        0
    } else {
        1_000_000 - deviation
    }
}

/// The statistics of a non-empty list of reports: the three means, the
/// variance and the stability of the overall score, its largest and its
/// smallest value, and the share of acceptable reports.
pub open spec fn spec_trend(reports: Seq<QualityReport>) -> QualityTrendAnalysis {
    let n = reports.len() as int;
    QualityTrendAnalysis {
        samples_analyzed: n as u32,
        average_quality: (sum_to(n, overall_scores(reports)) / n) as u64,
        average_blur_score: (sum_to(n, blur_scores(reports)) / n) as u64,
        average_exposure_score: (sum_to(n, exposure_scores(reports)) / n) as u64,
        quality_variance: (score_spread(reports) / (n * n * 1_000_000)) as u64,
        stability_score: spec_stability(reports) as u64,
        best_score: largest_to(n, overall_scores(reports), 0) as u64,
        worst_score: smallest_to(n, overall_scores(reports), 1_000_000) as u64,
        acceptable_ratio: (sum_to(n, acceptances(reports)) * 1_000_000 / n) as u64,
    }
}

/// Computes the statistics of a list of reports. An empty list is an
/// error, never a result.
pub fn summarize_reports(reports: &Vec<QualityReport>) -> (result: Result<
    QualityTrendAnalysis,
    QualityError,
>)
    requires
        reports@.len() <= u32::MAX,
        scores_in_range(reports@),
    ensures
        reports@.len() == 0 <==> result == Err::<QualityTrendAnalysis, QualityError>(
            QualityError::NoSamples,
        ),
        reports@.len() > 0 ==> result == Ok::<QualityTrendAnalysis, QualityError>(
            spec_trend(reports@),
        ),
        result is Ok ==> {
            &&& result->Ok_0.average_quality <= 1_000_000
            &&& result->Ok_0.stability_score <= 1_000_000
            &&& result->Ok_0.worst_score <= result->Ok_0.best_score <= 1_000_000
            &&& result->Ok_0.acceptable_ratio <= 1_000_000
        },
{
    let len: usize = reports.len();
    if len == 0 {
        return Err(QualityError::NoSamples);
    }
    let mut total: u64 = 0;
    let mut squares: u128 = 0;
    let mut blur: u64 = 0;
    let mut exposure: u64 = 0;
    let mut accepted: u64 = 0;
    let mut best: u64 = 0;
    let mut worst: u64 = 1_000_000;
    let mut i: usize = 0;
    while i < len
        invariant
            len == reports@.len(),
            len <= u32::MAX,
            scores_in_range(reports@),
            i <= len,
            total == sum_to(i as int, overall_scores(reports@)),
            squares == sum_to(i as int, squared_scores(reports@)),
            blur == sum_to(i as int, blur_scores(reports@)),
            exposure == sum_to(i as int, exposure_scores(reports@)),
            accepted == sum_to(i as int, acceptances(reports@)),
            best == largest_to(i as int, overall_scores(reports@), 0),
            worst == smallest_to(i as int, overall_scores(reports@), 1_000_000),
            total <= 1_000_000 * i,
            squares <= 1_000_000_000_000 * i,
            blur <= 1_000_000 * i,
            exposure <= 1_000_000 * i,
            accepted <= i,
            best <= 1_000_000,
            worst <= 1_000_000,
            i > 0 ==> worst <= best,
        decreases len - i,
    {
        let report = &reports[i];
        let score: u64 = report.score.overall;
        assert(score * score <= 1_000_000_000_000) by (nonlinear_arith)
            requires
                0 <= score <= 1_000_000,
        ;
        total = total + score;
        squares = squares + (score as u128) * (score as u128);
        blur = blur + report.score.blur;
        exposure = exposure + report.score.exposure;
        if report.is_acceptable {
            accepted = accepted + 1;
        }
        if score > best {
            best = score;
        }
        if score < worst {
            worst = score;
        }
        i = i + 1;
    }
    let n: u64 = len as u64;
    let count: i128 = len as i128;
    let s1: i128 = total as i128;
    let s2: i128 = squares as i128;
    assert(0 <= count * s2 <= 1_000_000_000_000 * (0xffff_ffff * 0xffff_ffff) && 0 <= s1 * s1
        <= 1_000_000_000_000 * (0xffff_ffff * 0xffff_ffff) && 0 < count * count <= 0xffff_ffff
        * 0xffff_ffff) by (nonlinear_arith)
        requires
            0 < count <= 0xffff_ffff,
            0 <= s1 <= 1_000_000 * count,
            0 <= s2 <= 1_000_000_000_000 * count,
    ;
    proof {
        lemma_square_of_sum(len as int, overall_scores(reports@), squared_scores(reports@));
    }
    let spread: u128 = (count * s2 - s1 * s1) as u128;
    let root: u128 = isqrt(spread);
    let deviation: u128 = root / (len as u128);
    let stability: u64 = if deviation > 1_000_000 {
        0
    } else {
        1_000_000 - deviation as u64
    };
    let scale: u128 = (len as u128) * (len as u128) * 1_000_000;
    proof {
        lemma_div_upper_bound(total as int, n as int, 1_000_000);
        lemma_div_upper_bound(blur as int, n as int, 1_000_000);
        lemma_div_upper_bound(exposure as int, n as int, 1_000_000);
        lemma_div_upper_bound(accepted * 1_000_000, n as int, 1_000_000);
        assert(spread <= 1_000_000 * scale) by (nonlinear_arith)
            requires
                spread <= count * s2,
                0 <= s2 <= 1_000_000_000_000 * count,
                0 < count,
                scale == count * count * 1_000_000,
        ;
        lemma_div_upper_bound(spread as int, scale as int, 1_000_000);
    }
    Ok(
        QualityTrendAnalysis {
            samples_analyzed: len as u32,
            average_quality: total / n,
            average_blur_score: blur / n,
            average_exposure_score: exposure / n,
            quality_variance: (spread / scale) as u64,
            stability_score: stability,
            best_score: best,
            worst_score: worst,
            acceptable_ratio: accepted * 1_000_000 / n,
        },
    )
}

/// Trend analysis: a fixed number of samples, each validated, of which
/// the reports are kept for the statistics.
pub struct TrendSampler<'a> {
    validator: &'a QualityValidator,
    samples: u32,
    taken: u32,
    reports: Vec<QualityReport>,
}

impl<'a> TrendSampler<'a> {
    /// The books are in order: the samples stay within the budget and
    /// every report has its scores in range.
    #[verifier::type_invariant]
    closed spec fn in_order(&self) -> bool {
        &&& self.samples <= TREND_MAX_SAMPLES
        &&& self.taken <= self.samples
        &&& self.reports@.len() <= self.taken
        &&& scores_in_range(self.reports@)
    }

    /// The validator that scores the frames.
    pub closed spec fn validator(&self) -> &QualityValidator {
        self.validator
    }

    /// The samples allowed.
    pub closed spec fn budget(&self) -> u32 {
        self.samples
    }

    /// The samples asked for so far.
    pub closed spec fn samples_taken(&self) -> u32 {
        self.taken
    }

    /// The report of every frame validated so far, in order.
    pub closed spec fn collected(&self) -> Seq<QualityReport> {
        self.reports@
    }

    /// The samples allowed for a request: ten by default, never more than twenty.
    pub open spec fn spec_budget(num_samples: Option<u32>) -> u32 {
        let asked = match num_samples {
            Some(n) => n,
            None => TREND_DEFAULT_SAMPLES,
        };
        if asked > TREND_MAX_SAMPLES {
            TREND_MAX_SAMPLES
        } else {
            asked
        }
    }

    /// A fresh analysis with the budget for `num_samples`.
    pub fn new(validator: &'a QualityValidator, num_samples: Option<u32>) -> (run: Self)
        ensures
            run.validator() == validator,
            run.budget() == Self::spec_budget(num_samples),
            run.samples_taken() == 0,
            run.collected().len() == 0,
    {
        let asked: u32 = match num_samples {
            Some(n) => n,
            None => TREND_DEFAULT_SAMPLES,
        };
        let samples: u32 = if asked > TREND_MAX_SAMPLES {
            TREND_MAX_SAMPLES
        } else {
            asked
        };
        TrendSampler { validator, samples, taken: 0, reports: Vec::new() }
    }

    /// The samples allowed: never more than twenty.
    pub fn samples(&self) -> (samples: u32)
        ensures
            samples == self.budget(),
            samples <= TREND_MAX_SAMPLES,
    {
        proof {
            use_type_invariant(self);
        }
        self.samples
    }

    /// The samples asked for so far: never more than allowed.
    pub fn taken(&self) -> (taken: u32)
        ensures
            taken == self.samples_taken(),
            taken <= self.budget(),
    {
        proof {
            use_type_invariant(self);
        }
        self.taken
    }

    /// The reports kept so far: at most one for each sample taken, each
    /// with its scores in range.
    pub fn reports(&self) -> (reports: &Vec<QualityReport>)
        ensures
            reports@ == self.collected(),
            reports@.len() <= self.samples_taken(),
            scores_in_range(reports@),
    {
        proof {
            use_type_invariant(self);
        }
        &self.reports
    }

    /// Whether another capture is due.
    pub fn wants_capture(&self) -> (wanted: bool)
        ensures
            wanted == (self.samples_taken() < self.budget()),
    {
        self.taken < self.samples
    }

    /// Takes the outcome of one capture: the frame, or `None` when the
    /// capture failed. The sample is counted against the budget. A
    /// well-formed frame is validated, its report is kept and a pause
    /// follows; a failed capture is skipped without a pause. Once the
    /// budget is spent nothing changes.
    pub fn record(&mut self, captured: Option<CameraFrame>) -> (next: NextStep)
        ensures
            final(self).validator() == old(self).validator(),
            final(self).budget() == old(self).budget(),
            old(self).samples_taken() >= old(self).budget() ==> {
                &&& final(self).samples_taken() == old(self).samples_taken()
                &&& final(self).collected() == old(self).collected()
                &&& next == (NextStep { pause_ms: 0, capture: false })
            },
            old(self).samples_taken() < old(self).budget() ==> {
                &&& final(self).samples_taken() == old(self).samples_taken() + 1
                &&& next.capture == (final(self).samples_taken() < final(self).budget())
                &&& match observation(old(self).validator(), captured) {
                    Some(score) => {
                        &&& final(self).collected().len() == old(self).collected().len() + 1
                        &&& final(self).collected().subrange(
                            0,
                            old(self).collected().len() as int,
                        ) == old(self).collected()
                        &&& final(self).collected()[old(self).collected().len() as int]@
                            == old(self).validator().spec_validate(&captured->Some_0)
                        &&& next.pause_ms == TREND_PAUSE_MS
                    },
                    None => final(self).collected() == old(self).collected() && next.pause_ms
                        == 0,
                }
            },
    {
        proof {
            use_type_invariant(&*self);
        }
        if self.taken >= self.samples {
            return NextStep { pause_ms: 0, capture: false };
        }
        self.taken = self.taken + 1;
        let mut pause_ms: u64 = 0;
        if let Some(frame) = captured {
            if let Ok(report) = self.validator.validate_frame(&frame) {
                let mut reports: Vec<QualityReport> = Vec::new();
                std::mem::swap(&mut self.reports, &mut reports);
                reports.push(report);
                std::mem::swap(&mut self.reports, &mut reports);
                pause_ms = TREND_PAUSE_MS;
            }
        }
        NextStep { pause_ms, capture: self.taken < self.samples }
    }

    /// Ends the analysis with the statistics of the reports kept. It
    /// fails exactly when no sample gave a frame.
    pub fn finish(&self) -> (result: Result<QualityTrendAnalysis, QualityError>)
        ensures
            self.collected().len() == 0 <==> result == Err::<QualityTrendAnalysis, QualityError>(
                QualityError::NoSamples,
            ),
            self.collected().len() > 0 ==> result == Ok::<QualityTrendAnalysis, QualityError>(
                spec_trend(self.collected()),
            ),
    {
        proof {
            use_type_invariant(self);
        }
        summarize_reports(&self.reports)
    }
}

} // verus!
