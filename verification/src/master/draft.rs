//! Partial analyses: a score and the assessments that led to it.
//!
//! A partial analysis holds a number of criteria against the facts. Each
//! criterion counts the same; one that is met gives a full point, one that
//! is partly met half a point. The score is the points by the number of
//! criteria, kept here as those three counts and never rounded.

use vstd::prelude::*;
use vstd::string::*;
use crate::utils::text::string_views;

verus! {

/// How far a criterion is met.
#[derive(Clone, Copy, Debug, PartialEq, Eq, Structural)]
pub enum Grade {
    /// Fully: a whole point.
    Met,
    /// In part: half a point.
    Partly,
    /// Not at all: no point.
    Missed,
}

/// A score: the points reached by the number of criteria held against the
/// facts.
#[derive(Clone, Copy, Debug, PartialEq, Eq, Structural)]
pub struct Score {
    /// The criteria that were met.
    pub met: usize,
    /// The criteria that were met in part.
    pub partly: usize,
    /// All criteria.
    pub criteria: usize,
}

/// A partial analysis. Without a score the facts did not suffice for one;
/// that is not a score of zero.
#[derive(Debug)]
pub struct AnalysisDraft {
    pub score: Option<Score>,
    pub assessments: Vec<String>,
}

/// A partial analysis that is being made.
#[derive(Debug)]
pub struct Scorecard {
    met: usize,
    partly: usize,
    criteria: usize,
    assessments: Vec<String>,
}

/// The half points of a score.
pub open spec fn half_points(met: int, partly: int) -> int {
    2 * met + partly
}

/// Whether a score of `halves` half points by `criteria` criteria is at
/// least three quarters.
pub open spec fn is_high(halves: int, criteria: int) -> bool {
    2 * halves >= 3 * criteria
}

impl Score {
    /// The half points reached: two for each criterion met, one for each met
    /// in part.
    pub open spec fn halves(self) -> int {
        half_points(self.met as int, self.partly as int)
    }

    /// The number of criteria.
    pub open spec fn count(self) -> int {
        self.criteria as int
    }

    /// There is a criterion, and none counts twice: the score lies between
    /// 0 and 1.
    pub open spec fn wf(self) -> bool {
        self.criteria > 0 && self.met + self.partly <= self.criteria
    }

    /// Whether the score is at least three quarters.
    pub fn is_high(&self) -> (b: bool)
        ensures
            b == is_high(self.halves(), self.count()),
    {
        let halves: u128 = 2 * (self.met as u128) + (self.partly as u128);
        2 * halves >= 3 * (self.criteria as u128)
    }
}

/// A partial analysis as contracts see it.
pub struct AnalysisDraftView {
    pub score: Option<Score>,
    pub assessments: Seq<Seq<char>>,
}

impl View for AnalysisDraft {
    type V = AnalysisDraftView;

    open spec fn view(&self) -> AnalysisDraftView {
        AnalysisDraftView { score: self.score, assessments: string_views(self.assessments@) }
    }
}

impl AnalysisDraft {
    /// A partial analysis without a score, for facts that do not suffice.
    pub fn insufficient(assessment: &str) -> (draft: AnalysisDraft)
        ensures
            draft@.score is None,
            draft@.assessments == seq![assessment@],
    {
        let mut assessments: Vec<String> = Vec::new();
        assessments.push(String::from_str(assessment));
        let draft = AnalysisDraft { score: None, assessments };
        assert(draft@.assessments =~= seq![assessment@]);
        draft
    }
}

impl Scorecard {
    /// The counts fit together: every criterion has left an assessment, and
    /// no criterion counts twice.
    pub closed spec fn wf(&self) -> bool {
        self.met + self.partly <= self.criteria <= self.assessments@.len()
    }

    /// The half points reached so far.
    pub closed spec fn halves(&self) -> int {
        half_points(self.met as int, self.partly as int)
    }

    /// The number of criteria held against the facts so far.
    pub closed spec fn count(&self) -> int {
        self.criteria as int
    }

    /// The assessments so far.
    pub closed spec fn notes(&self) -> Seq<Seq<char>> {
        string_views(self.assessments@)
    }

    /// The half points that a grade gives.
    pub open spec fn points(grade: Grade) -> int {
        match grade {
            Grade::Met => 2,
            Grade::Partly => 1,
            Grade::Missed => 0,
        }
    }

    /// A card without any criterion.
    pub fn new() -> (card: Scorecard)
        ensures
            card.wf(),
            card.halves() == 0,
            card.count() == 0,
            card.notes() == Seq::<Seq<char>>::empty(),
    {
        let card = Scorecard { met: 0, partly: 0, criteria: 0, assessments: Vec::new() };
        assert(card.notes() =~= Seq::<Seq<char>>::empty());
        card
    }

    /// Counts one criterion with its grade, and notes the assessment.
    pub fn grade(&mut self, grade: Grade, assessment: String)
        requires
            old(self).wf(),
        ensures
            final(self).wf(),
            final(self).halves() == old(self).halves() + Scorecard::points(grade),
            final(self).count() == old(self).count() + 1,
            final(self).notes() == old(self).notes().push(assessment@),
    {
        let ghost before = self.notes();
        self.assessments.push(assessment);
        let noted = self.assessments.len();
        assert(self.criteria < noted);
        self.criteria = self.criteria + 1;
        match grade {
            Grade::Met => {
                self.met = self.met + 1;
            },
            Grade::Partly => {
                self.partly = self.partly + 1;
            },
            Grade::Missed => {},
        }
        assert(self.notes() =~= before.push(assessment@));
    }

    /// Notes an assessment that counts for nothing.
    pub fn note(&mut self, assessment: String)
        requires
            old(self).wf(),
        ensures
            final(self).wf(),
            final(self).halves() == old(self).halves(),
            final(self).count() == old(self).count(),
            final(self).notes() == old(self).notes().push(assessment@),
    {
        let ghost before = self.notes();
        self.assessments.push(assessment);
        assert(self.notes() =~= before.push(assessment@));
    }

    /// The partial analysis that the card comes to. With at least one
    /// criterion it has the score and ends with `high` where that is at
    /// least three quarters, with `low` where it is less. Without any it has
    /// no score, and nothing is added to the assessments.
    pub fn conclude(self, high: &str, low: &str) -> (draft: AnalysisDraft)
        requires
            self.wf(),
        ensures
            self.count() == 0 ==> draft@.score is None && draft@.assessments == self.notes(),
            self.count() > 0 ==> draft@.score is Some && draft@.score->0.wf()
                && draft@.score->0.halves() == self.halves() && draft@.score->0.count()
                == self.count() && draft@.assessments == self.notes().push(
                if is_high(self.halves(), self.count()) {
                    high@
                } else {
                    low@
                },
            ),
    {
        let ghost before = self.notes();
        let mut assessments = self.assessments;
        if self.criteria == 0 {
            return AnalysisDraft { score: None, assessments };
        }
        let score = Score { met: self.met, partly: self.partly, criteria: self.criteria };
        let last = if score.is_high() {
            high
        } else {
            low
        };
        assessments.push(String::from_str(last));
        let draft = AnalysisDraft { score: Some(score), assessments };
        assert(draft@.assessments =~= before.push(last@));
        draft
    }
}

/// A score lies between 0 and 1: its half points are at least none and at
/// most two for each criterion.
pub proof fn lemma_score_range(score: Score)
    requires
        score.wf(),
    ensures
        0 <= score.halves() <= 2 * score.count(),
        score.count() > 0,
{
}

} // verus!
