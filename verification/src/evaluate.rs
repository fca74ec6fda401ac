//! The decisions of an evaluation: which analyzers run, how many fiscal
//! periods are fetched, and what the outcomes of the analyzers come to.

use vstd::prelude::*;
use vstd::string::*;
use crate::error::{ErrorView, InvmstError, InvmstResult};
use crate::master::{
    all_masters,
    master_named,
    unknown_master,
    Master,
    MasterAnalysis,
    MasterAnalysisView,
    MasterAnalyzeOptions,
};
use crate::utils::text::string_views;

verus! {

#[verifier::external_type_specification]
#[verifier::external_body]
pub struct ExNaiveDate(chrono::NaiveDate);

/// What the caller asks of an evaluation.
#[derive(Debug)]
pub struct EvaluateOptions {
    /// How many days of history to look at.
    pub backward_days: i64,
    /// The day to evaluate for; today where there is none.
    pub date: Option<chrono::NaiveDate>,
    /// The names of the analyzers to run; all of them where there is none.
    pub masters: Vec<String>,
}

impl EvaluateOptions {
    /// What each analyzer is told of this evaluation.
    pub fn analyze_options(&self) -> (options: MasterAnalyzeOptions)
        ensures
            options.backward_days == self.backward_days,
            options.date == self.date,
    {
        MasterAnalyzeOptions { backward_days: self.backward_days, date: self.date }
    }
}

/// The days that one fiscal period is counted as.
pub const FISCAL_PERIOD_DAYS: i64 = 91;

/// How many fiscal periods are fetched for a history of `backward_days`
/// days: one for every full 91 days, none for less.
pub open spec fn fiscal_periods(backward_days: i64) -> int {
    if backward_days < FISCAL_PERIOD_DAYS {
        0
    } else {
        backward_days / FISCAL_PERIOD_DAYS
    }
}

/// How many fiscal periods are fetched for a history of `backward_days`
/// days.
pub fn fiscal_count(backward_days: i64) -> (count: u64)
    ensures
        count == fiscal_periods(backward_days),
{
    if backward_days < FISCAL_PERIOD_DAYS {
        0
    } else {
        (backward_days / FISCAL_PERIOD_DAYS) as u64
    }
}

/// Index of the first of `names` from `from` on that stands for no analyzer,
/// or the number of names if each stands for one.
pub open spec fn first_unknown(names: Seq<Seq<char>>, from: int) -> int
    decreases names.len() - from,
{
    if from < 0 || from >= names.len() {
        names.len() as int
    } else if master_named(names[from]) is None {
        from
    } else {
        first_unknown(names, from + 1)
    }
}

/// The analyzers that `names` ask for: all of them where there is no name;
/// else the one that each name stands for, in the order of the names; and
/// where a name stands for none, the `NotExists` error of the first such.
pub open spec fn resolved(names: Seq<Seq<char>>) -> Result<Seq<Master>, ErrorView> {
    if names.len() == 0 {
        Ok(all_masters())
    } else if first_unknown(names, 0) < names.len() {
        Err(unknown_master(names[first_unknown(names, 0)]))
    } else {
        Ok(Seq::new(names.len(), |i: int| master_named(names[i])->0))
    }
}

/// What `first_unknown` points at.
pub proof fn lemma_first_unknown(names: Seq<Seq<char>>, from: int)
    requires
        0 <= from <= names.len(),
    ensures
        from <= first_unknown(names, from) <= names.len(),
        first_unknown(names, from) < names.len() ==> master_named(
            names[first_unknown(names, from)],
        ) is None,
        forall|i: int| from <= i < first_unknown(names, from) ==> master_named(names[i]) is Some,
    decreases names.len() - from,
{
    if from < names.len() && master_named(names[from]) is Some {
        lemma_first_unknown(names, from + 1);
    }
}

/// The analyzers that `names` ask for.
pub fn resolve_masters(names: &Vec<String>) -> (r: InvmstResult<Vec<Master>>)
    ensures
        match resolved(string_views(names@)) {
            Ok(masters) => r is Ok && r->Ok_0@ == masters,
            Err(e) => r is Err && r->Err_0@ == e,
        },
{
    if names.len() == 0 {
        // Use all masters if no master is specified in options
        return Ok(Master::iter());
    }
    let ghost texts = string_views(names@);
    let mut masters: Vec<Master> = Vec::new();
    let mut i: usize = 0;
    while i < names.len()
        invariant
            i <= names.len(),
            texts == string_views(names@),
            masters.len() == i,
            first_unknown(texts, 0) == first_unknown(texts, i as int),
            forall|j: int| 0 <= j < i ==> master_named(texts[j]) == Some(#[trigger] masters@[j]),
        decreases names.len() - i,
    {
        assert(texts[i as int] == names@[i as int]@);
        match Master::from_str(names[i].as_str()) {
            Ok(master) => {
                masters.push(master);
            },
            Err(e) => {
                return Err(e);
            },
        }
        i += 1;
    }
    proof {
        assert(first_unknown(texts, i as int) == texts.len());
        assert(masters@ =~= Seq::new(texts.len(), |i: int| master_named(texts[i])->0));
    }
    Ok(masters)
}

/// What one analyzer's task came to.
#[derive(Debug)]
pub struct MasterOutcome {
    pub master: Master,
    pub result: InvmstResult<MasterAnalysis>,
}

/// An outcome as contracts see it.
pub struct MasterOutcomeView {
    pub master: Master,
    pub result: Result<MasterAnalysisView, ErrorView>,
}

impl View for MasterOutcome {
    type V = MasterOutcomeView;

    open spec fn view(&self) -> MasterOutcomeView {
        MasterOutcomeView {
            master: self.master,
            result: match self.result {
                Ok(a) => Ok(a@),
                Err(e) => Err(e@),
            },
        }
    }
}

/// The views of a list of outcomes.
pub open spec fn outcome_views(outcomes: Seq<MasterOutcome>) -> Seq<MasterOutcomeView> {
    Seq::new(outcomes.len(), |i: int| outcomes[i]@)
}

/// The analyses of an evaluation, one for each analyzer that has one.
#[derive(Debug)]
pub struct Evaluation {
    entries: Vec<(Master, MasterAnalysis)>,
}

/// Index of the first entry from `from` on that belongs to `master`, or the
/// number of entries if none does.
pub open spec fn entry_index(entries: Seq<(Master, MasterAnalysis)>, master: Master, from: int) -> int
    decreases entries.len() - from,
{
    if from < 0 || from >= entries.len() {
        entries.len() as int
    } else if entries[from].0 == master {
        from
    } else {
        entry_index(entries, master, from + 1)
    }
}

/// What `entry_index` points at.
pub proof fn lemma_entry_index(entries: Seq<(Master, MasterAnalysis)>, master: Master, from: int)
    requires
        0 <= from <= entries.len(),
    ensures
        from <= entry_index(entries, master, from) <= entries.len(),
        entry_index(entries, master, from) < entries.len() ==> entries[entry_index(
            entries,
            master,
            from,
        )].0 == master,
        forall|i: int| from <= i < entry_index(entries, master, from) ==> entries[i].0 != master,
    decreases entries.len() - from,
{
    if from < entries.len() && entries[from].0 != master {
        lemma_entry_index(entries, master, from + 1);
    }
}

/// The index at which `master` first occurs is the one that `entry_index`
/// gives.
pub proof fn lemma_entry_index_is(
    entries: Seq<(Master, MasterAnalysis)>,
    master: Master,
    from: int,
    at: int,
)
    requires
        0 <= from <= at <= entries.len(),
        forall|i: int| from <= i < at ==> entries[i].0 != master,
        at < entries.len() ==> entries[at].0 == master,
    ensures
        entry_index(entries, master, from) == at,
    decreases at - from,
{
    if from < at {
        lemma_entry_index_is(entries, master, from + 1, at);
    }
}

/// No analyzer has two of the entries.
pub open spec fn distinct_masters(entries: Seq<(Master, MasterAnalysis)>) -> bool {
    forall|i: int, j: int| 0 <= i < j < entries.len() ==> entries[i].0 != entries[j].0
}

/// The analyses that the entries hold, by analyzer.
pub open spec fn entries_map(entries: Seq<(Master, MasterAnalysis)>) -> Map<
    Master,
    MasterAnalysisView,
> {
    Map::new(
        |m: Master| entry_index(entries, m, 0) < entries.len(),
        |m: Master| entries[entry_index(entries, m, 0)].1@,
    )
}

/// The first failure among the outcomes from index `from` on.
pub open spec fn first_failure(outcomes: Seq<MasterOutcomeView>, from: int) -> Option<ErrorView>
    decreases outcomes.len() - from,
{
    if from < 0 || from >= outcomes.len() {
        None
    } else {
        match outcomes[from].result {
            Err(e) => Some(e),
            Ok(_) => first_failure(outcomes, from + 1),
        }
    }
}

/// The analyses among the outcomes, by analyzer; of two for one analyzer the
/// later one.
pub open spec fn analyses_of(outcomes: Seq<MasterOutcomeView>) -> Map<Master, MasterAnalysisView>
    decreases outcomes.len(),
{
    if outcomes.len() == 0 {
        Map::empty()
    } else {
        match outcomes.last().result {
            Ok(a) => analyses_of(outcomes.drop_last()).insert(outcomes.last().master, a),
            Err(_) => analyses_of(outcomes.drop_last()),
        }
    }
}

/// What the outcomes of all analyzers come to: the first failure among
/// them, or the analysis of each analyzer.
pub open spec fn evaluation_of(outcomes: Seq<MasterOutcomeView>) -> Result<
    Map<Master, MasterAnalysisView>,
    ErrorView,
> {
    match first_failure(outcomes, 0) {
        Some(e) => Err(e),
        None => Ok(analyses_of(outcomes)),
    }
}

impl View for Evaluation {
    type V = Map<Master, MasterAnalysisView>;

    closed spec fn view(&self) -> Map<Master, MasterAnalysisView> {
        entries_map(self.entries@)
    }
}

impl Evaluation {
    /// No analyzer has two analyses.
    pub closed spec fn wf(&self) -> bool {
        distinct_masters(self.entries@)
    }

    /// The analyzers of the entries, in order.
    spec fn masters_view(&self) -> Seq<Master> {
        Seq::new(self.entries@.len(), |i: int| self.entries@[i].0)
    }

    /// An evaluation without any analysis.
    pub fn new() -> (e: Evaluation)
        ensures
            e.wf(),
            e@ == Map::<Master, MasterAnalysisView>::empty(),
    {
        let e = Evaluation { entries: Vec::new() };
        assert(e@ =~= Map::<Master, MasterAnalysisView>::empty());
        e
    }

    /// The analyzers of the entries are those that have an analysis, each
    /// once: there are as many entries as analyzers with an analysis.
    proof fn lemma_keys(&self)
        requires
            self.wf(),
        ensures
            self.masters_view().no_duplicates(),
            self.masters_view().to_set() == self@.dom(),
            self@.dom().finite(),
            self@.dom().len() == self.entries@.len(),
    {
        let keys = self.masters_view();
        assert forall|m: Master| keys.contains(m) <==> self@.contains_key(m) by {
            lemma_entry_index(self.entries@, m, 0);
            if keys.contains(m) {
                let j = choose|j: int| 0 <= j < keys.len() && keys[j] == m;
                assert(self.entries@[j].0 == m);
            }
            if self@.contains_key(m) {
                assert(keys[entry_index(self.entries@, m, 0)] == m);
            }
        }
        assert(keys.to_set() =~= self@.dom());
        keys.unique_seq_to_set();
        vstd::seq_lib::seq_to_set_is_finite(keys);
    }

    /// How many analyzers have an analysis.
    pub fn len(&self) -> (n: usize)
        requires
            self.wf(),
        ensures
            self@.dom().finite(),
            n == self@.dom().len(),
    {
        proof {
            self.lemma_keys();
        }
        self.entries.len()
    }

    fn position(&self, master: Master) -> (i: usize)
        ensures
            i == entry_index(self.entries@, master, 0),
            i <= self.entries@.len(),
    {
        let mut i: usize = 0;
        while i < self.entries.len()
            invariant
                i <= self.entries@.len(),
                entry_index(self.entries@, master, 0) == entry_index(self.entries@, master, i as int),
            decreases self.entries@.len() - i,
        {
            if self.entries[i].0 == master {
                return i;
            }
            i += 1;
        }
        i
    }

    /// The analysis of `master`, if it has one.
    pub fn get(&self, master: Master) -> (a: Option<&MasterAnalysis>)
        ensures
            a is Some <==> self@.contains_key(master),
            a is Some ==> a->0@ == self@[master],
    {
        let i = self.position(master);
        if i < self.entries.len() {
            Some(&self.entries[i].1)
        } else {
            None
        }
    }

    /// Whether `master` has an analysis.
    pub fn contains(&self, master: Master) -> (b: bool)
        ensures
            b == self@.contains_key(master),
    {
        self.position(master) < self.entries.len()
    }

    /// Gives `master` the analysis `analysis`, in place of the one that it
    /// had if it had one.
    pub fn insert(&mut self, master: Master, analysis: MasterAnalysis)
        requires
            old(self).wf(),
        ensures
            final(self).wf(),
            final(self)@ == old(self)@.insert(master, analysis@),
    {
        let i = self.position(master);
        let ghost before = self.entries@;
        proof {
            lemma_entry_index(before, master, 0);
        }
        if i < self.entries.len() {
            self.entries.set(i, (master, analysis));
        } else {
            self.entries.push((master, analysis));
        }
        proof {
            let after = self.entries@;
            assert forall|m: Master|
                entry_index(after, m, 0) == (if m == master {
                    i as int
                } else if entry_index(before, m, 0) < before.len() {
                    entry_index(before, m, 0)
                } else {
                    after.len() as int
                }) by {
                lemma_entry_index(before, m, 0);
                let at = if m == master {
                    i as int
                } else if entry_index(before, m, 0) < before.len() {
                    entry_index(before, m, 0)
                } else {
                    after.len() as int
                };
                assert forall|j: int| 0 <= j < at implies after[j].0 != m by {
                    if j != i {
                        assert(after[j] == before[j]);
                    }
                }
                lemma_entry_index_is(after, m, 0, at);
            }
            assert forall|m: Master|
                m != master && entry_index(before, m, 0) < before.len() implies after[entry_index(
                    before,
                    m,
                    0,
                )] == before[entry_index(before, m, 0)] by {
                lemma_entry_index(before, m, 0);
            }
            assert(entries_map(after) =~= entries_map(before).insert(master, analysis@));
        }
    }

    /// The analyzers that have an analysis, each once, in the order in which
    /// they got their first.
    pub fn masters(&self) -> (masters: Vec<Master>)
        requires
            self.wf(),
        ensures
            masters@.no_duplicates(),
            masters@.to_set() == self@.dom(),
    {
        let mut masters: Vec<Master> = Vec::new();
        let mut i: usize = 0;
        while i < self.entries.len()
            invariant
                i <= self.entries@.len(),
                masters.len() == i,
                forall|j: int| 0 <= j < i ==> masters@[j] == self.entries@[j].0,
            decreases self.entries@.len() - i,
        {
            masters.push(self.entries[i].0);
            i += 1;
        }
        proof {
            assert(masters@ =~= self.masters_view());
            self.lemma_keys();
        }
        masters
    }

    /// The analyses by analyzer, in the order in which the analyzers got
    /// their first.
    pub fn entries(&self) -> (entries: &Vec<(Master, MasterAnalysis)>)
        ensures
            entries_map(entries@) == self@,
            self.wf() ==> distinct_masters(entries@),
    {
        &self.entries
    }

    /// Takes the outcome of one analyzer's task in. An analysis becomes that
    /// of its analyzer; a failure is handed back and leaves the evaluation as
    /// it was.
    pub fn record(&mut self, outcome: MasterOutcome) -> (r: Result<(), InvmstError>)
        requires
            old(self).wf(),
        ensures
            final(self).wf(),
            match outcome@.result {
                Ok(a) => r is Ok && final(self)@ == old(self)@.insert(outcome@.master, a),
                Err(e) => r is Err && r->Err_0@ == e && final(self)@ == old(self)@,
            },
    {
        match outcome.result {
            Ok(analysis) => {
                self.insert(outcome.master, analysis);
                Ok(())
            },
            Err(e) => Err(e),
        }
    }
}

/// No failure among the first outcomes, so the first failure is the first
/// among the others.
proof fn lemma_first_failure_split(outcomes: Seq<MasterOutcomeView>, from: int, upto: int)
    requires
        0 <= from <= upto <= outcomes.len(),
        forall|j: int| from <= j < upto ==> outcomes[j].result is Ok,
    ensures
        first_failure(outcomes, from) == first_failure(outcomes, upto),
    decreases upto - from,
{
    if from < upto {
        lemma_first_failure_split(outcomes, from + 1, upto);
    }
}

/// What the outcomes of all analyzers come to: the first failure among
/// them in the order given, or the analysis of each analyzer.
pub fn collect(outcomes: Vec<MasterOutcome>) -> (r: InvmstResult<Evaluation>)
    ensures
        match evaluation_of(outcome_views(outcomes@)) {
            Ok(analyses) => r is Ok && r->Ok_0.wf() && r->Ok_0@ == analyses,
            Err(e) => r is Err && r->Err_0@ == e,
        },
{
    let ghost all = outcome_views(outcomes@);
    let mut evaluation = Evaluation::new();
    for outcome in it: outcomes.into_iter()
        invariant
            it.seq() == outcomes@,
            all == outcome_views(outcomes@),
            evaluation.wf(),
            forall|j: int| 0 <= j < it.index() ==> all[j].result is Ok,
            evaluation@ == analyses_of(all.take(it.index() as int)),
    {
        let ghost i = it.index() as int;
        assert(all[i] == outcome@);
        assert(all.take(i + 1).drop_last() =~= all.take(i));
        match evaluation.record(outcome) {
            Ok(()) => {},
            Err(e) => {
                proof {
                    lemma_first_failure_split(all, 0, i);
                }
                return Err(e);
            },
        }
    }
    proof {
        lemma_first_failure_split(all, 0, all.len() as int);
        assert(all.take(all.len() as int) =~= all);
    }
    Ok(evaluation)
}

/// Where every outcome is an analysis, an analyzer has one in the
/// evaluation exactly if it has an outcome.
pub proof fn lemma_analyses_keys(outcomes: Seq<MasterOutcomeView>)
    requires
        forall|i: int| 0 <= i < outcomes.len() ==> outcomes[i].result is Ok,
    ensures
        evaluation_of(outcomes) == Ok::<Map<Master, MasterAnalysisView>, ErrorView>(
            analyses_of(outcomes),
        ),
        forall|m: Master|
            analyses_of(outcomes).contains_key(m) <==> exists|i: int|
                0 <= i < outcomes.len() && (#[trigger] outcomes[i]).master == m,
    decreases outcomes.len(),
{
    lemma_first_failure_split(outcomes, 0, outcomes.len() as int);
    if outcomes.len() > 0 {
        let head = outcomes.drop_last();
        lemma_analyses_keys(head);
        assert forall|m: Master|
            analyses_of(outcomes).contains_key(m) <==> exists|i: int|
                0 <= i < outcomes.len() && (#[trigger] outcomes[i]).master == m by {
            if analyses_of(outcomes).contains_key(m) {
                if m == outcomes.last().master {
                    assert(outcomes[outcomes.len() - 1].master == m);
                } else {
                    let i = choose|i: int| 0 <= i < head.len() && (#[trigger] head[i]).master == m;
                    assert(outcomes[i].master == m);
                }
            }
            if exists|i: int| 0 <= i < outcomes.len() && (#[trigger] outcomes[i]).master == m {
                let i = choose|i: int| 0 <= i < outcomes.len() && (#[trigger] outcomes[i]).master == m;
                if i < head.len() {
                    assert(head[i].master == m);
                }
            }
        }
    }
}

/// An evaluation that names no analyzer asks for all of them; and where
/// each of them comes to an analysis, in whatever order, the evaluation
/// holds an analysis for every analyzer there is, and for nothing else.
pub proof fn lemma_unfiltered_evaluation_covers_all(outcomes: Seq<MasterOutcomeView>)
    requires
        forall|i: int| 0 <= i < outcomes.len() ==> outcomes[i].result is Ok,
        forall|m: Master|
            all_masters().contains(m) ==> exists|i: int|
                0 <= i < outcomes.len() && (#[trigger] outcomes[i]).master == m,
    ensures
        resolved(Seq::<Seq<char>>::empty()) == Ok::<Seq<Master>, ErrorView>(all_masters()),
        evaluation_of(outcomes) is Ok,
        evaluation_of(outcomes)->Ok_0.dom() == all_masters().to_set(),
{
    lemma_analyses_keys(outcomes);
    crate::master::lemma_all_masters_complete();
    assert(analyses_of(outcomes).dom() =~= all_masters().to_set());
}

/// One name that stands for no analyzer fails the whole evaluation with
/// `NotExists`, whatever the other names are.
pub proof fn lemma_unknown_name_fails(names: Seq<Seq<char>>, i: int)
    requires
        0 <= i < names.len(),
        master_named(names[i]) is None,
    ensures
        resolved(names) is Err,
        resolved(names)->Err_0.kind == crate::error::ErrorKind::NotExists,
{
    lemma_first_unknown(names, 0);
}

} // verus!
