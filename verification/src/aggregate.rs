//! Gathering the results of a stage: what succeeded goes on to the next
//! stage in the order in which it was dispatched, what failed is set
//! down by name for the report of the run.

use vstd::prelude::*;
use crate::error::ArchiveError;
use crate::schedule::Stage;
use crate::timestamp::{extract_datetime_from_name, names_post, post_key_of, PostKey, PostKeyView};

verus! {

/// An item that failed, and why.
#[derive(Debug)]
pub struct Failure {
    /// The name of the source file of the item.
    pub item: String,
    pub kind: ArchiveError,
}

/// A failure as plain text.
pub struct FailureView {
    pub item: Seq<char>,
    pub kind: ArchiveError,
}

impl View for Failure {
    type V = FailureView;

    open spec fn view(&self) -> FailureView {
        FailureView { item: self.item@, kind: self.kind }
    }
}

/// The views of `failures`, in their order.
pub open spec fn failure_views(failures: Seq<Failure>) -> Seq<FailureView> {
    Seq::new(failures.len(), |k: int| failures[k]@)
}

/// The views of `keys`, in their order.
pub open spec fn key_views(keys: Seq<PostKey>) -> Seq<PostKeyView> {
    Seq::new(keys.len(), |k: int| keys[k]@)
}

/// How many items a stage had, and how many of them succeeded and failed.
#[derive(Clone, Copy, Debug, PartialEq, Eq, Structural)]
pub struct StageSummary {
    pub total: usize,
    pub succeeded: usize,
    pub failed: usize,
}

/// What one item of a stage brought: the texts it hands on to the next
/// stage, or the reason why it failed.
#[derive(Debug)]
pub struct ItemOutcome {
    /// The name of the source file of the item.
    pub item: String,
    pub outcome: Result<Vec<String>, ArchiveError>,
}

/// An item's outcome as plain text.
pub struct ItemOutcomeView {
    pub item: Seq<char>,
    pub outcome: Result<Seq<Seq<char>>, ArchiveError>,
}

impl View for ItemOutcome {
    type V = ItemOutcomeView;

    open spec fn view(&self) -> ItemOutcomeView {
        ItemOutcomeView {
            item: self.item@,
            outcome: match self.outcome {
                Ok(texts) => Ok(texts.deep_view()),
                Err(e) => Err(e),
            },
        }
    }
}

/// The views of `outcomes`, in their order.
pub open spec fn outcome_views(outcomes: Seq<ItemOutcome>) -> Seq<ItemOutcomeView> {
    Seq::new(outcomes.len(), |k: int| outcomes[k]@)
}

/// What the items that succeeded hand on, item after item in the order
/// of the items, each item's texts in their own order.
pub open spec fn handed_on(outcomes: Seq<ItemOutcomeView>) -> Seq<Seq<char>>
    decreases outcomes.len(),
{
    if outcomes.len() == 0 {
        Seq::empty()
    } else {
        let before = handed_on(outcomes.drop_last());
        match outcomes.last().outcome {
            Ok(texts) => before + texts,
            Err(_) => before,
        }
    }
}

/// The items that failed, in the order of the items, each with its
/// reason.
pub open spec fn failed_items(outcomes: Seq<ItemOutcomeView>) -> Seq<FailureView>
    decreases outcomes.len(),
{
    if outcomes.len() == 0 {
        Seq::empty()
    } else {
        let before = failed_items(outcomes.drop_last());
        match outcomes.last().outcome {
            Ok(_) => before,
            Err(e) => before.push(FailureView { item: outcomes.last().item, kind: e }),
        }
    }
}

/// The gathered results of a stage.
#[derive(Debug)]
pub struct StageOutcome {
    /// What goes on to the next stage.
    pub outputs: Vec<String>,
    /// The items that failed.
    pub failures: Vec<Failure>,
    pub summary: StageSummary,
}

/// Gathers the results of a stage. What the items that succeeded hand on
/// becomes one list, in the order in which the items were dispatched;
/// the items that failed are left out of it and set down with their
/// reasons.
pub fn aggregate(outcomes: &Vec<ItemOutcome>) -> (gathered: StageOutcome)
    ensures
        gathered.outputs.deep_view() == handed_on(outcome_views(outcomes@)),
        failure_views(gathered.failures@) == failed_items(outcome_views(outcomes@)),
        gathered.summary.total == outcomes.len(),
        gathered.summary.failed == gathered.failures.len(),
        gathered.summary.succeeded + gathered.summary.failed == gathered.summary.total,
{
    let ghost all = outcome_views(outcomes@);
    let mut outputs: Vec<String> = Vec::new();
    let mut failures: Vec<Failure> = Vec::new();
    let mut succeeded: usize = 0;
    let mut i: usize = 0;
    while i < outcomes.len()
        invariant
            i <= outcomes.len(),
            all == outcome_views(outcomes@),
            outputs.deep_view() == handed_on(all.take(i as int)),
            failure_views(failures@) == failed_items(all.take(i as int)),
            succeeded + failures.len() == i,
        decreases outcomes.len() - i,
    {
        proof {
            assert(all.take(i + 1).drop_last() == all.take(i as int));
            assert(all.take(i + 1).last() == outcomes[i as int]@);
        }
        match &outcomes[i].outcome {
            Ok(texts) => {
                let ghost before = outputs.deep_view();
                let mut k: usize = 0;
                while k < texts.len()
                    invariant
                        k <= texts.len(),
                        outputs.deep_view() == before + texts.deep_view().take(k as int),
                    decreases texts.len() - k,
                {
                    let ghost so_far = outputs.deep_view();
                    outputs.push(texts[k].clone());
                    assert(outputs.deep_view() == so_far.push(texts[k as int]@));
                    assert(texts.deep_view().take(k + 1) == texts.deep_view().take(k as int).push(
                        texts[k as int]@,
                    ));
                    k += 1;
                }
                assert(texts.deep_view().take(texts.len() as int) == texts.deep_view());
                succeeded += 1;
            },
            Err(e) => {
                let ghost before = failure_views(failures@);
                let failure = Failure { item: outcomes[i].item.clone(), kind: *e };
                failures.push(failure);
                assert(failure_views(failures@) == before.push(
                    FailureView { item: outcomes[i as int].item@, kind: *e },
                ));
            },
        }
        i += 1;
    }
    assert(all.take(outcomes.len() as int) == all);
    let summary = StageSummary { total: outcomes.len(), succeeded, failed: failures.len() };
    StageOutcome { outputs, failures, summary }
}

/// The keys of the posts among `names`, in the order of the names.
pub open spec fn found_posts(names: Seq<Seq<char>>) -> Seq<PostKeyView>
    decreases names.len(),
{
    if names.len() == 0 {
        Seq::empty()
    } else {
        let before = found_posts(names.drop_last());
        if names_post(names.last()) {
            before.push(post_key_of(names.last()))
        } else {
            before
        }
    }
}

/// The names among `names` that are not those of posts, in their order,
/// each set down as malformed.
pub open spec fn malformed_names(names: Seq<Seq<char>>) -> Seq<FailureView>
    decreases names.len(),
{
    if names.len() == 0 {
        Seq::empty()
    } else {
        let before = malformed_names(names.drop_last());
        if names_post(names.last()) {
            before
        } else {
            before.push(
                FailureView { item: names.last(), kind: ArchiveError::MalformedTimestamp },
            )
        }
    }
}

/// The posts found among a list of file names, and the names that are
/// none.
#[derive(Debug)]
pub struct FoundPosts {
    pub keys: Vec<PostKey>,
    pub failures: Vec<Failure>,
    pub summary: StageSummary,
}

/// Reads the key of each post of `names`. A name that is not that of a
/// post fails alone, with `MalformedTimestamp`: the posts before and
/// behind it are read as if it were not there.
pub fn find_posts(names: &Vec<String>) -> (found: FoundPosts)
    ensures
        key_views(found.keys@) == found_posts(names.deep_view()),
        failure_views(found.failures@) == malformed_names(names.deep_view()),
        found.summary.total == names.len(),
        found.summary.succeeded == found.keys.len(),
        found.summary.failed == found.failures.len(),
        found.summary.succeeded + found.summary.failed == found.summary.total,
{
    let ghost all = names.deep_view();
    let mut keys: Vec<PostKey> = Vec::new();
    let mut failures: Vec<Failure> = Vec::new();
    let mut i: usize = 0;
    while i < names.len()
        invariant
            i <= names.len(),
            all == names.deep_view(),
            key_views(keys@) == found_posts(all.take(i as int)),
            failure_views(failures@) == malformed_names(all.take(i as int)),
            keys.len() + failures.len() == i,
        decreases names.len() - i,
    {
        proof {
            assert(all.take(i + 1).drop_last() == all.take(i as int));
            assert(all.take(i + 1).last() == names[i as int]@);
        }
        match extract_datetime_from_name(names[i].as_str()) {
            Ok(key) => {
                let ghost before = key_views(keys@);
                keys.push(key);
                assert(key_views(keys@) == before.push(post_key_of(names[i as int]@)));
            },
            Err(e) => {
                let ghost before = failure_views(failures@);
                failures.push(Failure { item: names[i].clone(), kind: e });
                assert(failure_views(failures@) == before.push(
                    FailureView { item: names[i as int]@, kind: ArchiveError::MalformedTimestamp },
                ));
            },
        }
        i += 1;
    }
    assert(all.take(names.len() as int) == all);
    let summary = StageSummary {
        total: names.len(),
        succeeded: keys.len(),
        failed: failures.len(),
    };
    FoundPosts { keys, failures, summary }
}

/// A failure is local to its item: the posts found in a list of names
/// are those found in its first part followed by those found in the
/// rest, and likewise the names that fail. So a malformed name takes no
/// post away and adds none.
pub proof fn law_failure_is_local(first: Seq<Seq<char>>, rest: Seq<Seq<char>>)
    ensures
        found_posts(first + rest) == found_posts(first) + found_posts(rest),
        malformed_names(first + rest) == malformed_names(first) + malformed_names(rest),
    decreases rest.len(),
{
    if rest.len() == 0 {
        assert(first + rest == first);
    } else {
        law_failure_is_local(first, rest.drop_last());
        assert((first + rest).drop_last() == first + rest.drop_last());
        assert((first + rest).last() == rest.last());
    }
}

/// What became of one stage of a run.
#[derive(Clone, Copy, Debug, PartialEq, Eq, Structural)]
pub struct StageReport {
    pub stage: Stage,
    pub summary: StageSummary,
}

/// The report of a run: for each stage how many items it had and how
/// many of them succeeded and failed, and every failed item by name.
#[derive(Debug)]
pub struct RunReport {
    pub stages: Vec<StageReport>,
    pub failures: Vec<Failure>,
}

impl RunReport {
    /// The report of a run that has not begun.
    pub fn new() -> (report: RunReport)
        ensures
            report.stages@ == Seq::<StageReport>::empty(),
            report.failures@ == Seq::<Failure>::empty(),
    {
        RunReport { stages: Vec::new(), failures: Vec::new() }
    }

    /// Sets down what became of a stage: its summary behind those of the
    /// stages before it, its failures behind theirs.
    pub fn record(&mut self, stage: Stage, summary: StageSummary, failures: Vec<Failure>)
        ensures
            final(self).stages@ == old(self).stages@.push(StageReport { stage, summary }),
            final(self).failures@ == old(self).failures@ + failures@,
    {
        let mut rest = failures;
        self.stages.push(StageReport { stage, summary });
        self.failures.append(&mut rest);
    }
}

} // verus!
