//! The restore after a local reset: for each collection that was wiped, the tombstones are
//! purged, so that the next handshake pulls what the peers have, and the marks that kept it
//! local are cleared, so that it replicates again.
use crate::text;
use vstd::prelude::*;
use vstd::string::*;

verus! {

/// How the restore of one collection is reported: its name, a colon, and the number of
/// tombstones purged.
pub open spec fn report(collection: Seq<char>, purged: nat) -> Seq<char> {
    collection + ":"@ + text::decimal(purged)
}

fn make_report(collection: &String, purged: usize) -> (line: String)
    ensures
        line@ == report(collection@, purged as nat),
{
    collection.clone().concat(":").concat(text::decimal_text(purged).as_str())
}

/// A restore that waits for the tombstones of its next collection to be purged.
pub struct Restore {
    collections: Vec<String>,
    reports: Vec<String>,
}

/// A restore that waits for the marks of the collection just purged to be cleared.
pub struct RestoreMarks {
    collections: Vec<String>,
    reports: Vec<String>,
}

/// The content of a restore: the collections asked for, and the reports so far, one for each
/// of the first of them.
pub struct RestoreView {
    pub collections: Seq<Seq<char>>,
    pub reports: Seq<Seq<char>>,
}

impl Restore {
    /// A collection is left to be restored.
    #[verifier::type_invariant]
    spec fn one_is_left(self) -> bool {
        self.reports@.len() < self.collections@.len()
    }
}

impl DeepView for Restore {
    type V = RestoreView;

    closed spec fn deep_view(&self) -> RestoreView {
        RestoreView {
            collections: self.collections.deep_view(),
            reports: self.reports.deep_view(),
        }
    }
}

impl DeepView for RestoreMarks {
    type V = RestoreView;

    closed spec fn deep_view(&self) -> RestoreView {
        RestoreView {
            collections: self.collections.deep_view(),
            reports: self.reports.deep_view(),
        }
    }
}

/// Where a restore stands: it waits for a collection to be purged or for its marks to be
/// cleared, or it is done, or it failed with a message.
pub enum RestoreStep {
    Vacuum(Restore, String),
    Replicate(RestoreMarks, String),
    Done(Vec<String>),
    Fail(String),
}

/// The content of a [`RestoreStep`].
pub enum RestoreStepView {
    Vacuum(RestoreView, Seq<char>),
    Replicate(RestoreView, Seq<char>),
    Done(Seq<Seq<char>>),
    Fail(Seq<char>),
}

impl DeepView for RestoreStep {
    type V = RestoreStepView;

    open spec fn deep_view(&self) -> RestoreStepView {
        match self {
            RestoreStep::Vacuum(restore, collection) => RestoreStepView::Vacuum(
                restore.deep_view(),
                collection@,
            ),
            RestoreStep::Replicate(restore, collection) => RestoreStepView::Replicate(
                restore.deep_view(),
                collection@,
            ),
            RestoreStep::Done(reports) => RestoreStepView::Done(reports.deep_view()),
            RestoreStep::Fail(message) => RestoreStepView::Fail(message@),
        }
    }
}

/// A restore goes on with the first collection that has no report, until all have one.
pub open spec fn restore_from(restore: RestoreView) -> RestoreStepView {
    if restore.reports.len() < restore.collections.len() {
        RestoreStepView::Vacuum(restore, restore.collections[restore.reports.len() as int])
    } else {
        RestoreStepView::Done(restore.reports)
    }
}

/// How a restore goes on once a collection is purged, or could not be.
pub open spec fn restore_vacuumed(
    restore: RestoreView,
    purged: Result<usize, Seq<char>>,
) -> RestoreStepView {
    match purged {
        Ok(count) => {
            let collection = restore.collections[restore.reports.len() as int];
            RestoreStepView::Replicate(
                RestoreView {
                    reports: restore.reports.push(report(collection, count as nat)),
                    ..restore
                },
                collection,
            )
        },
        Err(error) => RestoreStepView::Fail(error),
    }
}

fn go_on(collections: Vec<String>, reports: Vec<String>) -> (step: RestoreStep)
    ensures
        step.deep_view() == restore_from(
            RestoreView { collections: collections.deep_view(), reports: reports.deep_view() },
        ),
{
    if reports.len() < collections.len() {
        let collection = collections[reports.len()].clone();
        RestoreStep::Vacuum(Restore { collections, reports }, collection)
    } else {
        RestoreStep::Done(reports)
    }
}

/// Restores the given collections, one after the other.
pub fn prepare_sync_restore(collections: Vec<String>) -> (step: RestoreStep)
    ensures
        step.deep_view() == restore_from(
            RestoreView { collections: collections.deep_view(), reports: Seq::empty() },
        ),
{
    let reports: Vec<String> = Vec::new();
    assert(reports.deep_view() =~= Seq::<Seq<char>>::empty());
    go_on(collections, reports)
}

/// The number of tombstones purged, or the content of the error.
pub open spec fn purged_content(purged: Result<usize, String>) -> Result<usize, Seq<char>> {
    match purged {
        Ok(count) => Ok(count),
        Err(error) => Err(error@),
    }
}

impl Restore {
    /// Goes on with the number of tombstones purged, or fails with the error.
    pub fn vacuumed(self, purged: Result<usize, String>) -> (step: RestoreStep)
        ensures
            step.deep_view() == restore_vacuumed(self.deep_view(), purged_content(purged)),
    {
        proof {
            use_type_invariant(&self);
        }
        match purged {
            Ok(count) => {
                let ghost before = self.reports.deep_view();
                let collections = self.collections;
                let mut reports = self.reports;
                let collection = collections[reports.len()].clone();
                let line = make_report(&collection, count);
                let ghost content = line@;
                reports.push(line);
                assert(reports.deep_view() =~= before.push(content));
                RestoreStep::Replicate(RestoreMarks { collections, reports }, collection)
            },
            Err(error) => RestoreStep::Fail(error),
        }
    }
}

impl RestoreMarks {
    /// Goes on once the marks are cleared.
    pub fn replicated(self) -> (step: RestoreStep)
        ensures
            step.deep_view() == restore_from(self.deep_view()),
    {
        go_on(self.collections, self.reports)
    }
}

/// Runs a restore where purging the collection at each place gives `counts`, until a place
/// whose purge fails: gives the collections purged and cleared, in order, and the step that
/// it comes to.
pub open spec fn restore_run(
    step: RestoreStepView,
    counts: spec_fn(int) -> Result<usize, Seq<char>>,
    restored: Seq<Seq<char>>,
    fuel: nat,
) -> (Seq<Seq<char>>, RestoreStepView)
    decreases fuel,
{
    match step {
        RestoreStepView::Vacuum(restore, collection) if fuel > 0 => restore_run(
            restore_vacuumed(restore, counts(restore.reports.len() as int)),
            counts,
            restored,
            (fuel - 1) as nat,
        ),
        RestoreStepView::Replicate(restore, collection) if fuel > 0 => restore_run(
            restore_from(restore),
            counts,
            restored.push(collection),
            (fuel - 1) as nat,
        ),
        _ => (restored, step),
    }
}

/// The reports on the first `n` collections.
pub open spec fn reports_on(
    collections: Seq<Seq<char>>,
    counts: spec_fn(int) -> Result<usize, Seq<char>>,
    n: int,
) -> Seq<Seq<char>> {
    Seq::new(n as nat, |i: int| report(collections[i], counts(i)->Ok_0 as nat))
}

proof fn lemma_restore_reaches(
    collections: Seq<Seq<char>>,
    counts: spec_fn(int) -> Result<usize, Seq<char>>,
    n: int,
    fuel: nat,
)
    requires
        0 <= n <= collections.len(),
        forall|i: int| 0 <= i < n ==> (#[trigger] counts(i)) is Ok,
    ensures
        restore_run(
            restore_from(RestoreView { collections, reports: Seq::empty() }),
            counts,
            Seq::empty(),
            2 * (n as nat) + fuel,
        ) == restore_run(
            restore_from(RestoreView { collections, reports: reports_on(collections, counts, n) }),
            counts,
            collections.take(n),
            fuel,
        ),
    decreases n,
{
    if n == 0 {
        assert(reports_on(collections, counts, 0) =~= Seq::empty());
        assert(collections.take(0) =~= Seq::empty());
    } else {
        let before = RestoreView { collections, reports: reports_on(collections, counts, n - 1) };
        lemma_restore_reaches(collections, counts, n - 1, fuel + 2);
        assert(2 * ((n - 1) as nat) + (fuel + 2) == 2 * (n as nat) + fuel);
        assert(counts(n - 1) is Ok);
        assert(reports_on(collections, counts, n) =~= before.reports.push(
            report(collections[n - 1], counts(n - 1)->Ok_0 as nat),
        ));
        assert(collections.take(n) =~= collections.take(n - 1).push(collections[n - 1]));
        reveal_with_fuel(restore_run, 3);
    }
}

/// Where no purge fails, a restore purges and clears every collection in order, once, and
/// reports on each.
pub proof fn law_restore(
    collections: Seq<Seq<char>>,
    counts: spec_fn(int) -> Result<usize, Seq<char>>,
)
    requires
        forall|i: int| 0 <= i < collections.len() ==> (#[trigger] counts(i)) is Ok,
    ensures
        restore_run(
            restore_from(RestoreView { collections, reports: Seq::empty() }),
            counts,
            Seq::empty(),
            2 * collections.len(),
        ) == (
            collections,
            RestoreStepView::Done(reports_on(collections, counts, collections.len() as int)),
        ),
{
    lemma_restore_reaches(collections, counts, collections.len() as int, 0);
    assert(collections.take(collections.len() as int) =~= collections);
}

/// Where the purge of a collection is the first to fail, a restore purges and clears the
/// collections before it, in order, and fails with that error.
pub proof fn law_restore_stops_at_a_failure(
    collections: Seq<Seq<char>>,
    counts: spec_fn(int) -> Result<usize, Seq<char>>,
    at: int,
)
    requires
        0 <= at < collections.len(),
        forall|i: int| 0 <= i < at ==> (#[trigger] counts(i)) is Ok,
        counts(at) is Err,
    ensures
        restore_run(
            restore_from(RestoreView { collections, reports: Seq::empty() }),
            counts,
            Seq::empty(),
            2 * (at as nat) + 1,
        ) == (collections.take(at), RestoreStepView::Fail(counts(at)->Err_0)),
{
    lemma_restore_reaches(collections, counts, at, 1);
    reveal_with_fuel(restore_run, 2);
}

/// A report reads back: the name of the collection, a colon, and digits whose value, read from
/// the left, is the number of tombstones purged, without a zero in front of others.
pub proof fn law_reports_tell_collection_and_count(collection: Seq<char>, purged: nat)
    ensures
        ({
            let line = report(collection, purged);
            let digits = line.skip(collection.len() as int + 1);
            &&& line.len() > collection.len() + 1
            &&& line.take(collection.len() as int) == collection
            &&& line[collection.len() as int] == ':'
            &&& forall|i: int| 0 <= i < digits.len() ==> '0' <= #[trigger] digits[i] <= '9'
            &&& digits[0] == '0' ==> digits.len() == 1
            &&& digits.fold_left(0int, |value: int, d: char| value * 10 + (d as int - '0' as int))
                == purged
        }),
{
    reveal_strlit(":");
    let line = report(collection, purged);
    let colon = ":"@;
    assert(colon.len() == 1 && colon[0] == ':');
    text::law_decimal_digits_have_the_value(purged);
    assert(line.take(collection.len() as int) =~= collection);
    assert(line.skip(collection.len() as int + 1) =~= text::decimal(purged));
    assert(line[collection.len() as int] == (collection + colon)[collection.len() as int]);
}

/// Each step of a restore: as long as a collection has no report, the first such collection is
/// purged, and nothing is forgotten; once it is purged, the marks of the same collection are
/// cleared and a report on it, with the number purged, is added behind the others; a purge that
/// fails ends the restore with its error; and when every collection has its report, the reports
/// are the answer.
pub proof fn law_restore_steps(restore: RestoreView, purged: usize, error: Seq<char>)
    requires
        restore.reports.len() <= restore.collections.len(),
    ensures
        restore.reports.len() == restore.collections.len() ==> restore_from(restore)
            == RestoreStepView::Done(restore.reports),
        restore.reports.len() < restore.collections.len() ==> {
            let collection = restore.collections[restore.reports.len() as int];
            &&& restore_from(restore) == RestoreStepView::Vacuum(restore, collection)
            &&& restore_vacuumed(restore, Err(error)) == RestoreStepView::Fail(error)
            &&& restore_vacuumed(restore, Ok(purged)) matches RestoreStepView::Replicate(after, cleared)
                && {
                let line = after.reports.last();
                let digits = line.skip(collection.len() as int + 1);
                &&& cleared == collection
                &&& after.collections == restore.collections
                &&& after.reports == restore.reports.push(line)
                &&& line.len() > collection.len() + 1
                &&& line.take(collection.len() as int) == collection
                &&& line[collection.len() as int] == ':'
                &&& forall|i: int| 0 <= i < digits.len() ==> '0' <= #[trigger] digits[i] <= '9'
                &&& digits[0] == '0' ==> digits.len() == 1
                &&& digits.fold_left(
                    0int,
                    |value: int, d: char| value * 10 + (d as int - '0' as int),
                ) == purged
            }
        },
{
    if restore.reports.len() < restore.collections.len() {
        let collection = restore.collections[restore.reports.len() as int];
        law_reports_tell_collection_and_count(collection, purged as nat);
        let line = report(collection, purged as nat);
        assert(restore.reports.push(line).last() == line);
    }
}

} // verus!
