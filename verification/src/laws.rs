//! Laws of the fold, stated over the model of [`crate::model`] and proved
//! once for every input.
//!
//! The central one is order independence: folding any permutation of a
//! report sequence yields the same summary, so the sequential left fold
//! may be replaced by any reduction order with no observable difference.

use vstd::prelude::*;
use vstd::seq_lib::group_to_multiset_ensures;
use vstd::multiset::group_multiset_axioms;

use crate::metrics::{Abc, BasicMetric, Halstead, JsonData, Loc, Metrics, MetricValues, Mi, Nom};
use crate::model::{abc_merge, abc_step, abc_zero, basic_merge, basic_step, basic_zero,
    fold_reports, hal_merge, hal_step, hal_zero, loc_merge, loc_step, loc_zero, metrics_step,
    mi_merge, mi_step, mi_zero, mv_merge, mv_step, mv_zero, nom_merge, nom_step, nom_zero,
    report_step, val0, SummaryModel};

verus! {

// ---------------------------------------------------------------------
// Per-category projections of one report.
// ---------------------------------------------------------------------

pub open spec fn nargs_of(r: JsonData) -> Option<MetricValues> {
    match r.metrics {
        Some(m) => m.nargs,
        None => None,
    }
}

pub open spec fn nexits_of(r: JsonData) -> Option<BasicMetric> {
    match r.metrics {
        Some(m) => m.nexits,
        None => None,
    }
}

pub open spec fn cognitive_of(r: JsonData) -> Option<BasicMetric> {
    match r.metrics {
        Some(m) => m.cognitive,
        None => None,
    }
}

pub open spec fn cyclomatic_of(r: JsonData) -> Option<BasicMetric> {
    match r.metrics {
        Some(m) => m.cyclomatic,
        None => None,
    }
}

pub open spec fn halstead_of(r: JsonData) -> Option<Halstead> {
    match r.metrics {
        Some(m) => m.halstead,
        None => None,
    }
}

pub open spec fn loc_of(r: JsonData) -> Option<Loc> {
    match r.metrics {
        Some(m) => m.loc,
        None => None,
    }
}

pub open spec fn nom_of(r: JsonData) -> Option<Nom> {
    match r.metrics {
        Some(m) => m.nom,
        None => None,
    }
}

pub open spec fn mi_of(r: JsonData) -> Option<Mi> {
    match r.metrics {
        Some(m) => m.mi,
        None => None,
    }
}

pub open spec fn abc_of(r: JsonData) -> Option<Abc> {
    match r.metrics {
        Some(m) => m.abc,
        None => None,
    }
}

// ---------------------------------------------------------------------
// Order independence.
// ---------------------------------------------------------------------

proof fn lemma_mv_merge_commutes(
    a: Option<crate::model::MetricValuesModel>,
    x: Option<MetricValues>,
    y: Option<MetricValues>,
)
    ensures
        mv_merge(mv_merge(a, x), y) == mv_merge(mv_merge(a, y), x),
{
}

proof fn lemma_basic_merge_commutes(
    a: Option<crate::model::BasicModel>,
    x: Option<BasicMetric>,
    y: Option<BasicMetric>,
)
    ensures
        basic_merge(basic_merge(a, x), y) == basic_merge(basic_merge(a, y), x),
{
}

proof fn lemma_hal_merge_commutes(
    a: Option<crate::model::HalsteadModel>,
    x: Option<Halstead>,
    y: Option<Halstead>,
)
    ensures
        hal_merge(hal_merge(a, x), y) == hal_merge(hal_merge(a, y), x),
{
}

#[verifier::rlimit(60)]
proof fn lemma_loc_merge_commutes(a: Option<crate::model::LocModel>, x: Option<Loc>, y: Option<Loc>)
    ensures
        loc_merge(loc_merge(a, x), y) == loc_merge(loc_merge(a, y), x),
{
    match (x, y) {
        (Some(vx), Some(vy)) => {
            let b = crate::model::loc_or_zero(a);
            assert(loc_step(loc_step(b, vx), vy) == loc_step(loc_step(b, vy), vx));
        },
        _ => (),
    }
}

proof fn lemma_nom_merge_commutes(a: Option<crate::model::NomModel>, x: Option<Nom>, y: Option<Nom>)
    ensures
        nom_merge(nom_merge(a, x), y) == nom_merge(nom_merge(a, y), x),
{
}

proof fn lemma_mi_merge_commutes(a: Option<crate::model::MiModel>, x: Option<Mi>, y: Option<Mi>)
    ensures
        mi_merge(mi_merge(a, x), y) == mi_merge(mi_merge(a, y), x),
{
}

proof fn lemma_abc_merge_commutes(a: Option<crate::model::AbcModel>, x: Option<Abc>, y: Option<Abc>)
    ensures
        abc_merge(abc_merge(a, x), y) == abc_merge(abc_merge(a, y), x),
{
}

/// Two successive record folds commute: sums and counts are commutative
/// additions, extremum merges are nested minima and maxima.
proof fn lemma_metrics_step_commutes(a: SummaryModel, m1: Metrics, m2: Metrics)
    ensures
        metrics_step(metrics_step(a, m1), m2) == metrics_step(metrics_step(a, m2), m1),
{
    lemma_mv_merge_commutes(a.nargs, m1.nargs, m2.nargs);
    lemma_basic_merge_commutes(a.nexits, m1.nexits, m2.nexits);
    lemma_basic_merge_commutes(a.cognitive, m1.cognitive, m2.cognitive);
    lemma_basic_merge_commutes(a.cyclomatic, m1.cyclomatic, m2.cyclomatic);
    lemma_hal_merge_commutes(a.halstead, m1.halstead, m2.halstead);
    lemma_loc_merge_commutes(a.loc, m1.loc, m2.loc);
    lemma_nom_merge_commutes(a.nom, m1.nom, m2.nom);
    lemma_mi_merge_commutes(a.mi, m1.mi, m2.mi);
    lemma_abc_merge_commutes(a.abc, m1.abc, m2.abc);
}

/// Two successive report folds commute.
proof fn lemma_report_step_commutes(a: SummaryModel, x: JsonData, y: JsonData)
    ensures
        report_step(report_step(a, x), y) == report_step(report_step(a, y), x),
{
    match (x.metrics, y.metrics) {
        (Some(m1), Some(m2)) => lemma_metrics_step_commutes(a, m1, m2),
        _ => (),
    }
}

/// Any one report of the sequence may be folded last.
pub proof fn lemma_fold_extract(s: Seq<JsonData>, j: int)
    requires
        0 <= j < s.len(),
    ensures
        fold_reports(s) == report_step(fold_reports(s.remove(j)), s[j]),
    decreases s.len(),
{
    if j == s.len() - 1 {
        assert(s.remove(j) =~= s.drop_last());
    } else {
        let t = s.drop_last();
        lemma_fold_extract(t, j);
        lemma_report_step_commutes(fold_reports(t.remove(j)), t[j], s.last());
        assert(s.remove(j).drop_last() =~= t.remove(j));
        assert(s.remove(j).last() == s.last());
    }
}

/// Order independence: summarizing any permutation of a report set yields
/// the same summary.
pub proof fn lemma_fold_order_independent(s1: Seq<JsonData>, s2: Seq<JsonData>)
    requires
        s1.to_multiset() == s2.to_multiset(),
    ensures
        fold_reports(s1) == fold_reports(s2),
    decreases s1.len(),
{
    broadcast use group_to_multiset_ensures;
    broadcast use group_multiset_axioms;

    s1.to_multiset_ensures();
    s2.to_multiset_ensures();
    if s1.len() == 0 {
        assert(s2.len() == 0);
    } else {
        let x = s1.last();
        let t1 = s1.drop_last();
        assert(t1.push(x) =~= s1);
        assert(s1.to_multiset().count(x) > 0);
        assert(s2.contains(x));
        let j = choose|j: int| 0 <= j < s2.len() && s2[j] == x;
        let t2 = s2.remove(j);
        assert(t1.to_multiset() =~= t2.to_multiset()) by {
            assert(s1.to_multiset() =~= t1.to_multiset().insert(x));
            assert(t2.to_multiset() =~= s2.to_multiset().remove(x));
        }
        lemma_fold_order_independent(t1, t2);
        lemma_fold_extract(s2, j);
    }
}

// ---------------------------------------------------------------------
// Absence propagation.
// ---------------------------------------------------------------------

/// A category supplied by no report stays absent in the summary.
pub proof fn lemma_absent_categories(s: Seq<JsonData>)
    ensures
        (forall|i: int| 0 <= i < s.len() ==> nargs_of(#[trigger] s[i]) is None) ==> fold_reports(
            s,
        ).nargs is None,
        (forall|i: int| 0 <= i < s.len() ==> nexits_of(#[trigger] s[i]) is None) ==> fold_reports(
            s,
        ).nexits is None,
        (forall|i: int| 0 <= i < s.len() ==> cognitive_of(#[trigger] s[i]) is None)
            ==> fold_reports(s).cognitive is None,
        (forall|i: int| 0 <= i < s.len() ==> cyclomatic_of(#[trigger] s[i]) is None)
            ==> fold_reports(s).cyclomatic is None,
        (forall|i: int| 0 <= i < s.len() ==> halstead_of(#[trigger] s[i]) is None)
            ==> fold_reports(s).halstead is None,
        (forall|i: int| 0 <= i < s.len() ==> loc_of(#[trigger] s[i]) is None) ==> fold_reports(
            s,
        ).loc is None,
        (forall|i: int| 0 <= i < s.len() ==> nom_of(#[trigger] s[i]) is None) ==> fold_reports(
            s,
        ).nom is None,
        (forall|i: int| 0 <= i < s.len() ==> mi_of(#[trigger] s[i]) is None) ==> fold_reports(
            s,
        ).mi is None,
        (forall|i: int| 0 <= i < s.len() ==> abc_of(#[trigger] s[i]) is None) ==> fold_reports(
            s,
        ).abc is None,
    decreases s.len(),
{
    if s.len() > 0 {
        let t = s.drop_last();
        lemma_absent_categories(t);
        assert(forall|i: int| 0 <= i < t.len() ==> #[trigger] t[i] == s[i]);
    }
}

// ---------------------------------------------------------------------
// Count monotonicity.
// ---------------------------------------------------------------------

/// Folding one more report raises the count of each category it supplies
/// by exactly one and leaves every category it lacks unchanged.
pub proof fn lemma_count_monotonic(s: Seq<JsonData>, r: JsonData)
    ensures
        fold_reports(s.push(r)).nargs == mv_merge(fold_reports(s).nargs, nargs_of(r)),
        nargs_of(r) is Some ==> (fold_reports(s.push(r)).nargs matches Some(c) && c.count == (match
            fold_reports(s).nargs {
            Some(p) => p.count + 1,
            None => 1nat,
        })),
        nargs_of(r) is None ==> fold_reports(s.push(r)).nargs == fold_reports(s).nargs,
        fold_reports(s.push(r)).nexits == basic_merge(fold_reports(s).nexits, nexits_of(r)),
        nexits_of(r) is Some ==> (fold_reports(s.push(r)).nexits matches Some(c) && c.count
            == (match fold_reports(s).nexits {
            Some(p) => p.count + 1,
            None => 1nat,
        })),
        nexits_of(r) is None ==> fold_reports(s.push(r)).nexits == fold_reports(s).nexits,
        fold_reports(s.push(r)).cognitive == basic_merge(
            fold_reports(s).cognitive,
            cognitive_of(r),
        ),
        cognitive_of(r) is Some ==> (fold_reports(s.push(r)).cognitive matches Some(c) && c.count
            == (match fold_reports(s).cognitive {
            Some(p) => p.count + 1,
            None => 1nat,
        })),
        cognitive_of(r) is None ==> fold_reports(s.push(r)).cognitive == fold_reports(s).cognitive,
        fold_reports(s.push(r)).cyclomatic == basic_merge(
            fold_reports(s).cyclomatic,
            cyclomatic_of(r),
        ),
        cyclomatic_of(r) is Some ==> (fold_reports(s.push(r)).cyclomatic matches Some(c) && c.count
            == (match fold_reports(s).cyclomatic {
            Some(p) => p.count + 1,
            None => 1nat,
        })),
        cyclomatic_of(r) is None ==> fold_reports(s.push(r)).cyclomatic == fold_reports(
            s,
        ).cyclomatic,
        fold_reports(s.push(r)).halstead == hal_merge(fold_reports(s).halstead, halstead_of(r)),
        halstead_of(r) is Some ==> (fold_reports(s.push(r)).halstead matches Some(c) && c.count
            == (match fold_reports(s).halstead {
            Some(p) => p.count + 1,
            None => 1nat,
        })),
        halstead_of(r) is None ==> fold_reports(s.push(r)).halstead == fold_reports(s).halstead,
        fold_reports(s.push(r)).loc == loc_merge(fold_reports(s).loc, loc_of(r)),
        loc_of(r) is Some ==> (fold_reports(s.push(r)).loc matches Some(c) && c.count == (match
            fold_reports(s).loc {
            Some(p) => p.count + 1,
            None => 1nat,
        })),
        loc_of(r) is None ==> fold_reports(s.push(r)).loc == fold_reports(s).loc,
        fold_reports(s.push(r)).nom == nom_merge(fold_reports(s).nom, nom_of(r)),
        nom_of(r) is Some ==> (fold_reports(s.push(r)).nom matches Some(c) && c.count == (match
            fold_reports(s).nom {
            Some(p) => p.count + 1,
            None => 1nat,
        })),
        nom_of(r) is None ==> fold_reports(s.push(r)).nom == fold_reports(s).nom,
        fold_reports(s.push(r)).mi == mi_merge(fold_reports(s).mi, mi_of(r)),
        mi_of(r) is Some ==> (fold_reports(s.push(r)).mi matches Some(c) && c.count == (match
            fold_reports(s).mi {
            Some(p) => p.count + 1,
            None => 1nat,
        })),
        mi_of(r) is None ==> fold_reports(s.push(r)).mi == fold_reports(s).mi,
        fold_reports(s.push(r)).abc == abc_merge(fold_reports(s).abc, abc_of(r)),
        abc_of(r) is Some ==> (fold_reports(s.push(r)).abc matches Some(c) && c.count == (match
            fold_reports(s).abc {
            Some(p) => p.count + 1,
            None => 1nat,
        })),
        abc_of(r) is None ==> fold_reports(s.push(r)).abc == fold_reports(s).abc,
{
    assert(s.push(r).drop_last() =~= s);
    assert(s.push(r).last() == r);
}


// ---------------------------------------------------------------------
// A category with exactly one contributor.
// ---------------------------------------------------------------------

/// A category supplied by exactly one report folds to one step over the
/// zero accumulator: its count is one and its fields carry exactly that
/// report's values.
pub proof fn lemma_single_contributor_nargs(s: Seq<JsonData>, j: int)
    requires
        0 <= j < s.len(),
        nargs_of(s[j]) is Some,
        forall|i: int| 0 <= i < s.len() && i != j ==> nargs_of(#[trigger] s[i]) is None,
    ensures
        fold_reports(s).nargs == Some(mv_step(mv_zero(), nargs_of(s[j]).unwrap())),
        fold_reports(s).nargs.unwrap().count == 1,
{
    lemma_fold_extract(s, j);
    let t = s.remove(j);
    assert forall|i: int| 0 <= i < t.len() implies nargs_of(#[trigger] t[i]) is None by {
        if i < j {
            assert(t[i] == s[i]);
        } else {
            assert(t[i] == s[i + 1]);
        }
    }
    lemma_absent_categories(t);
}

/// A category supplied by exactly one report folds to one step over the
/// zero accumulator: its count is one and its fields carry exactly that
/// report's values.
pub proof fn lemma_single_contributor_nexits(s: Seq<JsonData>, j: int)
    requires
        0 <= j < s.len(),
        nexits_of(s[j]) is Some,
        forall|i: int| 0 <= i < s.len() && i != j ==> nexits_of(#[trigger] s[i]) is None,
    ensures
        fold_reports(s).nexits == Some(basic_step(basic_zero(), nexits_of(s[j]).unwrap())),
        fold_reports(s).nexits.unwrap().count == 1,
{
    lemma_fold_extract(s, j);
    let t = s.remove(j);
    assert forall|i: int| 0 <= i < t.len() implies nexits_of(#[trigger] t[i]) is None by {
        if i < j {
            assert(t[i] == s[i]);
        } else {
            assert(t[i] == s[i + 1]);
        }
    }
    lemma_absent_categories(t);
}

/// A category supplied by exactly one report folds to one step over the
/// zero accumulator: its count is one and its fields carry exactly that
/// report's values.
pub proof fn lemma_single_contributor_cognitive(s: Seq<JsonData>, j: int)
    requires
        0 <= j < s.len(),
        cognitive_of(s[j]) is Some,
        forall|i: int| 0 <= i < s.len() && i != j ==> cognitive_of(#[trigger] s[i]) is None,
    ensures
        fold_reports(s).cognitive == Some(basic_step(basic_zero(), cognitive_of(s[j]).unwrap())),
        fold_reports(s).cognitive.unwrap().count == 1,
{
    lemma_fold_extract(s, j);
    let t = s.remove(j);
    assert forall|i: int| 0 <= i < t.len() implies cognitive_of(#[trigger] t[i]) is None by {
        if i < j {
            assert(t[i] == s[i]);
        } else {
            assert(t[i] == s[i + 1]);
        }
    }
    lemma_absent_categories(t);
}

/// A category supplied by exactly one report folds to one step over the
/// zero accumulator: its count is one and its fields carry exactly that
/// report's values.
pub proof fn lemma_single_contributor_cyclomatic(s: Seq<JsonData>, j: int)
    requires
        0 <= j < s.len(),
        cyclomatic_of(s[j]) is Some,
        forall|i: int| 0 <= i < s.len() && i != j ==> cyclomatic_of(#[trigger] s[i]) is None,
    ensures
        fold_reports(s).cyclomatic == Some(basic_step(basic_zero(), cyclomatic_of(s[j]).unwrap())),
        fold_reports(s).cyclomatic.unwrap().count == 1,
{
    lemma_fold_extract(s, j);
    let t = s.remove(j);
    assert forall|i: int| 0 <= i < t.len() implies cyclomatic_of(#[trigger] t[i]) is None by {
        if i < j {
            assert(t[i] == s[i]);
        } else {
            assert(t[i] == s[i + 1]);
        }
    }
    lemma_absent_categories(t);
}

/// A category supplied by exactly one report folds to one step over the
/// zero accumulator: its count is one and its fields carry exactly that
/// report's values.
pub proof fn lemma_single_contributor_halstead(s: Seq<JsonData>, j: int)
    requires
        0 <= j < s.len(),
        halstead_of(s[j]) is Some,
        forall|i: int| 0 <= i < s.len() && i != j ==> halstead_of(#[trigger] s[i]) is None,
    ensures
        fold_reports(s).halstead == Some(hal_step(hal_zero(), halstead_of(s[j]).unwrap())),
        fold_reports(s).halstead.unwrap().count == 1,
{
    lemma_fold_extract(s, j);
    let t = s.remove(j);
    assert forall|i: int| 0 <= i < t.len() implies halstead_of(#[trigger] t[i]) is None by {
        if i < j {
            assert(t[i] == s[i]);
        } else {
            assert(t[i] == s[i + 1]);
        }
    }
    lemma_absent_categories(t);
}

/// A category supplied by exactly one report folds to one step over the
/// zero accumulator: its count is one and its fields carry exactly that
/// report's values.
pub proof fn lemma_single_contributor_loc(s: Seq<JsonData>, j: int)
    requires
        0 <= j < s.len(),
        loc_of(s[j]) is Some,
        forall|i: int| 0 <= i < s.len() && i != j ==> loc_of(#[trigger] s[i]) is None,
    ensures
        fold_reports(s).loc == Some(loc_step(loc_zero(), loc_of(s[j]).unwrap())),
        fold_reports(s).loc.unwrap().count == 1,
{
    lemma_fold_extract(s, j);
    let t = s.remove(j);
    assert forall|i: int| 0 <= i < t.len() implies loc_of(#[trigger] t[i]) is None by {
        if i < j {
            assert(t[i] == s[i]);
        } else {
            assert(t[i] == s[i + 1]);
        }
    }
    lemma_absent_categories(t);
}

/// A category supplied by exactly one report folds to one step over the
/// zero accumulator: its count is one and its fields carry exactly that
/// report's values.
pub proof fn lemma_single_contributor_nom(s: Seq<JsonData>, j: int)
    requires
        0 <= j < s.len(),
        nom_of(s[j]) is Some,
        forall|i: int| 0 <= i < s.len() && i != j ==> nom_of(#[trigger] s[i]) is None,
    ensures
        fold_reports(s).nom == Some(nom_step(nom_zero(), nom_of(s[j]).unwrap())),
        fold_reports(s).nom.unwrap().count == 1,
{
    lemma_fold_extract(s, j);
    let t = s.remove(j);
    assert forall|i: int| 0 <= i < t.len() implies nom_of(#[trigger] t[i]) is None by {
        if i < j {
            assert(t[i] == s[i]);
        } else {
            assert(t[i] == s[i + 1]);
        }
    }
    lemma_absent_categories(t);
}

/// A category supplied by exactly one report folds to one step over the
/// zero accumulator: its count is one and its fields carry exactly that
/// report's values.
pub proof fn lemma_single_contributor_mi(s: Seq<JsonData>, j: int)
    requires
        0 <= j < s.len(),
        mi_of(s[j]) is Some,
        forall|i: int| 0 <= i < s.len() && i != j ==> mi_of(#[trigger] s[i]) is None,
    ensures
        fold_reports(s).mi == Some(mi_step(mi_zero(), mi_of(s[j]).unwrap())),
        fold_reports(s).mi.unwrap().count == 1,
{
    lemma_fold_extract(s, j);
    let t = s.remove(j);
    assert forall|i: int| 0 <= i < t.len() implies mi_of(#[trigger] t[i]) is None by {
        if i < j {
            assert(t[i] == s[i]);
        } else {
            assert(t[i] == s[i + 1]);
        }
    }
    lemma_absent_categories(t);
}

/// A category supplied by exactly one report folds to one step over the
/// zero accumulator: its count is one and its fields carry exactly that
/// report's values.
pub proof fn lemma_single_contributor_abc(s: Seq<JsonData>, j: int)
    requires
        0 <= j < s.len(),
        abc_of(s[j]) is Some,
        forall|i: int| 0 <= i < s.len() && i != j ==> abc_of(#[trigger] s[i]) is None,
    ensures
        fold_reports(s).abc == Some(abc_step(abc_zero(), abc_of(s[j]).unwrap())),
        fold_reports(s).abc.unwrap().count == 1,
{
    lemma_fold_extract(s, j);
    let t = s.remove(j);
    assert forall|i: int| 0 <= i < t.len() implies abc_of(#[trigger] t[i]) is None by {
        if i < j {
            assert(t[i] == s[i]);
        } else {
            assert(t[i] == s[i + 1]);
        }
    }
    lemma_absent_categories(t);
}


// ---------------------------------------------------------------------
// Mean equivalence.
//
// A mean field of an accumulator holds the sum of the contributing
// reports' per-file means, and the displayed mean is its quotient by
// `count`; so after folding reports that all supply the field the mean
// equals the sum of the per-file values divided by their number.
// ---------------------------------------------------------------------

/// Sum, over the reports supplying the category, of one per-file mean.
pub open spec fn nargs_average_functions_total(s: Seq<JsonData>) -> int
    decreases s.len(),
{
    if s.len() == 0 {
        0
    } else {
        nargs_average_functions_total(s.drop_last()) + (match nargs_of(s.last()) {
            Some(v) => val0(v.average_functions),
            None => 0,
        })
    }
}

/// Sum, over the reports supplying the category, of one per-file mean.
pub open spec fn nargs_average_closures_total(s: Seq<JsonData>) -> int
    decreases s.len(),
{
    if s.len() == 0 {
        0
    } else {
        nargs_average_closures_total(s.drop_last()) + (match nargs_of(s.last()) {
            Some(v) => val0(v.average_closures),
            None => 0,
        })
    }
}

/// Sum, over the reports supplying the category, of one per-file mean.
pub open spec fn nargs_average_total(s: Seq<JsonData>) -> int
    decreases s.len(),
{
    if s.len() == 0 {
        0
    } else {
        nargs_average_total(s.drop_last()) + (match nargs_of(s.last()) {
            Some(v) => val0(v.average),
            None => 0,
        })
    }
}

/// Sum, over the reports supplying the category, of one per-file mean.
pub open spec fn nexits_average_total(s: Seq<JsonData>) -> int
    decreases s.len(),
{
    if s.len() == 0 {
        0
    } else {
        nexits_average_total(s.drop_last()) + (match nexits_of(s.last()) {
            Some(v) => val0(v.average),
            None => 0,
        })
    }
}

/// Sum, over the reports supplying the category, of one per-file mean.
pub open spec fn cognitive_average_total(s: Seq<JsonData>) -> int
    decreases s.len(),
{
    if s.len() == 0 {
        0
    } else {
        cognitive_average_total(s.drop_last()) + (match cognitive_of(s.last()) {
            Some(v) => val0(v.average),
            None => 0,
        })
    }
}

/// Sum, over the reports supplying the category, of one per-file mean.
pub open spec fn cyclomatic_average_total(s: Seq<JsonData>) -> int
    decreases s.len(),
{
    if s.len() == 0 {
        0
    } else {
        cyclomatic_average_total(s.drop_last()) + (match cyclomatic_of(s.last()) {
            Some(v) => val0(v.average),
            None => 0,
        })
    }
}

/// Sum, over the reports supplying the category, of one per-file mean.
pub open spec fn loc_sloc_average_total(s: Seq<JsonData>) -> int
    decreases s.len(),
{
    if s.len() == 0 {
        0
    } else {
        loc_sloc_average_total(s.drop_last()) + (match loc_of(s.last()) {
            Some(v) => val0(v.sloc_average),
            None => 0,
        })
    }
}

/// Sum, over the reports supplying the category, of one per-file mean.
pub open spec fn loc_ploc_average_total(s: Seq<JsonData>) -> int
    decreases s.len(),
{
    if s.len() == 0 {
        0
    } else {
        loc_ploc_average_total(s.drop_last()) + (match loc_of(s.last()) {
            Some(v) => val0(v.ploc_average),
            None => 0,
        })
    }
}

/// Sum, over the reports supplying the category, of one per-file mean.
pub open spec fn loc_lloc_average_total(s: Seq<JsonData>) -> int
    decreases s.len(),
{
    if s.len() == 0 {
        0
    } else {
        loc_lloc_average_total(s.drop_last()) + (match loc_of(s.last()) {
            Some(v) => val0(v.lloc_average),
            None => 0,
        })
    }
}

/// Sum, over the reports supplying the category, of one per-file mean.
pub open spec fn loc_cloc_average_total(s: Seq<JsonData>) -> int
    decreases s.len(),
{
    if s.len() == 0 {
        0
    } else {
        loc_cloc_average_total(s.drop_last()) + (match loc_of(s.last()) {
            Some(v) => val0(v.cloc_average),
            None => 0,
        })
    }
}

/// Sum, over the reports supplying the category, of one per-file mean.
pub open spec fn loc_blank_average_total(s: Seq<JsonData>) -> int
    decreases s.len(),
{
    if s.len() == 0 {
        0
    } else {
        loc_blank_average_total(s.drop_last()) + (match loc_of(s.last()) {
            Some(v) => val0(v.blank_average),
            None => 0,
        })
    }
}

/// Mean equivalence for the argument-count category.
pub proof fn lemma_mean_equivalence_nargs(s: Seq<JsonData>)
    ensures
        fold_reports(s).nargs matches Some(c) ==> {
            &&& c.average_functions == nargs_average_functions_total(s)
            &&& c.average_closures == nargs_average_closures_total(s)
            &&& c.average == nargs_average_total(s)
        },
        fold_reports(s).nargs is None ==> {
            &&& nargs_average_functions_total(s) == 0
            &&& nargs_average_closures_total(s) == 0
            &&& nargs_average_total(s) == 0
        },
    decreases s.len(),
{
    if s.len() > 0 {
        lemma_mean_equivalence_nargs(s.drop_last());
    }
}

/// Mean equivalence for the exit-count, cognitive and cyclomatic
/// categories.
pub proof fn lemma_mean_equivalence_basic(s: Seq<JsonData>)
    ensures
        fold_reports(s).nexits matches Some(c) ==> c.average == nexits_average_total(s),
        fold_reports(s).nexits is None ==> nexits_average_total(s) == 0,
        fold_reports(s).cognitive matches Some(c) ==> c.average == cognitive_average_total(s),
        fold_reports(s).cognitive is None ==> cognitive_average_total(s) == 0,
        fold_reports(s).cyclomatic matches Some(c) ==> c.average == cyclomatic_average_total(s),
        fold_reports(s).cyclomatic is None ==> cyclomatic_average_total(s) == 0,
    decreases s.len(),
{
    if s.len() > 0 {
        lemma_mean_equivalence_basic(s.drop_last());
    }
}

/// Mean equivalence for the lines-of-code category.
pub proof fn lemma_mean_equivalence_loc(s: Seq<JsonData>)
    ensures
        fold_reports(s).loc matches Some(c) ==> {
            &&& c.sloc_average == loc_sloc_average_total(s)
            &&& c.ploc_average == loc_ploc_average_total(s)
            &&& c.lloc_average == loc_lloc_average_total(s)
            &&& c.cloc_average == loc_cloc_average_total(s)
            &&& c.blank_average == loc_blank_average_total(s)
        },
        fold_reports(s).loc is None ==> {
            &&& loc_sloc_average_total(s) == 0
            &&& loc_ploc_average_total(s) == 0
            &&& loc_lloc_average_total(s) == 0
            &&& loc_cloc_average_total(s) == 0
            &&& loc_blank_average_total(s) == 0
        },
    decreases s.len(),
{
    if s.len() > 0 {
        lemma_mean_equivalence_loc(s.drop_last());
    }
}


// ---------------------------------------------------------------------
// Extremum correctness.
//
// After the fold, a minimum field is a lower bound on every per-file
// minimum supplied for it and is attained by one of them (or is the
// identity `i64::MAX` when no report supplied the field); dually for a
// maximum field. Reports that omit the field leave it untouched.
// ---------------------------------------------------------------------

pub open spec fn nexits_min_of(r: JsonData) -> Option<i64> {
    match nexits_of(r) {
        Some(v) => v.min,
        None => None,
    }
}

pub open spec fn nexits_max_of(r: JsonData) -> Option<i64> {
    match nexits_of(r) {
        Some(v) => v.max,
        None => None,
    }
}

/// Extremum correctness for the exit-count category.
pub proof fn lemma_extremum_nexits(s: Seq<JsonData>)
    ensures
        fold_reports(s).nexits is None ==> forall|i: int|
            0 <= i < s.len() ==> nexits_of(#[trigger] s[i]) is None,
        fold_reports(s).nexits matches Some(c) ==> {
            &&& forall|i: int|
                0 <= i < s.len() ==> (nexits_min_of(#[trigger] s[i]) matches Some(x) ==> c.min
                    <= x as int)
            &&& forall|i: int|
                0 <= i < s.len() ==> (nexits_max_of(#[trigger] s[i]) matches Some(x) ==> c.max
                    >= x as int)
            &&& (exists|i: int|
                0 <= i < s.len() && (nexits_min_of(#[trigger] s[i]) matches Some(x) && x as int
                    == c.min)) || (c.min == i64::MAX as int && forall|i: int|
                0 <= i < s.len() ==> nexits_min_of(#[trigger] s[i]) is None)
            &&& (exists|i: int|
                0 <= i < s.len() && (nexits_max_of(#[trigger] s[i]) matches Some(x) && x as int
                    == c.max)) || (c.max == i64::MIN as int && forall|i: int|
                0 <= i < s.len() ==> nexits_max_of(#[trigger] s[i]) is None)
        },
    decreases s.len(),
{
    if s.len() > 0 {
        let t = s.drop_last();
        lemma_extremum_nexits(t);
        assert(forall|i: int| #![trigger t[i]] #![trigger s[i]] 0 <= i < t.len() ==> t[i] == s[i]);
        assert(s.last() == s[s.len() - 1]);
    }
}


pub open spec fn cognitive_min_of(r: JsonData) -> Option<i64> {
    match cognitive_of(r) {
        Some(v) => v.min,
        None => None,
    }
}

pub open spec fn cognitive_max_of(r: JsonData) -> Option<i64> {
    match cognitive_of(r) {
        Some(v) => v.max,
        None => None,
    }
}

/// Extremum correctness for the cognitive-complexity category.
pub proof fn lemma_extremum_cognitive(s: Seq<JsonData>)
    ensures
        fold_reports(s).cognitive is None ==> forall|i: int|
            0 <= i < s.len() ==> cognitive_of(#[trigger] s[i]) is None,
        fold_reports(s).cognitive matches Some(c) ==> {
            &&& forall|i: int|
                0 <= i < s.len() ==> (cognitive_min_of(#[trigger] s[i]) matches Some(x) ==> c.min
                    <= x as int)
            &&& (exists|i: int|
                0 <= i < s.len() && (cognitive_min_of(#[trigger] s[i]) matches Some(x) && x as int
                    == c.min)) || (c.min == i64::MAX as int && forall|i: int|
                0 <= i < s.len() ==> cognitive_min_of(#[trigger] s[i]) is None)
            &&& forall|i: int|
                0 <= i < s.len() ==> (cognitive_max_of(#[trigger] s[i]) matches Some(x) ==> c.max
                    >= x as int)
            &&& (exists|i: int|
                0 <= i < s.len() && (cognitive_max_of(#[trigger] s[i]) matches Some(x) && x as int
                    == c.max)) || (c.max == i64::MIN as int && forall|i: int|
                0 <= i < s.len() ==> cognitive_max_of(#[trigger] s[i]) is None)
        },
    decreases s.len(),
{
    if s.len() > 0 {
        let t = s.drop_last();
        lemma_extremum_cognitive(t);
        assert(forall|i: int| #![trigger t[i]] #![trigger s[i]] 0 <= i < t.len() ==> t[i] == s[i]);
        assert(s.last() == s[s.len() - 1]);
    }
}

pub open spec fn cyclomatic_min_of(r: JsonData) -> Option<i64> {
    match cyclomatic_of(r) {
        Some(v) => v.min,
        None => None,
    }
}

pub open spec fn cyclomatic_max_of(r: JsonData) -> Option<i64> {
    match cyclomatic_of(r) {
        Some(v) => v.max,
        None => None,
    }
}

/// Extremum correctness for the cyclomatic-complexity category.
pub proof fn lemma_extremum_cyclomatic(s: Seq<JsonData>)
    ensures
        fold_reports(s).cyclomatic is None ==> forall|i: int|
            0 <= i < s.len() ==> cyclomatic_of(#[trigger] s[i]) is None,
        fold_reports(s).cyclomatic matches Some(c) ==> {
            &&& forall|i: int|
                0 <= i < s.len() ==> (cyclomatic_min_of(#[trigger] s[i]) matches Some(x) ==> c.min
                    <= x as int)
            &&& (exists|i: int|
                0 <= i < s.len() && (cyclomatic_min_of(#[trigger] s[i]) matches Some(x) && x as int
                    == c.min)) || (c.min == i64::MAX as int && forall|i: int|
                0 <= i < s.len() ==> cyclomatic_min_of(#[trigger] s[i]) is None)
            &&& forall|i: int|
                0 <= i < s.len() ==> (cyclomatic_max_of(#[trigger] s[i]) matches Some(x) ==> c.max
                    >= x as int)
            &&& (exists|i: int|
                0 <= i < s.len() && (cyclomatic_max_of(#[trigger] s[i]) matches Some(x) && x as int
                    == c.max)) || (c.max == i64::MIN as int && forall|i: int|
                0 <= i < s.len() ==> cyclomatic_max_of(#[trigger] s[i]) is None)
        },
    decreases s.len(),
{
    if s.len() > 0 {
        let t = s.drop_last();
        lemma_extremum_cyclomatic(t);
        assert(forall|i: int| #![trigger t[i]] #![trigger s[i]] 0 <= i < t.len() ==> t[i] == s[i]);
        assert(s.last() == s[s.len() - 1]);
    }
}

pub open spec fn nargs_functions_min_of(r: JsonData) -> Option<i64> {
    match nargs_of(r) {
        Some(v) => v.functions_min,
        None => None,
    }
}

pub open spec fn nargs_functions_max_of(r: JsonData) -> Option<i64> {
    match nargs_of(r) {
        Some(v) => v.functions_max,
        None => None,
    }
}

pub open spec fn nargs_closures_min_of(r: JsonData) -> Option<i64> {
    match nargs_of(r) {
        Some(v) => v.closures_min,
        None => None,
    }
}

pub open spec fn nargs_closures_max_of(r: JsonData) -> Option<i64> {
    match nargs_of(r) {
        Some(v) => v.closures_max,
        None => None,
    }
}

/// Extremum correctness for the argument-count category.
#[verifier::rlimit(60)]
pub proof fn lemma_extremum_nargs(s: Seq<JsonData>)
    ensures
        fold_reports(s).nargs is None ==> forall|i: int|
            0 <= i < s.len() ==> nargs_of(#[trigger] s[i]) is None,
        fold_reports(s).nargs matches Some(c) ==> {
            &&& forall|i: int|
                0 <= i < s.len() ==> (nargs_functions_min_of(#[trigger] s[i]) matches Some(x) ==> c.functions_min
                    <= x as int)
            &&& (exists|i: int|
                0 <= i < s.len() && (nargs_functions_min_of(#[trigger] s[i]) matches Some(x) && x as int
                    == c.functions_min)) || (c.functions_min == i64::MAX as int && forall|i: int|
                0 <= i < s.len() ==> nargs_functions_min_of(#[trigger] s[i]) is None)
            &&& forall|i: int|
                0 <= i < s.len() ==> (nargs_closures_min_of(#[trigger] s[i]) matches Some(x) ==> c.closures_min
                    <= x as int)
            &&& (exists|i: int|
                0 <= i < s.len() && (nargs_closures_min_of(#[trigger] s[i]) matches Some(x) && x as int
                    == c.closures_min)) || (c.closures_min == i64::MAX as int && forall|i: int|
                0 <= i < s.len() ==> nargs_closures_min_of(#[trigger] s[i]) is None)
            &&& forall|i: int|
                0 <= i < s.len() ==> (nargs_functions_max_of(#[trigger] s[i]) matches Some(x) ==> c.functions_max
                    >= x as int)
            &&& (exists|i: int|
                0 <= i < s.len() && (nargs_functions_max_of(#[trigger] s[i]) matches Some(x) && x as int
                    == c.functions_max)) || (c.functions_max == i64::MIN as int && forall|i: int|
                0 <= i < s.len() ==> nargs_functions_max_of(#[trigger] s[i]) is None)
            &&& forall|i: int|
                0 <= i < s.len() ==> (nargs_closures_max_of(#[trigger] s[i]) matches Some(x) ==> c.closures_max
                    >= x as int)
            &&& (exists|i: int|
                0 <= i < s.len() && (nargs_closures_max_of(#[trigger] s[i]) matches Some(x) && x as int
                    == c.closures_max)) || (c.closures_max == i64::MIN as int && forall|i: int|
                0 <= i < s.len() ==> nargs_closures_max_of(#[trigger] s[i]) is None)
        },
    decreases s.len(),
{
    if s.len() > 0 {
        let t = s.drop_last();
        lemma_extremum_nargs(t);
        assert(forall|i: int| #![trigger t[i]] #![trigger s[i]] 0 <= i < t.len() ==> t[i] == s[i]);
        assert(s.last() == s[s.len() - 1]);
    }
}

pub open spec fn loc_sloc_min_of(r: JsonData) -> Option<i64> {
    match loc_of(r) {
        Some(v) => v.sloc_min,
        None => None,
    }
}

pub open spec fn loc_sloc_max_of(r: JsonData) -> Option<i64> {
    match loc_of(r) {
        Some(v) => v.sloc_max,
        None => None,
    }
}

pub open spec fn loc_cloc_min_of(r: JsonData) -> Option<i64> {
    match loc_of(r) {
        Some(v) => v.cloc_min,
        None => None,
    }
}

pub open spec fn loc_cloc_max_of(r: JsonData) -> Option<i64> {
    match loc_of(r) {
        Some(v) => v.cloc_max,
        None => None,
    }
}

pub open spec fn loc_ploc_min_of(r: JsonData) -> Option<i64> {
    match loc_of(r) {
        Some(v) => v.ploc_min,
        None => None,
    }
}

pub open spec fn loc_ploc_max_of(r: JsonData) -> Option<i64> {
    match loc_of(r) {
        Some(v) => v.ploc_max,
        None => None,
    }
}

pub open spec fn loc_lloc_min_of(r: JsonData) -> Option<i64> {
    match loc_of(r) {
        Some(v) => v.lloc_min,
        None => None,
    }
}

pub open spec fn loc_lloc_max_of(r: JsonData) -> Option<i64> {
    match loc_of(r) {
        Some(v) => v.lloc_max,
        None => None,
    }
}

pub open spec fn loc_blank_min_of(r: JsonData) -> Option<i64> {
    match loc_of(r) {
        Some(v) => v.blank_min,
        None => None,
    }
}

pub open spec fn loc_blank_max_of(r: JsonData) -> Option<i64> {
    match loc_of(r) {
        Some(v) => v.blank_max,
        None => None,
    }
}

/// Extremum correctness for the lines-of-code category.
#[verifier::rlimit(100)]
pub proof fn lemma_extremum_loc(s: Seq<JsonData>)
    ensures
        fold_reports(s).loc is None ==> forall|i: int|
            0 <= i < s.len() ==> loc_of(#[trigger] s[i]) is None,
        fold_reports(s).loc matches Some(c) ==> {
            &&& forall|i: int|
                0 <= i < s.len() ==> (loc_sloc_min_of(#[trigger] s[i]) matches Some(x) ==> c.sloc_min
                    <= x as int)
            &&& (exists|i: int|
                0 <= i < s.len() && (loc_sloc_min_of(#[trigger] s[i]) matches Some(x) && x as int
                    == c.sloc_min)) || (c.sloc_min == i64::MAX as int && forall|i: int|
                0 <= i < s.len() ==> loc_sloc_min_of(#[trigger] s[i]) is None)
            &&& forall|i: int|
                0 <= i < s.len() ==> (loc_cloc_min_of(#[trigger] s[i]) matches Some(x) ==> c.cloc_min
                    <= x as int)
            &&& (exists|i: int|
                0 <= i < s.len() && (loc_cloc_min_of(#[trigger] s[i]) matches Some(x) && x as int
                    == c.cloc_min)) || (c.cloc_min == i64::MAX as int && forall|i: int|
                0 <= i < s.len() ==> loc_cloc_min_of(#[trigger] s[i]) is None)
            &&& forall|i: int|
                0 <= i < s.len() ==> (loc_ploc_min_of(#[trigger] s[i]) matches Some(x) ==> c.ploc_min
                    <= x as int)
            &&& (exists|i: int|
                0 <= i < s.len() && (loc_ploc_min_of(#[trigger] s[i]) matches Some(x) && x as int
                    == c.ploc_min)) || (c.ploc_min == i64::MAX as int && forall|i: int|
                0 <= i < s.len() ==> loc_ploc_min_of(#[trigger] s[i]) is None)
            &&& forall|i: int|
                0 <= i < s.len() ==> (loc_lloc_min_of(#[trigger] s[i]) matches Some(x) ==> c.lloc_min
                    <= x as int)
            &&& (exists|i: int|
                0 <= i < s.len() && (loc_lloc_min_of(#[trigger] s[i]) matches Some(x) && x as int
                    == c.lloc_min)) || (c.lloc_min == i64::MAX as int && forall|i: int|
                0 <= i < s.len() ==> loc_lloc_min_of(#[trigger] s[i]) is None)
            &&& forall|i: int|
                0 <= i < s.len() ==> (loc_blank_min_of(#[trigger] s[i]) matches Some(x) ==> c.blank_min
                    <= x as int)
            &&& (exists|i: int|
                0 <= i < s.len() && (loc_blank_min_of(#[trigger] s[i]) matches Some(x) && x as int
                    == c.blank_min)) || (c.blank_min == i64::MAX as int && forall|i: int|
                0 <= i < s.len() ==> loc_blank_min_of(#[trigger] s[i]) is None)
            &&& forall|i: int|
                0 <= i < s.len() ==> (loc_sloc_max_of(#[trigger] s[i]) matches Some(x) ==> c.sloc_max
                    >= x as int)
            &&& (exists|i: int|
                0 <= i < s.len() && (loc_sloc_max_of(#[trigger] s[i]) matches Some(x) && x as int
                    == c.sloc_max)) || (c.sloc_max == i64::MIN as int && forall|i: int|
                0 <= i < s.len() ==> loc_sloc_max_of(#[trigger] s[i]) is None)
            &&& forall|i: int|
                0 <= i < s.len() ==> (loc_cloc_max_of(#[trigger] s[i]) matches Some(x) ==> c.cloc_max
                    >= x as int)
            &&& (exists|i: int|
                0 <= i < s.len() && (loc_cloc_max_of(#[trigger] s[i]) matches Some(x) && x as int
                    == c.cloc_max)) || (c.cloc_max == i64::MIN as int && forall|i: int|
                0 <= i < s.len() ==> loc_cloc_max_of(#[trigger] s[i]) is None)
            &&& forall|i: int|
                0 <= i < s.len() ==> (loc_ploc_max_of(#[trigger] s[i]) matches Some(x) ==> c.ploc_max
                    >= x as int)
            &&& (exists|i: int|
                0 <= i < s.len() && (loc_ploc_max_of(#[trigger] s[i]) matches Some(x) && x as int
                    == c.ploc_max)) || (c.ploc_max == i64::MIN as int && forall|i: int|
                0 <= i < s.len() ==> loc_ploc_max_of(#[trigger] s[i]) is None)
            &&& forall|i: int|
                0 <= i < s.len() ==> (loc_lloc_max_of(#[trigger] s[i]) matches Some(x) ==> c.lloc_max
                    >= x as int)
            &&& (exists|i: int|
                0 <= i < s.len() && (loc_lloc_max_of(#[trigger] s[i]) matches Some(x) && x as int
                    == c.lloc_max)) || (c.lloc_max == i64::MIN as int && forall|i: int|
                0 <= i < s.len() ==> loc_lloc_max_of(#[trigger] s[i]) is None)
            &&& forall|i: int|
                0 <= i < s.len() ==> (loc_blank_max_of(#[trigger] s[i]) matches Some(x) ==> c.blank_max
                    >= x as int)
            &&& (exists|i: int|
                0 <= i < s.len() && (loc_blank_max_of(#[trigger] s[i]) matches Some(x) && x as int
                    == c.blank_max)) || (c.blank_max == i64::MIN as int && forall|i: int|
                0 <= i < s.len() ==> loc_blank_max_of(#[trigger] s[i]) is None)
        },
    decreases s.len(),
{
    if s.len() > 0 {
        let t = s.drop_last();
        lemma_extremum_loc(t);
        assert(forall|i: int| #![trigger t[i]] #![trigger s[i]] 0 <= i < t.len() ==> t[i] == s[i]);
        assert(s.last() == s[s.len() - 1]);
    }
}

} // verus!
