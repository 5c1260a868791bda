//! Mathematical model of the fold.
//!
//! Each summary type has a ghost counterpart whose fields are unbounded
//! integers, a `zero` accumulator, a `step` that folds one report's
//! category value in, and a `merge` that handles the two optional sides:
//! an absent incoming value leaves the accumulator untouched, an absent
//! accumulator is initialized from `zero` before the step. The executable
//! code in [`crate::analysis`] is proved equal to these functions.
//!
//! Additive and mean fields accumulate sums (a mean field keeps the sum of
//! the per-file means; the quotient by `count` is taken on read), so the
//! fold is a sum over a multiset and therefore order independent. Extremum
//! fields start from the identity of their operation — `i64::MAX` for a
//! minimum, `i64::MIN` for a maximum — never from zero, so a true minimum
//! of zero is preserved.

use vstd::prelude::*;

use crate::metrics::{Abc, BasicMetric, Halstead, JsonData, Loc, Metrics, MetricValues, Mi, Nom,
    Npa, Npm, Wmc};
use crate::{MAX_REPORTS, METRIC_BOUND};

verus! {

/// A missing numeric field contributes zero to a sum.
pub open spec fn val0(v: Option<i64>) -> int {
    match v {
        Some(x) => x as int,
        None => 0,
    }
}

/// A missing per-file minimum is no constraint on the running minimum.
pub open spec fn vmin(v: Option<i64>) -> int {
    match v {
        Some(x) => x as int,
        None => i64::MAX as int,
    }
}

/// A missing per-file maximum is no constraint on the running maximum.
pub open spec fn vmax(v: Option<i64>) -> int {
    match v {
        Some(x) => x as int,
        None => i64::MIN as int,
    }
}

pub open spec fn imin(a: int, b: int) -> int {
    if a <= b {
        a
    } else {
        b
    }
}

pub open spec fn imax(a: int, b: int) -> int {
    if a >= b {
        a
    } else {
        b
    }
}

/// One summed contribution stays within the per-report bound.
pub open spec fn in_bound(v: Option<i64>) -> bool {
    -(METRIC_BOUND as int) <= val0(v) <= METRIC_BOUND as int
}

/// A running sum of `count` contributions stays within `count` bounds.
pub open spec fn within(v: int, count: nat) -> bool {
    -(count * (METRIC_BOUND as int)) <= v <= count * (METRIC_BOUND as int)
}

// ---------------------------------------------------------------------
// Argument counts.
// ---------------------------------------------------------------------

pub struct MetricValuesModel {
    pub total_functions: int,
    pub total_closures: int,
    pub average_functions: int,
    pub average_closures: int,
    pub total: int,
    pub average: int,
    pub functions_min: int,
    pub functions_max: int,
    pub closures_min: int,
    pub closures_max: int,
    pub count: nat,
}

pub open spec fn mv_zero() -> MetricValuesModel {
    MetricValuesModel {
        total_functions: 0,
        total_closures: 0,
        average_functions: 0,
        average_closures: 0,
        total: 0,
        average: 0,
        functions_min: i64::MAX as int,
        functions_max: i64::MIN as int,
        closures_min: i64::MAX as int,
        closures_max: i64::MIN as int,
        count: 0,
    }
}

pub open spec fn mv_step(a: MetricValuesModel, m: MetricValues) -> MetricValuesModel {
    MetricValuesModel {
        total_functions: a.total_functions + val0(m.total_functions),
        total_closures: a.total_closures + val0(m.total_closures),
        average_functions: a.average_functions + val0(m.average_functions),
        average_closures: a.average_closures + val0(m.average_closures),
        total: a.total + val0(m.total),
        average: a.average + val0(m.average),
        functions_min: imin(a.functions_min, vmin(m.functions_min)),
        functions_max: imax(a.functions_max, vmax(m.functions_max)),
        closures_min: imin(a.closures_min, vmin(m.closures_min)),
        closures_max: imax(a.closures_max, vmax(m.closures_max)),
        count: a.count + 1,
    }
}

pub open spec fn mv_or_zero(a: Option<MetricValuesModel>) -> MetricValuesModel {
    match a {
        Some(c) => c,
        None => mv_zero(),
    }
}

pub open spec fn mv_merge(a: Option<MetricValuesModel>, m: Option<MetricValues>) -> Option<
    MetricValuesModel,
> {
    match m {
        None => a,
        Some(v) => Some(mv_step(mv_or_zero(a), v)),
    }
}

pub open spec fn mv_bounded(m: MetricValues) -> bool {
    &&& in_bound(m.total_functions)
    &&& in_bound(m.total_closures)
    &&& in_bound(m.average_functions)
    &&& in_bound(m.average_closures)
    &&& in_bound(m.total)
    &&& in_bound(m.average)
}

pub open spec fn mv_acc_bounded(a: Option<MetricValuesModel>, n: nat) -> bool {
    match a {
        None => true,
        Some(c) => {
            &&& c.count <= n
            &&& within(c.total_functions, c.count)
            &&& within(c.total_closures, c.count)
            &&& within(c.average_functions, c.count)
            &&& within(c.average_closures, c.count)
            &&& within(c.total, c.count)
            &&& within(c.average, c.count)
        },
    }
}

/// All sums of the step fit in `i64` and the count fits in `usize`.
pub open spec fn mv_fits(a: Option<MetricValuesModel>, m: Option<MetricValues>) -> bool {
    match m {
        None => true,
        Some(v) => {
            let b = mv_or_zero(a);
            &&& i64::MIN as int <= b.total_functions + val0(v.total_functions) <= i64::MAX as int
            &&& i64::MIN as int <= b.total_closures + val0(v.total_closures) <= i64::MAX as int
            &&& i64::MIN as int <= b.average_functions + val0(v.average_functions)
                <= i64::MAX as int
            &&& i64::MIN as int <= b.average_closures + val0(v.average_closures) <= i64::MAX as int
            &&& i64::MIN as int <= b.total + val0(v.total) <= i64::MAX as int
            &&& i64::MIN as int <= b.average + val0(v.average) <= i64::MAX as int
            &&& b.count + 1 <= usize::MAX as int
        },
    }
}

// ---------------------------------------------------------------------
// Exit counts, cognitive and cyclomatic complexity.
// ---------------------------------------------------------------------

pub struct BasicModel {
    pub sum: int,
    pub average: int,
    pub min: int,
    pub max: int,
    pub count: nat,
}

pub open spec fn basic_zero() -> BasicModel {
    BasicModel {
        sum: 0,
        average: 0,
        min: i64::MAX as int,
        max: i64::MIN as int,
        count: 0,
    }
}

pub open spec fn basic_step(a: BasicModel, m: BasicMetric) -> BasicModel {
    BasicModel {
        sum: a.sum + val0(m.sum),
        average: a.average + val0(m.average),
        min: imin(a.min, vmin(m.min)),
        max: imax(a.max, vmax(m.max)),
        count: a.count + 1,
    }
}

pub open spec fn basic_or_zero(a: Option<BasicModel>) -> BasicModel {
    match a {
        Some(c) => c,
        None => basic_zero(),
    }
}

pub open spec fn basic_merge(a: Option<BasicModel>, m: Option<BasicMetric>) -> Option<BasicModel> {
    match m {
        None => a,
        Some(v) => Some(basic_step(basic_or_zero(a), v)),
    }
}

pub open spec fn basic_bounded(m: BasicMetric) -> bool {
    &&& in_bound(m.sum)
    &&& in_bound(m.average)
}

pub open spec fn basic_acc_bounded(a: Option<BasicModel>, n: nat) -> bool {
    match a {
        None => true,
        Some(c) => {
            &&& c.count <= n
            &&& within(c.sum, c.count)
            &&& within(c.average, c.count)
        },
    }
}

pub open spec fn basic_fits(a: Option<BasicModel>, m: Option<BasicMetric>) -> bool {
    match m {
        None => true,
        Some(v) => {
            let b = basic_or_zero(a);
            &&& i64::MIN as int <= b.sum + val0(v.sum) <= i64::MAX as int
            &&& i64::MIN as int <= b.average + val0(v.average) <= i64::MAX as int
            &&& b.count + 1 <= usize::MAX as int
        },
    }
}

// ---------------------------------------------------------------------
// Halstead.
// ---------------------------------------------------------------------

pub struct HalsteadModel {
    pub n1: int,
    pub n2: int,
    pub volume: int,
    pub purity_ratio: int,
    pub bugs: int,
    pub difficulty: int,
    pub estimated_program_length: int,
    pub vocabulary: int,
    pub level: int,
    pub count: nat,
}

pub open spec fn hal_zero() -> HalsteadModel {
    HalsteadModel {
        n1: 0,
        n2: 0,
        volume: 0,
        purity_ratio: 0,
        bugs: 0,
        difficulty: 0,
        estimated_program_length: 0,
        vocabulary: 0,
        level: 0,
        count: 0,
    }
}

pub open spec fn hal_step(a: HalsteadModel, m: Halstead) -> HalsteadModel {
    HalsteadModel {
        n1: a.n1 + val0(m.n1),
        n2: a.n2 + val0(m.n2),
        volume: a.volume + val0(m.volume),
        purity_ratio: a.purity_ratio + val0(m.purity_ratio),
        bugs: a.bugs + val0(m.bugs),
        difficulty: a.difficulty + val0(m.difficulty),
        estimated_program_length: a.estimated_program_length + val0(m.estimated_program_length),
        vocabulary: a.vocabulary + val0(m.vocabulary),
        level: a.level + val0(m.level),
        count: a.count + 1,
    }
}

pub open spec fn hal_or_zero(a: Option<HalsteadModel>) -> HalsteadModel {
    match a {
        Some(c) => c,
        None => hal_zero(),
    }
}

pub open spec fn hal_merge(a: Option<HalsteadModel>, m: Option<Halstead>) -> Option<
    HalsteadModel,
> {
    match m {
        None => a,
        Some(v) => Some(hal_step(hal_or_zero(a), v)),
    }
}

pub open spec fn hal_bounded(m: Halstead) -> bool {
    &&& in_bound(m.n1)
    &&& in_bound(m.n2)
    &&& in_bound(m.volume)
    &&& in_bound(m.purity_ratio)
    &&& in_bound(m.bugs)
    &&& in_bound(m.difficulty)
    &&& in_bound(m.estimated_program_length)
    &&& in_bound(m.vocabulary)
    &&& in_bound(m.level)
}

pub open spec fn hal_acc_bounded(a: Option<HalsteadModel>, n: nat) -> bool {
    match a {
        None => true,
        Some(c) => {
            &&& c.count <= n
            &&& within(c.n1, c.count)
            &&& within(c.n2, c.count)
            &&& within(c.volume, c.count)
            &&& within(c.purity_ratio, c.count)
            &&& within(c.bugs, c.count)
            &&& within(c.difficulty, c.count)
            &&& within(c.estimated_program_length, c.count)
            &&& within(c.vocabulary, c.count)
            &&& within(c.level, c.count)
        },
    }
}

pub open spec fn hal_fits(a: Option<HalsteadModel>, m: Option<Halstead>) -> bool {
    match m {
        None => true,
        Some(v) => {
            let b = hal_or_zero(a);
            &&& i64::MIN as int <= b.n1 + val0(v.n1) <= i64::MAX as int
            &&& i64::MIN as int <= b.n2 + val0(v.n2) <= i64::MAX as int
            &&& i64::MIN as int <= b.volume + val0(v.volume) <= i64::MAX as int
            &&& i64::MIN as int <= b.purity_ratio + val0(v.purity_ratio) <= i64::MAX as int
            &&& i64::MIN as int <= b.bugs + val0(v.bugs) <= i64::MAX as int
            &&& i64::MIN as int <= b.difficulty + val0(v.difficulty) <= i64::MAX as int
            &&& i64::MIN as int <= b.estimated_program_length + val0(v.estimated_program_length)
                <= i64::MAX as int
            &&& i64::MIN as int <= b.vocabulary + val0(v.vocabulary) <= i64::MAX as int
            &&& i64::MIN as int <= b.level + val0(v.level) <= i64::MAX as int
            &&& b.count + 1 <= usize::MAX as int
        },
    }
}

// ---------------------------------------------------------------------
// Lines of code.
// ---------------------------------------------------------------------

pub struct LocModel {
    pub sloc: int,
    pub ploc: int,
    pub lloc: int,
    pub cloc: int,
    pub blank: int,
    pub sloc_average: int,
    pub ploc_average: int,
    pub lloc_average: int,
    pub cloc_average: int,
    pub blank_average: int,
    pub sloc_min: int,
    pub sloc_max: int,
    pub cloc_min: int,
    pub cloc_max: int,
    pub ploc_min: int,
    pub ploc_max: int,
    pub lloc_min: int,
    pub lloc_max: int,
    pub blank_min: int,
    pub blank_max: int,
    pub count: nat,
}

pub open spec fn loc_zero() -> LocModel {
    LocModel {
        sloc: 0,
        ploc: 0,
        lloc: 0,
        cloc: 0,
        blank: 0,
        sloc_average: 0,
        ploc_average: 0,
        lloc_average: 0,
        cloc_average: 0,
        blank_average: 0,
        sloc_min: i64::MAX as int,
        sloc_max: i64::MIN as int,
        cloc_min: i64::MAX as int,
        cloc_max: i64::MIN as int,
        ploc_min: i64::MAX as int,
        ploc_max: i64::MIN as int,
        lloc_min: i64::MAX as int,
        lloc_max: i64::MIN as int,
        blank_min: i64::MAX as int,
        blank_max: i64::MIN as int,
        count: 0,
    }
}

pub open spec fn loc_step(a: LocModel, m: Loc) -> LocModel {
    LocModel {
        sloc: a.sloc + val0(m.sloc),
        ploc: a.ploc + val0(m.ploc),
        lloc: a.lloc + val0(m.lloc),
        cloc: a.cloc + val0(m.cloc),
        blank: a.blank + val0(m.blank),
        sloc_average: a.sloc_average + val0(m.sloc_average),
        ploc_average: a.ploc_average + val0(m.ploc_average),
        lloc_average: a.lloc_average + val0(m.lloc_average),
        cloc_average: a.cloc_average + val0(m.cloc_average),
        blank_average: a.blank_average + val0(m.blank_average),
        sloc_min: imin(a.sloc_min, vmin(m.sloc_min)),
        sloc_max: imax(a.sloc_max, vmax(m.sloc_max)),
        cloc_min: imin(a.cloc_min, vmin(m.cloc_min)),
        cloc_max: imax(a.cloc_max, vmax(m.cloc_max)),
        ploc_min: imin(a.ploc_min, vmin(m.ploc_min)),
        ploc_max: imax(a.ploc_max, vmax(m.ploc_max)),
        lloc_min: imin(a.lloc_min, vmin(m.lloc_min)),
        lloc_max: imax(a.lloc_max, vmax(m.lloc_max)),
        blank_min: imin(a.blank_min, vmin(m.blank_min)),
        blank_max: imax(a.blank_max, vmax(m.blank_max)),
        count: a.count + 1,
    }
}

pub open spec fn loc_or_zero(a: Option<LocModel>) -> LocModel {
    match a {
        Some(c) => c,
        None => loc_zero(),
    }
}

pub open spec fn loc_merge(a: Option<LocModel>, m: Option<Loc>) -> Option<LocModel> {
    match m {
        None => a,
        Some(v) => Some(loc_step(loc_or_zero(a), v)),
    }
}

pub open spec fn loc_bounded(m: Loc) -> bool {
    &&& in_bound(m.sloc)
    &&& in_bound(m.ploc)
    &&& in_bound(m.lloc)
    &&& in_bound(m.cloc)
    &&& in_bound(m.blank)
    &&& in_bound(m.sloc_average)
    &&& in_bound(m.ploc_average)
    &&& in_bound(m.lloc_average)
    &&& in_bound(m.cloc_average)
    &&& in_bound(m.blank_average)
}

pub open spec fn loc_acc_bounded(a: Option<LocModel>, n: nat) -> bool {
    match a {
        None => true,
        Some(c) => {
            &&& c.count <= n
            &&& within(c.sloc, c.count)
            &&& within(c.ploc, c.count)
            &&& within(c.lloc, c.count)
            &&& within(c.cloc, c.count)
            &&& within(c.blank, c.count)
            &&& within(c.sloc_average, c.count)
            &&& within(c.ploc_average, c.count)
            &&& within(c.lloc_average, c.count)
            &&& within(c.cloc_average, c.count)
            &&& within(c.blank_average, c.count)
        },
    }
}

pub open spec fn loc_fits(a: Option<LocModel>, m: Option<Loc>) -> bool {
    match m {
        None => true,
        Some(v) => {
            let b = loc_or_zero(a);
            &&& i64::MIN as int <= b.sloc + val0(v.sloc) <= i64::MAX as int
            &&& i64::MIN as int <= b.ploc + val0(v.ploc) <= i64::MAX as int
            &&& i64::MIN as int <= b.lloc + val0(v.lloc) <= i64::MAX as int
            &&& i64::MIN as int <= b.cloc + val0(v.cloc) <= i64::MAX as int
            &&& i64::MIN as int <= b.blank + val0(v.blank) <= i64::MAX as int
            &&& i64::MIN as int <= b.sloc_average + val0(v.sloc_average) <= i64::MAX as int
            &&& i64::MIN as int <= b.ploc_average + val0(v.ploc_average) <= i64::MAX as int
            &&& i64::MIN as int <= b.lloc_average + val0(v.lloc_average) <= i64::MAX as int
            &&& i64::MIN as int <= b.cloc_average + val0(v.cloc_average) <= i64::MAX as int
            &&& i64::MIN as int <= b.blank_average + val0(v.blank_average) <= i64::MAX as int
            &&& b.count + 1 <= usize::MAX as int
        },
    }
}

// ---------------------------------------------------------------------
// Method counts.
// ---------------------------------------------------------------------

pub struct NomModel {
    pub functions: int,
    pub closures: int,
    pub total: int,
    pub count: nat,
}

pub open spec fn nom_zero() -> NomModel {
    NomModel { functions: 0, closures: 0, total: 0, count: 0 }
}

pub open spec fn nom_step(a: NomModel, m: Nom) -> NomModel {
    NomModel {
        functions: a.functions + val0(m.functions),
        closures: a.closures + val0(m.closures),
        total: a.total + val0(m.total),
        count: a.count + 1,
    }
}

pub open spec fn nom_or_zero(a: Option<NomModel>) -> NomModel {
    match a {
        Some(c) => c,
        None => nom_zero(),
    }
}

pub open spec fn nom_merge(a: Option<NomModel>, m: Option<Nom>) -> Option<NomModel> {
    match m {
        None => a,
        Some(v) => Some(nom_step(nom_or_zero(a), v)),
    }
}

pub open spec fn nom_bounded(m: Nom) -> bool {
    &&& in_bound(m.functions)
    &&& in_bound(m.closures)
    &&& in_bound(m.total)
}

pub open spec fn nom_acc_bounded(a: Option<NomModel>, n: nat) -> bool {
    match a {
        None => true,
        Some(c) => {
            &&& c.count <= n
            &&& within(c.functions, c.count)
            &&& within(c.closures, c.count)
            &&& within(c.total, c.count)
        },
    }
}

pub open spec fn nom_fits(a: Option<NomModel>, m: Option<Nom>) -> bool {
    match m {
        None => true,
        Some(v) => {
            let b = nom_or_zero(a);
            &&& i64::MIN as int <= b.functions + val0(v.functions) <= i64::MAX as int
            &&& i64::MIN as int <= b.closures + val0(v.closures) <= i64::MAX as int
            &&& i64::MIN as int <= b.total + val0(v.total) <= i64::MAX as int
            &&& b.count + 1 <= usize::MAX as int
        },
    }
}

// ---------------------------------------------------------------------
// Maintainability index.
// ---------------------------------------------------------------------

pub struct MiModel {
    pub mi_original: int,
    pub mi_sei: int,
    pub mi_visual_studio: int,
    pub count: nat,
}

pub open spec fn mi_zero() -> MiModel {
    MiModel { mi_original: 0, mi_sei: 0, mi_visual_studio: 0, count: 0 }
}

pub open spec fn mi_step(a: MiModel, m: Mi) -> MiModel {
    MiModel {
        mi_original: a.mi_original + val0(m.mi_original),
        mi_sei: a.mi_sei + val0(m.mi_sei),
        mi_visual_studio: a.mi_visual_studio + val0(m.mi_visual_studio),
        count: a.count + 1,
    }
}

pub open spec fn mi_or_zero(a: Option<MiModel>) -> MiModel {
    match a {
        Some(c) => c,
        None => mi_zero(),
    }
}

pub open spec fn mi_merge(a: Option<MiModel>, m: Option<Mi>) -> Option<MiModel> {
    match m {
        None => a,
        Some(v) => Some(mi_step(mi_or_zero(a), v)),
    }
}

pub open spec fn mi_bounded(m: Mi) -> bool {
    &&& in_bound(m.mi_original)
    &&& in_bound(m.mi_sei)
    &&& in_bound(m.mi_visual_studio)
}

pub open spec fn mi_acc_bounded(a: Option<MiModel>, n: nat) -> bool {
    match a {
        None => true,
        Some(c) => {
            &&& c.count <= n
            &&& within(c.mi_original, c.count)
            &&& within(c.mi_sei, c.count)
            &&& within(c.mi_visual_studio, c.count)
        },
    }
}

pub open spec fn mi_fits(a: Option<MiModel>, m: Option<Mi>) -> bool {
    match m {
        None => true,
        Some(v) => {
            let b = mi_or_zero(a);
            &&& i64::MIN as int <= b.mi_original + val0(v.mi_original) <= i64::MAX as int
            &&& i64::MIN as int <= b.mi_sei + val0(v.mi_sei) <= i64::MAX as int
            &&& i64::MIN as int <= b.mi_visual_studio + val0(v.mi_visual_studio)
                <= i64::MAX as int
            &&& b.count + 1 <= usize::MAX as int
        },
    }
}

// ---------------------------------------------------------------------
// ABC complexity.
// ---------------------------------------------------------------------

pub struct AbcModel {
    pub assignments: int,
    pub branches: int,
    pub conditions: int,
    pub count: nat,
}

pub open spec fn abc_zero() -> AbcModel {
    AbcModel { assignments: 0, branches: 0, conditions: 0, count: 0 }
}

pub open spec fn abc_step(a: AbcModel, m: Abc) -> AbcModel {
    AbcModel {
        assignments: a.assignments + val0(m.assignments),
        branches: a.branches + val0(m.branches),
        conditions: a.conditions + val0(m.conditions),
        count: a.count + 1,
    }
}

pub open spec fn abc_or_zero(a: Option<AbcModel>) -> AbcModel {
    match a {
        Some(c) => c,
        None => abc_zero(),
    }
}

pub open spec fn abc_merge(a: Option<AbcModel>, m: Option<Abc>) -> Option<AbcModel> {
    match m {
        None => a,
        Some(v) => Some(abc_step(abc_or_zero(a), v)),
    }
}

pub open spec fn abc_bounded(m: Abc) -> bool {
    &&& in_bound(m.assignments)
    &&& in_bound(m.branches)
    &&& in_bound(m.conditions)
}

pub open spec fn abc_acc_bounded(a: Option<AbcModel>, n: nat) -> bool {
    match a {
        None => true,
        Some(c) => {
            &&& c.count <= n
            &&& within(c.assignments, c.count)
            &&& within(c.branches, c.count)
            &&& within(c.conditions, c.count)
        },
    }
}

pub open spec fn abc_fits(a: Option<AbcModel>, m: Option<Abc>) -> bool {
    match m {
        None => true,
        Some(v) => {
            let b = abc_or_zero(a);
            &&& i64::MIN as int <= b.assignments + val0(v.assignments) <= i64::MAX as int
            &&& i64::MIN as int <= b.branches + val0(v.branches) <= i64::MAX as int
            &&& i64::MIN as int <= b.conditions + val0(v.conditions) <= i64::MAX as int
            &&& b.count + 1 <= usize::MAX as int
        },
    }
}

// ---------------------------------------------------------------------
// Weighted methods per class.
// ---------------------------------------------------------------------

pub struct WmcModel {
    pub classes: int,
    pub interfaces: int,
    pub total: int,
    pub count: nat,
}

pub open spec fn wmc_zero() -> WmcModel {
    WmcModel { classes: 0, interfaces: 0, total: 0, count: 0 }
}

pub open spec fn wmc_step(a: WmcModel, m: Wmc) -> WmcModel {
    WmcModel {
        classes: a.classes + val0(m.classes),
        interfaces: a.interfaces + val0(m.interfaces),
        total: a.total + val0(m.total),
        count: a.count + 1,
    }
}

pub open spec fn wmc_or_zero(a: Option<WmcModel>) -> WmcModel {
    match a {
        Some(c) => c,
        None => wmc_zero(),
    }
}

pub open spec fn wmc_merge(a: Option<WmcModel>, m: Option<Wmc>) -> Option<WmcModel> {
    match m {
        None => a,
        Some(v) => Some(wmc_step(wmc_or_zero(a), v)),
    }
}

pub open spec fn wmc_fits(a: Option<WmcModel>, m: Option<Wmc>) -> bool {
    match m {
        None => true,
        Some(v) => {
            let b = wmc_or_zero(a);
            &&& i64::MIN as int <= b.classes + val0(v.classes) <= i64::MAX as int
            &&& i64::MIN as int <= b.interfaces + val0(v.interfaces) <= i64::MAX as int
            &&& i64::MIN as int <= b.total + val0(v.total) <= i64::MAX as int
            &&& b.count + 1 <= usize::MAX as int
        },
    }
}

// ---------------------------------------------------------------------
// Public methods per class.
// ---------------------------------------------------------------------

pub struct NpmModel {
    pub classes: int,
    pub interfaces: int,
    pub class_methods: int,
    pub total: int,
    pub count: nat,
}

pub open spec fn npm_zero() -> NpmModel {
    NpmModel { classes: 0, interfaces: 0, class_methods: 0, total: 0, count: 0 }
}

pub open spec fn npm_step(a: NpmModel, m: Npm) -> NpmModel {
    NpmModel {
        classes: a.classes + val0(m.classes),
        interfaces: a.interfaces + val0(m.interfaces),
        class_methods: a.class_methods + val0(m.class_methods),
        total: a.total + val0(m.total),
        count: a.count + 1,
    }
}

pub open spec fn npm_or_zero(a: Option<NpmModel>) -> NpmModel {
    match a {
        Some(c) => c,
        None => npm_zero(),
    }
}

pub open spec fn npm_merge(a: Option<NpmModel>, m: Option<Npm>) -> Option<NpmModel> {
    match m {
        None => a,
        Some(v) => Some(npm_step(npm_or_zero(a), v)),
    }
}

pub open spec fn npm_fits(a: Option<NpmModel>, m: Option<Npm>) -> bool {
    match m {
        None => true,
        Some(v) => {
            let b = npm_or_zero(a);
            &&& i64::MIN as int <= b.classes + val0(v.classes) <= i64::MAX as int
            &&& i64::MIN as int <= b.interfaces + val0(v.interfaces) <= i64::MAX as int
            &&& i64::MIN as int <= b.class_methods + val0(v.class_methods) <= i64::MAX as int
            &&& i64::MIN as int <= b.total + val0(v.total) <= i64::MAX as int
            &&& b.count + 1 <= usize::MAX as int
        },
    }
}

// ---------------------------------------------------------------------
// Public attributes per class.
// ---------------------------------------------------------------------

pub struct NpaModel {
    pub classes: int,
    pub interfaces: int,
    pub total: int,
    pub count: nat,
}

pub open spec fn npa_zero() -> NpaModel {
    NpaModel { classes: 0, interfaces: 0, total: 0, count: 0 }
}

pub open spec fn npa_step(a: NpaModel, m: Npa) -> NpaModel {
    NpaModel {
        classes: a.classes + val0(m.classes),
        interfaces: a.interfaces + val0(m.interfaces),
        total: a.total + val0(m.total),
        count: a.count + 1,
    }
}

pub open spec fn npa_or_zero(a: Option<NpaModel>) -> NpaModel {
    match a {
        Some(c) => c,
        None => npa_zero(),
    }
}

pub open spec fn npa_merge(a: Option<NpaModel>, m: Option<Npa>) -> Option<NpaModel> {
    match m {
        None => a,
        Some(v) => Some(npa_step(npa_or_zero(a), v)),
    }
}

pub open spec fn npa_fits(a: Option<NpaModel>, m: Option<Npa>) -> bool {
    match m {
        None => true,
        Some(v) => {
            let b = npa_or_zero(a);
            &&& i64::MIN as int <= b.classes + val0(v.classes) <= i64::MAX as int
            &&& i64::MIN as int <= b.interfaces + val0(v.interfaces) <= i64::MAX as int
            &&& i64::MIN as int <= b.total + val0(v.total) <= i64::MAX as int
            &&& b.count + 1 <= usize::MAX as int
        },
    }
}

// ---------------------------------------------------------------------
// The whole summary.
// ---------------------------------------------------------------------

/// Model of the nine-category summary: one optional accumulator each.
pub struct SummaryModel {
    pub nargs: Option<MetricValuesModel>,
    pub nexits: Option<BasicModel>,
    pub cognitive: Option<BasicModel>,
    pub cyclomatic: Option<BasicModel>,
    pub halstead: Option<HalsteadModel>,
    pub loc: Option<LocModel>,
    pub nom: Option<NomModel>,
    pub mi: Option<MiModel>,
    pub abc: Option<AbcModel>,
}

/// The terminal state of an analysis with no contributing reports: every
/// category absent.
pub open spec fn empty_summary() -> SummaryModel {
    SummaryModel {
        nargs: None,
        nexits: None,
        cognitive: None,
        cyclomatic: None,
        halstead: None,
        loc: None,
        nom: None,
        mi: None,
        abc: None,
    }
}

/// Fold one metric record into the summary: each category merged
/// independently.
pub open spec fn metrics_step(a: SummaryModel, m: Metrics) -> SummaryModel {
    SummaryModel {
        nargs: mv_merge(a.nargs, m.nargs),
        nexits: basic_merge(a.nexits, m.nexits),
        cognitive: basic_merge(a.cognitive, m.cognitive),
        cyclomatic: basic_merge(a.cyclomatic, m.cyclomatic),
        halstead: hal_merge(a.halstead, m.halstead),
        loc: loc_merge(a.loc, m.loc),
        nom: nom_merge(a.nom, m.nom),
        mi: mi_merge(a.mi, m.mi),
        abc: abc_merge(a.abc, m.abc),
    }
}

/// Fold one report: a report without a metric record changes nothing.
pub open spec fn report_step(a: SummaryModel, r: JsonData) -> SummaryModel {
    match r.metrics {
        None => a,
        Some(m) => metrics_step(a, m),
    }
}

/// The left fold of a whole report sequence.
pub open spec fn fold_reports(s: Seq<JsonData>) -> SummaryModel
    decreases s.len(),
{
    if s.len() == 0 {
        empty_summary()
    } else {
        report_step(fold_reports(s.drop_last()), s.last())
    }
}

/// Every summed field of every category of the record stays within the
/// per-report bound.
pub open spec fn metrics_bounded(m: Metrics) -> bool {
    &&& (m.nargs matches Some(v) ==> mv_bounded(v))
    &&& (m.nexits matches Some(v) ==> basic_bounded(v))
    &&& (m.cognitive matches Some(v) ==> basic_bounded(v))
    &&& (m.cyclomatic matches Some(v) ==> basic_bounded(v))
    &&& (m.halstead matches Some(v) ==> hal_bounded(v))
    &&& (m.loc matches Some(v) ==> loc_bounded(v))
    &&& (m.nom matches Some(v) ==> nom_bounded(v))
    &&& (m.mi matches Some(v) ==> mi_bounded(v))
    &&& (m.abc matches Some(v) ==> abc_bounded(v))
}

pub open spec fn report_bounded(r: JsonData) -> bool {
    r.metrics matches Some(m) ==> metrics_bounded(m)
}

pub open spec fn reports_bounded(s: Seq<JsonData>) -> bool {
    forall|i: int| 0 <= i < s.len() ==> report_bounded(#[trigger] s[i])
}

/// Every accumulator of the summary was fed by at most `n` reports and its
/// sums are within `n` per-report bounds.
pub open spec fn summary_bounded(a: SummaryModel, n: nat) -> bool {
    &&& mv_acc_bounded(a.nargs, n)
    &&& basic_acc_bounded(a.nexits, n)
    &&& basic_acc_bounded(a.cognitive, n)
    &&& basic_acc_bounded(a.cyclomatic, n)
    &&& hal_acc_bounded(a.halstead, n)
    &&& loc_acc_bounded(a.loc, n)
    &&& nom_acc_bounded(a.nom, n)
    &&& mi_acc_bounded(a.mi, n)
    &&& abc_acc_bounded(a.abc, n)
}

/// A bounded summary below the report cap admits one more bounded record
/// without any sum leaving `i64` or the count leaving `usize`.
pub proof fn lemma_bounded_fits(a: SummaryModel, m: Metrics, n: nat)
    requires
        summary_bounded(a, n),
        metrics_bounded(m),
        n < MAX_REPORTS as nat,
    ensures
        mv_fits(a.nargs, m.nargs),
        basic_fits(a.nexits, m.nexits),
        basic_fits(a.cognitive, m.cognitive),
        basic_fits(a.cyclomatic, m.cyclomatic),
        hal_fits(a.halstead, m.halstead),
        loc_fits(a.loc, m.loc),
        nom_fits(a.nom, m.nom),
        mi_fits(a.mi, m.mi),
        abc_fits(a.abc, m.abc),
{
}

/// Folding one bounded record into a summary bounded for `n` reports gives
/// a summary bounded for `n + 1`.
pub proof fn lemma_step_bounded(a: SummaryModel, m: Metrics, n: nat)
    requires
        summary_bounded(a, n),
        metrics_bounded(m),
    ensures
        summary_bounded(metrics_step(a, m), n + 1),
{
}

/// A summary bounded for `n` reports is bounded for any larger count.
pub proof fn lemma_bounded_widen(a: SummaryModel, n: nat, k: nat)
    requires
        summary_bounded(a, n),
        n <= k,
    ensures
        summary_bounded(a, k),
{
}

} // verus!
