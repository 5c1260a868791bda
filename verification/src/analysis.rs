//! The aggregation engine: per-category accumulators and the fold that
//! combines any number of reports into one summary.
//!
//! Each `merge` takes the current accumulator (absent until the first
//! contributing report) and one report's optional category value, and is
//! proved equal to the corresponding model function in [`crate::model`].

use vstd::prelude::*;

use crate::metrics::{Abc, BasicMetric, Halstead, JsonData, Loc, Metrics, MetricValues, Mi, Nom,
    Npa, Npm, Wmc};
use crate::model::{abc_fits, abc_merge, abc_zero, basic_fits, basic_merge, basic_zero,
    empty_summary, fold_reports, hal_fits, hal_merge, hal_zero, imax, imin, lemma_bounded_fits,
    lemma_bounded_widen, lemma_step_bounded, loc_fits, loc_merge, loc_zero,
    metrics_step, mi_fits, mi_merge, mi_zero, mv_fits, mv_merge, mv_zero, nom_fits, nom_merge,
    nom_zero, npa_fits, npa_merge, npa_zero, npm_fits, npm_merge, npm_zero, report_bounded,
    report_step, reports_bounded, summary_bounded, val0, vmax, vmin, wmc_fits, wmc_merge, wmc_zero,
    AbcModel, BasicModel, HalsteadModel, LocModel, MetricValuesModel, MiModel, NomModel, NpaModel,
    NpmModel, SummaryModel, WmcModel};
use crate::MAX_REPORTS;

verus! {

/// View of an optional accumulator.
pub open spec fn opt_view<T: View>(c: Option<T>) -> Option<T::V> {
    match c {
        Some(x) => Some(x@),
        None => None,
    }
}

/// Add one optional contribution to a running sum; a missing value adds
/// zero.
fn add_opt(acc: i64, v: &Option<i64>) -> (r: i64)
    requires
        i64::MIN as int <= acc + val0(*v) <= i64::MAX as int,
    ensures
        r == acc + val0(*v),
{
    match v {
        Some(x) => acc + *x,
        None => acc,
    }
}

/// Lower a running minimum by one optional contribution; a missing value
/// is no constraint.
fn min_opt(acc: i64, v: &Option<i64>) -> (r: i64)
    ensures
        r == imin(acc as int, vmin(*v)),
{
    match v {
        Some(x) => if *x <= acc {
            *x
        } else {
            acc
        },
        None => acc,
    }
}

/// Raise a running maximum by one optional contribution; a missing value
/// is no constraint.
fn max_opt(acc: i64, v: &Option<i64>) -> (r: i64)
    ensures
        r == imax(acc as int, vmax(*v)),
{
    match v {
        Some(x) => if *x >= acc {
            *x
        } else {
            acc
        },
        None => acc,
    }
}

/// As [`add_opt`], over an optional running sum (absent counts as zero).
fn add_opt2(acc: Option<i64>, v: &Option<i64>) -> (r: i64)
    requires
        i64::MIN as int <= val0(acc) + val0(*v) <= i64::MAX as int,
    ensures
        r == val0(acc) + val0(*v),
{
    match acc {
        Some(a) => add_opt(a, v),
        None => add_opt(0, v),
    }
}

/// As [`min_opt`], over an optional running minimum (absent is the
/// identity `i64::MAX`).
fn min_opt2(acc: Option<i64>, v: &Option<i64>) -> (r: i64)
    ensures
        r == imin(vmin(acc), vmin(*v)),
{
    match acc {
        Some(a) => min_opt(a, v),
        None => min_opt(i64::MAX, v),
    }
}

/// As [`max_opt`], over an optional running maximum (absent is the
/// identity `i64::MIN`).
fn max_opt2(acc: Option<i64>, v: &Option<i64>) -> (r: i64)
    ensures
        r == imax(vmax(acc), vmax(*v)),
{
    match acc {
        Some(a) => max_opt(a, v),
        None => max_opt(i64::MIN, v),
    }
}

/// Accumulator for the argument-count category. Mean fields hold the sum
/// of the per-file means; the quotient by `count` is taken on read.
#[derive(Debug, Clone, Copy, PartialEq)]
pub struct MetricValuesSummary {
    pub total_functions: Option<i64>,
    pub total_closures: Option<i64>,
    pub average_functions: Option<i64>,
    pub average_closures: Option<i64>,
    pub total: Option<i64>,
    pub average: Option<i64>,
    pub functions_min: Option<i64>,
    pub functions_max: Option<i64>,
    pub closures_min: Option<i64>,
    pub closures_max: Option<i64>,
    pub count: usize,
}

impl View for MetricValuesSummary {
    type V = MetricValuesModel;

    open spec fn view(&self) -> MetricValuesModel {
        MetricValuesModel {
            total_functions: val0(self.total_functions),
            total_closures: val0(self.total_closures),
            average_functions: val0(self.average_functions),
            average_closures: val0(self.average_closures),
            total: val0(self.total),
            average: val0(self.average),
            functions_min: vmin(self.functions_min),
            functions_max: vmax(self.functions_max),
            closures_min: vmin(self.closures_min),
            closures_max: vmax(self.closures_max),
            count: self.count as nat,
        }
    }
}

impl MetricValuesSummary {
    /// The accumulator before any report contributed.
    pub fn new() -> (r: MetricValuesSummary)
        ensures
            r@ == mv_zero(),
            r.count == 0,
    {
        MetricValuesSummary {
            total_functions: None,
            total_closures: None,
            average_functions: None,
            average_closures: None,
            total: None,
            average: None,
            functions_min: None,
            functions_max: None,
            closures_min: None,
            closures_max: None,
            count: 0,
        }
    }

    /// Fold one report's argument counts into the running summary.
    pub fn merge(current: Option<MetricValuesSummary>, metric: &Option<MetricValues>) -> (r:
        Option<MetricValuesSummary>)
        requires
            mv_fits(opt_view(current), *metric),
        ensures
            opt_view(r) == mv_merge(opt_view(current), *metric),
    {
        match metric {
            None => current,
            Some(m) => {
                let b = match current {
                    Some(c) => c,
                    None => MetricValuesSummary::new(),
                };
                Some(
                    MetricValuesSummary {
                        total_functions: Some(add_opt2(b.total_functions, &m.total_functions)),
                        total_closures: Some(add_opt2(b.total_closures, &m.total_closures)),
                        average_functions: Some(
                            add_opt2(b.average_functions, &m.average_functions),
                        ),
                        average_closures: Some(add_opt2(b.average_closures, &m.average_closures)),
                        total: Some(add_opt2(b.total, &m.total)),
                        average: Some(add_opt2(b.average, &m.average)),
                        functions_min: Some(min_opt2(b.functions_min, &m.functions_min)),
                        functions_max: Some(max_opt2(b.functions_max, &m.functions_max)),
                        closures_min: Some(min_opt2(b.closures_min, &m.closures_min)),
                        closures_max: Some(max_opt2(b.closures_max, &m.closures_max)),
                        count: b.count + 1,
                    },
                )
            },
        }
    }
}

/// Accumulator shared by the exit-count, cognitive- and
/// cyclomatic-complexity categories. `average` holds the sum of the
/// per-file means.
#[derive(Debug, Clone, Copy, PartialEq)]
pub struct BasicSummary {
    pub sum: i64,
    pub average: i64,
    pub min: i64,
    pub max: i64,
    pub count: usize,
}

impl View for BasicSummary {
    type V = BasicModel;

    open spec fn view(&self) -> BasicModel {
        BasicModel {
            sum: self.sum as int,
            average: self.average as int,
            min: self.min as int,
            max: self.max as int,
            count: self.count as nat,
        }
    }
}

impl BasicSummary {
    /// The accumulator before any report contributed: zero sums and the
    /// extremum identities, so a true minimum of zero survives the fold.
    pub fn new() -> (r: BasicSummary)
        ensures
            r@ == basic_zero(),
            r.count == 0,
    {
        BasicSummary { sum: 0, average: 0, min: i64::MAX, max: i64::MIN, count: 0 }
    }

    /// Fold one report's value of a basic category into the running
    /// summary.
    pub fn merge(current: Option<BasicSummary>, metric: &Option<BasicMetric>) -> (r: Option<
        BasicSummary,
    >)
        requires
            basic_fits(opt_view(current), *metric),
        ensures
            opt_view(r) == basic_merge(opt_view(current), *metric),
    {
        match metric {
            None => current,
            Some(m) => {
                let b = match current {
                    Some(c) => c,
                    None => BasicSummary::new(),
                };
                Some(
                    BasicSummary {
                        sum: add_opt(b.sum, &m.sum),
                        average: add_opt(b.average, &m.average),
                        min: min_opt(b.min, &m.min),
                        max: max_opt(b.max, &m.max),
                        count: b.count + 1,
                    },
                )
            },
        }
    }
}

/// Accumulator for the Halstead category: every tracked measure summed.
#[derive(Debug, Clone, Copy, PartialEq)]
pub struct HalsteadSummary {
    pub n1: i64,
    pub n2: i64,
    pub volume: i64,
    pub purity_ratio: i64,
    pub bugs: i64,
    pub difficulty: i64,
    pub estimated_program_length: i64,
    pub vocabulary: i64,
    pub level: i64,
    pub count: usize,
}

impl View for HalsteadSummary {
    type V = HalsteadModel;

    open spec fn view(&self) -> HalsteadModel {
        HalsteadModel {
            n1: self.n1 as int,
            n2: self.n2 as int,
            volume: self.volume as int,
            purity_ratio: self.purity_ratio as int,
            bugs: self.bugs as int,
            difficulty: self.difficulty as int,
            estimated_program_length: self.estimated_program_length as int,
            vocabulary: self.vocabulary as int,
            level: self.level as int,
            count: self.count as nat,
        }
    }
}

impl HalsteadSummary {
    /// The accumulator before any report contributed.
    pub fn new() -> (r: HalsteadSummary)
        ensures
            r@ == hal_zero(),
            r.count == 0,
    {
        HalsteadSummary {
            n1: 0,
            n2: 0,
            volume: 0,
            purity_ratio: 0,
            bugs: 0,
            difficulty: 0,
            estimated_program_length: 0,
            vocabulary: 0,
            level: 0,
            count: 0,
        }
    }

    /// Fold one report's Halstead measures into the running summary.
    pub fn merge(current: Option<HalsteadSummary>, metric: &Option<Halstead>) -> (r: Option<
        HalsteadSummary,
    >)
        requires
            hal_fits(opt_view(current), *metric),
        ensures
            opt_view(r) == hal_merge(opt_view(current), *metric),
    {
        match metric {
            None => current,
            Some(m) => {
                let b = match current {
                    Some(c) => c,
                    None => HalsteadSummary::new(),
                };
                Some(
                    HalsteadSummary {
                        n1: add_opt(b.n1, &m.n1),
                        n2: add_opt(b.n2, &m.n2),
                        volume: add_opt(b.volume, &m.volume),
                        purity_ratio: add_opt(b.purity_ratio, &m.purity_ratio),
                        bugs: add_opt(b.bugs, &m.bugs),
                        difficulty: add_opt(b.difficulty, &m.difficulty),
                        estimated_program_length: add_opt(
                            b.estimated_program_length,
                            &m.estimated_program_length,
                        ),
                        vocabulary: add_opt(b.vocabulary, &m.vocabulary),
                        level: add_opt(b.level, &m.level),
                        count: b.count + 1,
                    },
                )
            },
        }
    }
}

/// Accumulator for the lines-of-code category: line kinds summed, mean
/// fields as sums of per-file means, extremum fields from their
/// identities.
#[derive(Debug, Clone, Copy, PartialEq)]
pub struct LocSummary {
    pub sloc: i64,
    pub ploc: i64,
    pub lloc: i64,
    pub cloc: i64,
    pub blank: i64,
    pub sloc_average: i64,
    pub ploc_average: i64,
    pub lloc_average: i64,
    pub cloc_average: i64,
    pub blank_average: i64,
    pub sloc_min: i64,
    pub sloc_max: i64,
    pub cloc_min: i64,
    pub cloc_max: i64,
    pub ploc_min: i64,
    pub ploc_max: i64,
    pub lloc_min: i64,
    pub lloc_max: i64,
    pub blank_min: i64,
    pub blank_max: i64,
    pub count: usize,
}

impl View for LocSummary {
    type V = LocModel;

    open spec fn view(&self) -> LocModel {
        LocModel {
            sloc: self.sloc as int,
            ploc: self.ploc as int,
            lloc: self.lloc as int,
            cloc: self.cloc as int,
            blank: self.blank as int,
            sloc_average: self.sloc_average as int,
            ploc_average: self.ploc_average as int,
            lloc_average: self.lloc_average as int,
            cloc_average: self.cloc_average as int,
            blank_average: self.blank_average as int,
            sloc_min: self.sloc_min as int,
            sloc_max: self.sloc_max as int,
            cloc_min: self.cloc_min as int,
            cloc_max: self.cloc_max as int,
            ploc_min: self.ploc_min as int,
            ploc_max: self.ploc_max as int,
            lloc_min: self.lloc_min as int,
            lloc_max: self.lloc_max as int,
            blank_min: self.blank_min as int,
            blank_max: self.blank_max as int,
            count: self.count as nat,
        }
    }
}

impl LocSummary {
    /// The accumulator before any report contributed.
    pub fn new() -> (r: LocSummary)
        ensures
            r@ == loc_zero(),
            r.count == 0,
    {
        LocSummary {
            sloc: 0,
            ploc: 0,
            lloc: 0,
            cloc: 0,
            blank: 0,
            sloc_average: 0,
            ploc_average: 0,
            lloc_average: 0,
            cloc_average: 0,
            blank_average: 0,
            sloc_min: i64::MAX,
            sloc_max: i64::MIN,
            cloc_min: i64::MAX,
            cloc_max: i64::MIN,
            ploc_min: i64::MAX,
            ploc_max: i64::MIN,
            lloc_min: i64::MAX,
            lloc_max: i64::MIN,
            blank_min: i64::MAX,
            blank_max: i64::MIN,
            count: 0,
        }
    }

    /// Fold one report's lines-of-code breakdown into the running
    /// summary.
    pub fn merge(current: Option<LocSummary>, metric: &Option<Loc>) -> (r: Option<LocSummary>)
        requires
            loc_fits(opt_view(current), *metric),
        ensures
            opt_view(r) == loc_merge(opt_view(current), *metric),
    {
        match metric {
            None => current,
            Some(m) => {
                let b = match current {
                    Some(c) => c,
                    None => LocSummary::new(),
                };
                Some(
                    LocSummary {
                        sloc: add_opt(b.sloc, &m.sloc),
                        ploc: add_opt(b.ploc, &m.ploc),
                        lloc: add_opt(b.lloc, &m.lloc),
                        cloc: add_opt(b.cloc, &m.cloc),
                        blank: add_opt(b.blank, &m.blank),
                        sloc_average: add_opt(b.sloc_average, &m.sloc_average),
                        ploc_average: add_opt(b.ploc_average, &m.ploc_average),
                        lloc_average: add_opt(b.lloc_average, &m.lloc_average),
                        cloc_average: add_opt(b.cloc_average, &m.cloc_average),
                        blank_average: add_opt(b.blank_average, &m.blank_average),
                        sloc_min: min_opt(b.sloc_min, &m.sloc_min),
                        sloc_max: max_opt(b.sloc_max, &m.sloc_max),
                        cloc_min: min_opt(b.cloc_min, &m.cloc_min),
                        cloc_max: max_opt(b.cloc_max, &m.cloc_max),
                        ploc_min: min_opt(b.ploc_min, &m.ploc_min),
                        ploc_max: max_opt(b.ploc_max, &m.ploc_max),
                        lloc_min: min_opt(b.lloc_min, &m.lloc_min),
                        lloc_max: max_opt(b.lloc_max, &m.lloc_max),
                        blank_min: min_opt(b.blank_min, &m.blank_min),
                        blank_max: max_opt(b.blank_max, &m.blank_max),
                        count: b.count + 1,
                    },
                )
            },
        }
    }
}

/// Accumulator for the method-count category.
#[derive(Debug, Clone, Copy, PartialEq)]
pub struct NomSummary {
    pub functions: i64,
    pub closures: i64,
    pub total: i64,
    pub count: usize,
}

impl View for NomSummary {
    type V = NomModel;

    open spec fn view(&self) -> NomModel {
        NomModel {
            functions: self.functions as int,
            closures: self.closures as int,
            total: self.total as int,
            count: self.count as nat,
        }
    }
}

impl NomSummary {
    /// The accumulator before any report contributed.
    pub fn new() -> (r: NomSummary)
        ensures
            r@ == nom_zero(),
            r.count == 0,
    {
        NomSummary { functions: 0, closures: 0, total: 0, count: 0 }
    }

    /// Fold one report's method counts into the running summary.
    pub fn merge(current: Option<NomSummary>, metric: &Option<Nom>) -> (r: Option<NomSummary>)
        requires
            nom_fits(opt_view(current), *metric),
        ensures
            opt_view(r) == nom_merge(opt_view(current), *metric),
    {
        match metric {
            None => current,
            Some(m) => {
                let b = match current {
                    Some(c) => c,
                    None => NomSummary::new(),
                };
                Some(
                    NomSummary {
                        functions: add_opt(b.functions, &m.functions),
                        closures: add_opt(b.closures, &m.closures),
                        total: add_opt(b.total, &m.total),
                        count: b.count + 1,
                    },
                )
            },
        }
    }
}

/// Accumulator for the maintainability-index category.
#[derive(Debug, Clone, Copy, PartialEq)]
pub struct MiSummary {
    pub mi_original: i64,
    pub mi_sei: i64,
    pub mi_visual_studio: i64,
    pub count: usize,
}

impl View for MiSummary {
    type V = MiModel;

    open spec fn view(&self) -> MiModel {
        MiModel {
            mi_original: self.mi_original as int,
            mi_sei: self.mi_sei as int,
            mi_visual_studio: self.mi_visual_studio as int,
            count: self.count as nat,
        }
    }
}

impl MiSummary {
    /// The accumulator before any report contributed.
    pub fn new() -> (r: MiSummary)
        ensures
            r@ == mi_zero(),
            r.count == 0,
    {
        MiSummary { mi_original: 0, mi_sei: 0, mi_visual_studio: 0, count: 0 }
    }

    /// Fold one report's maintainability indices into the running
    /// summary.
    pub fn merge(current: Option<MiSummary>, metric: &Option<Mi>) -> (r: Option<MiSummary>)
        requires
            mi_fits(opt_view(current), *metric),
        ensures
            opt_view(r) == mi_merge(opt_view(current), *metric),
    {
        match metric {
            None => current,
            Some(m) => {
                let b = match current {
                    Some(c) => c,
                    None => MiSummary::new(),
                };
                Some(
                    MiSummary {
                        mi_original: add_opt(b.mi_original, &m.mi_original),
                        mi_sei: add_opt(b.mi_sei, &m.mi_sei),
                        mi_visual_studio: add_opt(b.mi_visual_studio, &m.mi_visual_studio),
                        count: b.count + 1,
                    },
                )
            },
        }
    }
}

/// Accumulator for the ABC-complexity category.
#[derive(Debug, Clone, Copy, PartialEq)]
pub struct AbcSummary {
    pub assignments: i64,
    pub branches: i64,
    pub conditions: i64,
    pub count: usize,
}

impl View for AbcSummary {
    type V = AbcModel;

    open spec fn view(&self) -> AbcModel {
        AbcModel {
            assignments: self.assignments as int,
            branches: self.branches as int,
            conditions: self.conditions as int,
            count: self.count as nat,
        }
    }
}

impl AbcSummary {
    /// The accumulator before any report contributed.
    pub fn new() -> (r: AbcSummary)
        ensures
            r@ == abc_zero(),
            r.count == 0,
    {
        AbcSummary { assignments: 0, branches: 0, conditions: 0, count: 0 }
    }

    /// Fold one report's ABC components into the running summary.
    pub fn merge(current: Option<AbcSummary>, metric: &Option<Abc>) -> (r: Option<AbcSummary>)
        requires
            abc_fits(opt_view(current), *metric),
        ensures
            opt_view(r) == abc_merge(opt_view(current), *metric),
    {
        match metric {
            None => current,
            Some(m) => {
                let b = match current {
                    Some(c) => c,
                    None => AbcSummary::new(),
                };
                Some(
                    AbcSummary {
                        assignments: add_opt(b.assignments, &m.assignments),
                        branches: add_opt(b.branches, &m.branches),
                        conditions: add_opt(b.conditions, &m.conditions),
                        count: b.count + 1,
                    },
                )
            },
        }
    }
}

/// Accumulator for the weighted-methods-per-class category.
#[derive(Debug, Clone, Copy, PartialEq)]
pub struct WmcSummary {
    pub classes: i64,
    pub interfaces: i64,
    pub total: i64,
    pub count: usize,
}

impl View for WmcSummary {
    type V = WmcModel;

    open spec fn view(&self) -> WmcModel {
        WmcModel {
            classes: self.classes as int,
            interfaces: self.interfaces as int,
            total: self.total as int,
            count: self.count as nat,
        }
    }
}

impl WmcSummary {
    /// The accumulator before any report contributed.
    pub fn new() -> (r: WmcSummary)
        ensures
            r@ == wmc_zero(),
            r.count == 0,
    {
        WmcSummary { classes: 0, interfaces: 0, total: 0, count: 0 }
    }

    /// Fold one report's weighted method counts into the running summary.
    pub fn merge(current: Option<WmcSummary>, metric: &Option<Wmc>) -> (r: Option<WmcSummary>)
        requires
            wmc_fits(opt_view(current), *metric),
        ensures
            opt_view(r) == wmc_merge(opt_view(current), *metric),
    {
        match metric {
            None => current,
            Some(m) => {
                let b = match current {
                    Some(c) => c,
                    None => WmcSummary::new(),
                };
                Some(
                    WmcSummary {
                        classes: add_opt(b.classes, &m.classes),
                        interfaces: add_opt(b.interfaces, &m.interfaces),
                        total: add_opt(b.total, &m.total),
                        count: b.count + 1,
                    },
                )
            },
        }
    }
}

/// Accumulator for the public-methods-per-class category.
#[derive(Debug, Clone, Copy, PartialEq)]
pub struct NpmSummary {
    pub classes: i64,
    pub interfaces: i64,
    pub class_methods: i64,
    pub total: i64,
    pub count: usize,
}

impl View for NpmSummary {
    type V = NpmModel;

    open spec fn view(&self) -> NpmModel {
        NpmModel {
            classes: self.classes as int,
            interfaces: self.interfaces as int,
            class_methods: self.class_methods as int,
            total: self.total as int,
            count: self.count as nat,
        }
    }
}

impl NpmSummary {
    /// The accumulator before any report contributed.
    pub fn new() -> (r: NpmSummary)
        ensures
            r@ == npm_zero(),
            r.count == 0,
    {
        NpmSummary { classes: 0, interfaces: 0, class_methods: 0, total: 0, count: 0 }
    }

    /// Fold one report's public method counts into the running summary.
    pub fn merge(current: Option<NpmSummary>, metric: &Option<Npm>) -> (r: Option<NpmSummary>)
        requires
            npm_fits(opt_view(current), *metric),
        ensures
            opt_view(r) == npm_merge(opt_view(current), *metric),
    {
        match metric {
            None => current,
            Some(m) => {
                let b = match current {
                    Some(c) => c,
                    None => NpmSummary::new(),
                };
                Some(
                    NpmSummary {
                        classes: add_opt(b.classes, &m.classes),
                        interfaces: add_opt(b.interfaces, &m.interfaces),
                        class_methods: add_opt(b.class_methods, &m.class_methods),
                        total: add_opt(b.total, &m.total),
                        count: b.count + 1,
                    },
                )
            },
        }
    }
}

/// Accumulator for the public-attributes-per-class category.
#[derive(Debug, Clone, Copy, PartialEq)]
pub struct NpaSummary {
    pub classes: i64,
    pub interfaces: i64,
    pub total: i64,
    pub count: usize,
}

impl View for NpaSummary {
    type V = NpaModel;

    open spec fn view(&self) -> NpaModel {
        NpaModel {
            classes: self.classes as int,
            interfaces: self.interfaces as int,
            total: self.total as int,
            count: self.count as nat,
        }
    }
}

impl NpaSummary {
    /// The accumulator before any report contributed.
    pub fn new() -> (r: NpaSummary)
        ensures
            r@ == npa_zero(),
            r.count == 0,
    {
        NpaSummary { classes: 0, interfaces: 0, total: 0, count: 0 }
    }

    /// Fold one report's public attribute counts into the running
    /// summary.
    pub fn merge(current: Option<NpaSummary>, metric: &Option<Npa>) -> (r: Option<NpaSummary>)
        requires
            npa_fits(opt_view(current), *metric),
        ensures
            opt_view(r) == npa_merge(opt_view(current), *metric),
    {
        match metric {
            None => current,
            Some(m) => {
                let b = match current {
                    Some(c) => c,
                    None => NpaSummary::new(),
                };
                Some(
                    NpaSummary {
                        classes: add_opt(b.classes, &m.classes),
                        interfaces: add_opt(b.interfaces, &m.interfaces),
                        total: add_opt(b.total, &m.total),
                        count: b.count + 1,
                    },
                )
            },
        }
    }
}

/// The fold result: one accumulator per displayed category, absent until
/// the first report supplying that category is folded in.
#[derive(Debug, Clone, Copy, PartialEq)]
pub struct MetricsSummary {
    pub nargs: Option<MetricValuesSummary>,
    pub nexits: Option<BasicSummary>,
    pub cognitive: Option<BasicSummary>,
    pub cyclomatic: Option<BasicSummary>,
    pub halstead: Option<HalsteadSummary>,
    pub loc: Option<LocSummary>,
    pub nom: Option<NomSummary>,
    pub mi: Option<MiSummary>,
    pub abc: Option<AbcSummary>,
}

impl View for MetricsSummary {
    type V = SummaryModel;

    open spec fn view(&self) -> SummaryModel {
        SummaryModel {
            nargs: opt_view(self.nargs),
            nexits: opt_view(self.nexits),
            cognitive: opt_view(self.cognitive),
            cyclomatic: opt_view(self.cyclomatic),
            halstead: opt_view(self.halstead),
            loc: opt_view(self.loc),
            nom: opt_view(self.nom),
            mi: opt_view(self.mi),
            abc: opt_view(self.abc),
        }
    }
}

impl MetricsSummary {
    /// The summary at the start of an analysis run: every category
    /// absent.
    pub fn new() -> (r: MetricsSummary)
        ensures
            r@ == empty_summary(),
    {
        MetricsSummary {
            nargs: None,
            nexits: None,
            cognitive: None,
            cyclomatic: None,
            halstead: None,
            loc: None,
            nom: None,
            mi: None,
            abc: None,
        }
    }

    /// Fold the given reports, left to right, into one summary.
    ///
    /// Summarization cannot fail: an empty input or reports without
    /// metric records leave the affected categories absent.
    pub fn summarize(json_data: Vec<JsonData>) -> (r: MetricsSummary)
        requires
            reports_bounded(json_data@),
            json_data@.len() <= MAX_REPORTS as int,
        ensures
            r@ == fold_reports(json_data@),
    {
        let mut summary = MetricsSummary::new();
        let n = json_data.len();
        assert(json_data@.take(0) =~= Seq::<JsonData>::empty());
        for idx in 0..n
            invariant
                n == json_data@.len(),
                n <= MAX_REPORTS as int,
                reports_bounded(json_data@),
                summary@ == fold_reports(json_data@.take(idx as int)),
                summary_bounded(summary@, idx as nat),
        {
            let report = &json_data[idx];
            let ghost prev = summary@;
            proof {
                assert(report_bounded(json_data@[idx as int]));
            }
            match &report.metrics {
                None => {
                    proof {
                        lemma_bounded_widen(summary@, idx as nat, (idx + 1) as nat);
                    }
                },
                Some(m) => {
                    proof {
                        lemma_bounded_fits(summary@, *m, idx as nat);
                    }
                    summary.nargs = MetricValuesSummary::merge(summary.nargs, &m.nargs);
                    summary.nexits = BasicSummary::merge(summary.nexits, &m.nexits);
                    summary.cognitive = BasicSummary::merge(summary.cognitive, &m.cognitive);
                    summary.cyclomatic = BasicSummary::merge(summary.cyclomatic, &m.cyclomatic);
                    summary.halstead = HalsteadSummary::merge(summary.halstead, &m.halstead);
                    summary.loc = LocSummary::merge(summary.loc, &m.loc);
                    summary.nom = NomSummary::merge(summary.nom, &m.nom);
                    summary.mi = MiSummary::merge(summary.mi, &m.mi);
                    summary.abc = AbcSummary::merge(summary.abc, &m.abc);
                    proof {
                        assert(summary@ == metrics_step(prev, *m));
                        lemma_step_bounded(prev, *m, idx as nat);
                    }
                },
            }
            proof {
                assert(json_data@.take(idx + 1).drop_last() =~= json_data@.take(idx as int));
                assert(json_data@.take(idx + 1).last() == json_data@[idx as int]);
                assert(summary@ == report_step(prev, json_data@[idx as int]));
                assert(summary@ == fold_reports(json_data@.take(idx + 1)));
            }
        }
        proof {
            assert(json_data@.take(n as int) =~= json_data@);
        }
        summary
    }
}

} // verus!
