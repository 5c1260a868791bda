//! The report model: the typed shape of one parsed per-file report.
//!
//! Every numeric field is an optional fixed-point value (`i64` hundredths).
//! Absence is meaningful and is never coerced to zero before the merge
//! rules decide it should count.

use vstd::prelude::*;

verus! {

/// One metric record: up to twelve independent, individually optional
/// categories.
#[derive(Debug, Clone, Default)]
pub struct Metrics {
    pub nargs: Option<MetricValues>,
    pub nexits: Option<BasicMetric>,
    pub cognitive: Option<BasicMetric>,
    pub cyclomatic: Option<BasicMetric>,
    pub halstead: Option<Halstead>,
    pub loc: Option<Loc>,
    pub nom: Option<Nom>,
    pub mi: Option<Mi>,
    pub abc: Option<Abc>,
    pub wmc: Option<Wmc>,
    pub npm: Option<Npm>,
    pub npa: Option<Npa>,
}

/// Argument counts per function and closure.
#[derive(Debug, Clone, Copy, Default)]
pub struct MetricValues {
    pub total_functions: Option<i64>,
    pub total_closures: Option<i64>,
    pub average_functions: Option<i64>,
    pub average_closures: Option<i64>,
    pub total: Option<i64>,
    pub average: Option<i64>,
    pub functions_min: Option<i64>,
    pub functions_max: Option<i64>,
    pub closures_min: Option<i64>,
    pub closures_max: Option<i64>,
}

/// Shared shape of the exit-count, cognitive- and cyclomatic-complexity
/// categories.
#[derive(Debug, Clone, Copy, Default)]
pub struct BasicMetric {
    pub sum: Option<i64>,
    pub average: Option<i64>,
    pub min: Option<i64>,
    pub max: Option<i64>,
}

/// Halstead complexity measures.
#[derive(Debug, Clone, Copy, Default)]
pub struct Halstead {
    pub n1: Option<i64>,
    pub n1_upper: Option<i64>,
    pub n2: Option<i64>,
    pub n2_upper: Option<i64>,
    pub length: Option<i64>,
    pub estimated_program_length: Option<i64>,
    pub purity_ratio: Option<i64>,
    pub vocabulary: Option<i64>,
    pub volume: Option<i64>,
    pub difficulty: Option<i64>,
    pub level: Option<i64>,
    pub effort: Option<i64>,
    pub time: Option<i64>,
    pub bugs: Option<i64>,
}

/// Lines-of-code breakdown.
#[derive(Debug, Clone, Copy, Default)]
pub struct Loc {
    pub sloc: Option<i64>,
    pub ploc: Option<i64>,
    pub lloc: Option<i64>,
    pub cloc: Option<i64>,
    pub blank: Option<i64>,
    pub sloc_average: Option<i64>,
    pub ploc_average: Option<i64>,
    pub lloc_average: Option<i64>,
    pub cloc_average: Option<i64>,
    pub blank_average: Option<i64>,
    pub sloc_min: Option<i64>,
    pub sloc_max: Option<i64>,
    pub cloc_min: Option<i64>,
    pub cloc_max: Option<i64>,
    pub ploc_min: Option<i64>,
    pub ploc_max: Option<i64>,
    pub lloc_min: Option<i64>,
    pub lloc_max: Option<i64>,
    pub blank_min: Option<i64>,
    pub blank_max: Option<i64>,
}

/// Method counts.
#[derive(Debug, Clone, Copy, Default)]
pub struct Nom {
    pub functions: Option<i64>,
    pub closures: Option<i64>,
    pub functions_average: Option<i64>,
    pub closures_average: Option<i64>,
    pub total: Option<i64>,
    pub average: Option<i64>,
    pub functions_min: Option<i64>,
    pub functions_max: Option<i64>,
    pub closures_min: Option<i64>,
    pub closures_max: Option<i64>,
}

/// Maintainability-index variants.
#[derive(Debug, Clone, Copy, Default)]
pub struct Mi {
    pub mi_original: Option<i64>,
    pub mi_sei: Option<i64>,
    pub mi_visual_studio: Option<i64>,
}

/// ABC complexity: assignments, branches, conditions.
#[derive(Debug, Clone, Copy, Default)]
pub struct Abc {
    pub assignments: Option<i64>,
    pub branches: Option<i64>,
    pub conditions: Option<i64>,
    pub magnitude: Option<i64>,
    pub assignments_average: Option<i64>,
    pub branches_average: Option<i64>,
    pub conditions_average: Option<i64>,
    pub assignments_min: Option<i64>,
    pub assignments_max: Option<i64>,
    pub branches_min: Option<i64>,
    pub branches_max: Option<i64>,
    pub conditions_min: Option<i64>,
    pub conditions_max: Option<i64>,
}

/// Weighted methods per class.
#[derive(Debug, Clone, Copy, Default)]
pub struct Wmc {
    pub classes: Option<i64>,
    pub interfaces: Option<i64>,
    pub total: Option<i64>,
}

/// Public methods per class.
#[derive(Debug, Clone, Copy, Default)]
pub struct Npm {
    pub classes: Option<i64>,
    pub interfaces: Option<i64>,
    pub class_methods: Option<i64>,
    pub interface_methods: Option<i64>,
    pub classes_average: Option<Option<i64>>,
    pub interfaces_average: Option<Option<i64>>,
    pub total: Option<i64>,
    pub total_methods: Option<i64>,
    pub average: Option<i64>,
}

/// Public attributes per class.
#[derive(Debug, Clone, Copy, Default)]
pub struct Npa {
    pub classes: Option<i64>,
    pub interfaces: Option<i64>,
    pub class_attributes: Option<i64>,
    pub interface_attributes: Option<i64>,
    pub classes_average: Option<Option<i64>>,
    pub interfaces_average: Option<Option<i64>>,
    pub total: Option<i64>,
    pub total_attributes: Option<i64>,
    pub average: Option<i64>,
}

/// One nested space (file, function, class) of a report.
#[derive(Debug, Default)]
pub struct Space {
    pub name: String,
    pub start_line: u32,
    pub end_line: u32,
    pub kind: String,
    pub spaces: Vec<Space>,
    pub metrics: Option<Metrics>,
}

/// The root of one parsed report file. Only the root's metrics feed the
/// summary; nested spaces are carried but not traversed.
#[derive(Debug, Default)]
pub struct JsonData {
    pub name: String,
    pub start_line: u32,
    pub end_line: u32,
    pub kind: String,
    pub spaces: Vec<Space>,
    pub metrics: Option<Metrics>,
}

} // verus!
