//! The read-only projection of a summary into label/value rows.
//!
//! Each category yields one row per accumulator field; values are
//! rendered to two decimal places except contribution counts, which are
//! plain integers. An absent category yields a single not-available row.

use vstd::prelude::*;

use crate::analysis::{AbcSummary, BasicSummary, HalsteadSummary, LocSummary, MetricsSummary,
    MetricValuesSummary, MiSummary, NomSummary};
use crate::format::{dec_digits, fmt_fixed, format_count, format_fixed, format_opt_fixed,
    mean_val, mean_value};

verus! {

/// The views of a row sequence's label and value strings.
pub open spec fn rows_view(s: Seq<(String, String)>) -> Seq<(Seq<char>, Seq<char>)> {
    s.map_values(|p: (String, String)| (p.0@, p.1@))
}

/// Rendering of an optional fixed-point field: not available when
/// missing.
pub open spec fn opt_fixed_spec(v: Option<i64>) -> Seq<char> {
    match v {
        Some(x) => fmt_fixed(x as int),
        None => "N/A"@,
    }
}

/// Rendering of an optional summed-mean field: the quotient by the
/// contribution count, or not available when missing.
pub open spec fn opt_mean_spec(v: Option<i64>, count: nat) -> Seq<char> {
    match v {
        Some(x) => fmt_fixed(mean_val(x as int, count)),
        None => "N/A"@,
    }
}

/// Render one optional summed-mean field.
fn format_opt_mean(v: &Option<i64>, count: usize) -> (r: String)
    ensures
        r@ == opt_mean_spec(*v, count as nat),
{
    match v {
        Some(x) => format_fixed(mean_value(*x, count)),
        None => String::from_str("N/A"),
    }
}

/// The rows of a present argument-count summary.
pub open spec fn mv_details_spec(s: MetricValuesSummary) -> Seq<(Seq<char>, Seq<char>)> {
    seq![
        ("Total Functions"@, opt_fixed_spec(s.total_functions)),
        ("Total Closures"@, opt_fixed_spec(s.total_closures)),
        ("Avg Functions"@, opt_mean_spec(s.average_functions, s.count as nat)),
        ("Avg Closures"@, opt_mean_spec(s.average_closures, s.count as nat)),
        ("Total"@, opt_fixed_spec(s.total)),
        ("Average"@, opt_mean_spec(s.average, s.count as nat)),
        ("Min Functions"@, opt_fixed_spec(s.functions_min)),
        ("Max Functions"@, opt_fixed_spec(s.functions_max)),
        ("Min Closures"@, opt_fixed_spec(s.closures_min)),
        ("Max Closures"@, opt_fixed_spec(s.closures_max)),
        ("Count"@, dec_digits(s.count as nat)),
    ]
}

impl MetricValuesSummary {
    /// One labeled row per field of the accumulator.
    pub fn details(&self) -> (r: Vec<(String, String)>)
        ensures
            rows_view(r@) == mv_details_spec(*self),
    {
        let mut rows: Vec<(String, String)> = Vec::new();
        rows.push((String::from_str("Total Functions"), format_opt_fixed(&self.total_functions)));
        rows.push((String::from_str("Total Closures"), format_opt_fixed(&self.total_closures)));
        rows.push(
            (String::from_str("Avg Functions"), format_opt_mean(&self.average_functions, self.count)),
        );
        rows.push(
            (String::from_str("Avg Closures"), format_opt_mean(&self.average_closures, self.count)),
        );
        rows.push((String::from_str("Total"), format_opt_fixed(&self.total)));
        rows.push((String::from_str("Average"), format_opt_mean(&self.average, self.count)));
        rows.push((String::from_str("Min Functions"), format_opt_fixed(&self.functions_min)));
        rows.push((String::from_str("Max Functions"), format_opt_fixed(&self.functions_max)));
        rows.push((String::from_str("Min Closures"), format_opt_fixed(&self.closures_min)));
        rows.push((String::from_str("Max Closures"), format_opt_fixed(&self.closures_max)));
        rows.push((String::from_str("Count"), format_count(self.count)));
        proof {
            assert(rows_view(rows@) =~~= mv_details_spec(*self));
        }
        rows
    }
}

/// The rows of a present basic-category summary.
pub open spec fn basic_details_spec(s: BasicSummary) -> Seq<(Seq<char>, Seq<char>)> {
    seq![
        ("Sum"@, fmt_fixed(s.sum as int)),
        ("Average"@, fmt_fixed(mean_val(s.average as int, s.count as nat))),
        ("Min"@, fmt_fixed(s.min as int)),
        ("Max"@, fmt_fixed(s.max as int)),
        ("Count"@, dec_digits(s.count as nat)),
    ]
}

impl BasicSummary {
    /// One labeled row per field of the accumulator.
    pub fn details(&self) -> (r: Vec<(String, String)>)
        ensures
            rows_view(r@) == basic_details_spec(*self),
    {
        let mut rows: Vec<(String, String)> = Vec::new();
        rows.push((String::from_str("Sum"), format_fixed(self.sum)));
        rows.push(
            (String::from_str("Average"), format_fixed(mean_value(self.average, self.count))),
        );
        rows.push((String::from_str("Min"), format_fixed(self.min)));
        rows.push((String::from_str("Max"), format_fixed(self.max)));
        rows.push((String::from_str("Count"), format_count(self.count)));
        proof {
            assert(rows_view(rows@) =~~= basic_details_spec(*self));
        }
        rows
    }
}

/// The rows of a present Halstead summary.
pub open spec fn hal_details_spec(s: HalsteadSummary) -> Seq<(Seq<char>, Seq<char>)> {
    seq![
        ("n1"@, fmt_fixed(s.n1 as int)),
        ("n2"@, fmt_fixed(s.n2 as int)),
        ("purity_ratio"@, fmt_fixed(s.purity_ratio as int)),
        ("Bugs"@, fmt_fixed(s.bugs as int)),
        ("Estimated Program Length"@, fmt_fixed(s.estimated_program_length as int)),
        ("Vocabulary"@, fmt_fixed(s.vocabulary as int)),
        ("Difficulty"@, fmt_fixed(s.difficulty as int)),
        ("Level"@, fmt_fixed(s.level as int)),
        ("Volume"@, fmt_fixed(s.volume as int)),
        ("Count"@, dec_digits(s.count as nat)),
    ]
}

impl HalsteadSummary {
    /// One labeled row per field of the accumulator.
    pub fn details(&self) -> (r: Vec<(String, String)>)
        ensures
            rows_view(r@) == hal_details_spec(*self),
    {
        let mut rows: Vec<(String, String)> = Vec::new();
        rows.push((String::from_str("n1"), format_fixed(self.n1)));
        rows.push((String::from_str("n2"), format_fixed(self.n2)));
        rows.push((String::from_str("purity_ratio"), format_fixed(self.purity_ratio)));
        rows.push((String::from_str("Bugs"), format_fixed(self.bugs)));
        rows.push(
            (
                String::from_str("Estimated Program Length"),
                format_fixed(self.estimated_program_length),
            ),
        );
        rows.push((String::from_str("Vocabulary"), format_fixed(self.vocabulary)));
        rows.push((String::from_str("Difficulty"), format_fixed(self.difficulty)));
        rows.push((String::from_str("Level"), format_fixed(self.level)));
        rows.push((String::from_str("Volume"), format_fixed(self.volume)));
        rows.push((String::from_str("Count"), format_count(self.count)));
        proof {
            assert(rows_view(rows@) =~~= hal_details_spec(*self));
        }
        rows
    }
}

/// The rows of a present lines-of-code summary.
pub open spec fn loc_details_spec(s: LocSummary) -> Seq<(Seq<char>, Seq<char>)> {
    seq![
        ("SLOC"@, fmt_fixed(s.sloc as int)),
        ("PLOC"@, fmt_fixed(s.ploc as int)),
        ("LLOC"@, fmt_fixed(s.lloc as int)),
        ("CLOC"@, fmt_fixed(s.cloc as int)),
        ("Blank"@, fmt_fixed(s.blank as int)),
        ("SLOC Avg"@, fmt_fixed(mean_val(s.sloc_average as int, s.count as nat))),
        ("PLOC Avg"@, fmt_fixed(mean_val(s.ploc_average as int, s.count as nat))),
        ("LLOC Avg"@, fmt_fixed(mean_val(s.lloc_average as int, s.count as nat))),
        ("CLOC Avg"@, fmt_fixed(mean_val(s.cloc_average as int, s.count as nat))),
        ("Blank Avg"@, fmt_fixed(mean_val(s.blank_average as int, s.count as nat))),
        ("SLOC Min"@, fmt_fixed(s.sloc_min as int)),
        ("SLOC Max"@, fmt_fixed(s.sloc_max as int)),
        ("CLOC Min"@, fmt_fixed(s.cloc_min as int)),
        ("CLOC Max"@, fmt_fixed(s.cloc_max as int)),
        ("PLOC Min"@, fmt_fixed(s.ploc_min as int)),
        ("PLOC Max"@, fmt_fixed(s.ploc_max as int)),
        ("LLOC Min"@, fmt_fixed(s.lloc_min as int)),
        ("LLOC Max"@, fmt_fixed(s.lloc_max as int)),
        ("Blank Min"@, fmt_fixed(s.blank_min as int)),
        ("Blank Max"@, fmt_fixed(s.blank_max as int)),
    ]
}

impl LocSummary {
    /// One labeled row per field of the accumulator.
    pub fn details(&self) -> (r: Vec<(String, String)>)
        ensures
            rows_view(r@) == loc_details_spec(*self),
    {
        let mut rows: Vec<(String, String)> = Vec::new();
        rows.push((String::from_str("SLOC"), format_fixed(self.sloc)));
        rows.push((String::from_str("PLOC"), format_fixed(self.ploc)));
        rows.push((String::from_str("LLOC"), format_fixed(self.lloc)));
        rows.push((String::from_str("CLOC"), format_fixed(self.cloc)));
        rows.push((String::from_str("Blank"), format_fixed(self.blank)));
        rows.push(
            (String::from_str("SLOC Avg"), format_fixed(mean_value(self.sloc_average, self.count))),
        );
        rows.push(
            (String::from_str("PLOC Avg"), format_fixed(mean_value(self.ploc_average, self.count))),
        );
        rows.push(
            (String::from_str("LLOC Avg"), format_fixed(mean_value(self.lloc_average, self.count))),
        );
        rows.push(
            (String::from_str("CLOC Avg"), format_fixed(mean_value(self.cloc_average, self.count))),
        );
        rows.push(
            (
                String::from_str("Blank Avg"),
                format_fixed(mean_value(self.blank_average, self.count)),
            ),
        );
        rows.push((String::from_str("SLOC Min"), format_fixed(self.sloc_min)));
        rows.push((String::from_str("SLOC Max"), format_fixed(self.sloc_max)));
        rows.push((String::from_str("CLOC Min"), format_fixed(self.cloc_min)));
        rows.push((String::from_str("CLOC Max"), format_fixed(self.cloc_max)));
        rows.push((String::from_str("PLOC Min"), format_fixed(self.ploc_min)));
        rows.push((String::from_str("PLOC Max"), format_fixed(self.ploc_max)));
        rows.push((String::from_str("LLOC Min"), format_fixed(self.lloc_min)));
        rows.push((String::from_str("LLOC Max"), format_fixed(self.lloc_max)));
        rows.push((String::from_str("Blank Min"), format_fixed(self.blank_min)));
        rows.push((String::from_str("Blank Max"), format_fixed(self.blank_max)));
        proof {
            assert(rows_view(rows@) =~~= loc_details_spec(*self));
        }
        rows
    }
}

/// The rows of a present method-count summary.
pub open spec fn nom_details_spec(s: NomSummary) -> Seq<(Seq<char>, Seq<char>)> {
    seq![
        ("Functions"@, fmt_fixed(s.functions as int)),
        ("Closures"@, fmt_fixed(s.closures as int)),
        ("Total"@, fmt_fixed(s.total as int)),
        ("Count"@, dec_digits(s.count as nat)),
    ]
}

impl NomSummary {
    /// One labeled row per field of the accumulator.
    pub fn details(&self) -> (r: Vec<(String, String)>)
        ensures
            rows_view(r@) == nom_details_spec(*self),
    {
        let mut rows: Vec<(String, String)> = Vec::new();
        rows.push((String::from_str("Functions"), format_fixed(self.functions)));
        rows.push((String::from_str("Closures"), format_fixed(self.closures)));
        rows.push((String::from_str("Total"), format_fixed(self.total)));
        rows.push((String::from_str("Count"), format_count(self.count)));
        proof {
            assert(rows_view(rows@) =~~= nom_details_spec(*self));
        }
        rows
    }
}

/// The rows of a present maintainability-index summary.
pub open spec fn mi_details_spec(s: MiSummary) -> Seq<(Seq<char>, Seq<char>)> {
    seq![
        ("MI Original"@, fmt_fixed(s.mi_original as int)),
        ("MI SEI"@, fmt_fixed(s.mi_sei as int)),
        ("MI VS"@, fmt_fixed(s.mi_visual_studio as int)),
        ("Count"@, dec_digits(s.count as nat)),
    ]
}

impl MiSummary {
    /// One labeled row per field of the accumulator.
    pub fn details(&self) -> (r: Vec<(String, String)>)
        ensures
            rows_view(r@) == mi_details_spec(*self),
    {
        let mut rows: Vec<(String, String)> = Vec::new();
        rows.push((String::from_str("MI Original"), format_fixed(self.mi_original)));
        rows.push((String::from_str("MI SEI"), format_fixed(self.mi_sei)));
        rows.push((String::from_str("MI VS"), format_fixed(self.mi_visual_studio)));
        rows.push((String::from_str("Count"), format_count(self.count)));
        proof {
            assert(rows_view(rows@) =~~= mi_details_spec(*self));
        }
        rows
    }
}

/// The rows of a present ABC-complexity summary.
pub open spec fn abc_details_spec(s: AbcSummary) -> Seq<(Seq<char>, Seq<char>)> {
    seq![
        ("Assignments"@, fmt_fixed(s.assignments as int)),
        ("Branches"@, fmt_fixed(s.branches as int)),
        ("Conditions"@, fmt_fixed(s.conditions as int)),
        ("Count"@, dec_digits(s.count as nat)),
    ]
}

impl AbcSummary {
    /// One labeled row per field of the accumulator.
    pub fn details(&self) -> (r: Vec<(String, String)>)
        ensures
            rows_view(r@) == abc_details_spec(*self),
    {
        let mut rows: Vec<(String, String)> = Vec::new();
        rows.push((String::from_str("Assignments"), format_fixed(self.assignments)));
        rows.push((String::from_str("Branches"), format_fixed(self.branches)));
        rows.push((String::from_str("Conditions"), format_fixed(self.conditions)));
        rows.push((String::from_str("Count"), format_count(self.count)));
        proof {
            assert(rows_view(rows@) =~~= abc_details_spec(*self));
        }
        rows
    }
}

/// One table segment: a header row followed by the detail rows of a
/// present category, or a single not-available row for an absent one.
pub open spec fn segment(
    title: Seq<char>,
    details: Option<Seq<(Seq<char>, Seq<char>)>>,
) -> Seq<(Seq<char>, Seq<char>)> {
    match details {
        Some(d) => seq![(title, Seq::<char>::empty())] + d,
        None => seq![(title, "N/A"@)],
    }
}

/// The whole two-column table of a summary: nine segments in display
/// order.
pub open spec fn summary_table_spec(s: MetricsSummary) -> Seq<(Seq<char>, Seq<char>)> {
    segment(
        "NArgs"@,
        match s.nargs {
            Some(c) => Some(mv_details_spec(c)),
            None => None,
        },
    ) + segment(
        "NExits"@,
        match s.nexits {
            Some(c) => Some(basic_details_spec(c)),
            None => None,
        },
    ) + segment(
        "Cognitive Complexity"@,
        match s.cognitive {
            Some(c) => Some(basic_details_spec(c)),
            None => None,
        },
    ) + segment(
        "Cyclomatic Complexity"@,
        match s.cyclomatic {
            Some(c) => Some(basic_details_spec(c)),
            None => None,
        },
    ) + segment(
        "Halstead Metrics"@,
        match s.halstead {
            Some(c) => Some(hal_details_spec(c)),
            None => None,
        },
    ) + segment(
        "Lines of Code"@,
        match s.loc {
            Some(c) => Some(loc_details_spec(c)),
            None => None,
        },
    ) + segment(
        "Number of Methods"@,
        match s.nom {
            Some(c) => Some(nom_details_spec(c)),
            None => None,
        },
    ) + segment(
        "Maintainability Index"@,
        match s.mi {
            Some(c) => Some(mi_details_spec(c)),
            None => None,
        },
    ) + segment(
        "ABC Complexity"@,
        match s.abc {
            Some(c) => Some(abc_details_spec(c)),
            None => None,
        },
    )
}

/// Push one segment of the table: the category header, then either its
/// detail rows or a single not-available value.
fn push_segment(
    rows: &mut Vec<(String, String)>,
    title: &str,
    details: Option<Vec<(String, String)>>,
    Ghost(details_spec): Ghost<Option<Seq<(Seq<char>, Seq<char>)>>>,
)
    requires
        (match details {
            Some(d) => details_spec matches Some(ds) && rows_view(d@) == ds,
            None => details_spec is None,
        }),
    ensures
        rows_view(final(rows)@) == rows_view(old(rows)@) + segment(title@, details_spec),
{
    match details {
        Some(mut d) => {
            rows.push((String::from_str(title), String::new()));
            rows.append(&mut d);
            proof {
                assert(rows_view(rows@) =~~= rows_view(old(rows)@) + segment(
                    title@,
                    details_spec,
                ));
            }
        },
        None => {
            rows.push((String::from_str(title), String::from_str("N/A")));
            proof {
                assert(rows_view(rows@) =~~= rows_view(old(rows)@) + segment(
                    title@,
                    details_spec,
                ));
            }
        },
    }
}

/// Render a finished summary as one two-column table: per category a
/// header row and the category's labeled fields, or a not-available row
/// where no report supplied the category.
pub fn create_summary_table(summary: MetricsSummary) -> (r: Vec<(String, String)>)
    ensures
        rows_view(r@) == summary_table_spec(summary),
{
    let mut rows: Vec<(String, String)> = Vec::new();
    match &summary.nargs {
        Some(c) => push_segment(
            &mut rows,
            "NArgs",
            Some(c.details()),
            Ghost(Some(mv_details_spec(*c))),
        ),
        None => push_segment(&mut rows, "NArgs", None, Ghost(None)),
    }
    match &summary.nexits {
        Some(c) => push_segment(
            &mut rows,
            "NExits",
            Some(c.details()),
            Ghost(Some(basic_details_spec(*c))),
        ),
        None => push_segment(&mut rows, "NExits", None, Ghost(None)),
    }
    match &summary.cognitive {
        Some(c) => push_segment(
            &mut rows,
            "Cognitive Complexity",
            Some(c.details()),
            Ghost(Some(basic_details_spec(*c))),
        ),
        None => push_segment(&mut rows, "Cognitive Complexity", None, Ghost(None)),
    }
    match &summary.cyclomatic {
        Some(c) => push_segment(
            &mut rows,
            "Cyclomatic Complexity",
            Some(c.details()),
            Ghost(Some(basic_details_spec(*c))),
        ),
        None => push_segment(&mut rows, "Cyclomatic Complexity", None, Ghost(None)),
    }
    match &summary.halstead {
        Some(c) => push_segment(
            &mut rows,
            "Halstead Metrics",
            Some(c.details()),
            Ghost(Some(hal_details_spec(*c))),
        ),
        None => push_segment(&mut rows, "Halstead Metrics", None, Ghost(None)),
    }
    match &summary.loc {
        Some(c) => push_segment(
            &mut rows,
            "Lines of Code",
            Some(c.details()),
            Ghost(Some(loc_details_spec(*c))),
        ),
        None => push_segment(&mut rows, "Lines of Code", None, Ghost(None)),
    }
    match &summary.nom {
        Some(c) => push_segment(
            &mut rows,
            "Number of Methods",
            Some(c.details()),
            Ghost(Some(nom_details_spec(*c))),
        ),
        None => push_segment(&mut rows, "Number of Methods", None, Ghost(None)),
    }
    match &summary.mi {
        Some(c) => push_segment(
            &mut rows,
            "Maintainability Index",
            Some(c.details()),
            Ghost(Some(mi_details_spec(*c))),
        ),
        None => push_segment(&mut rows, "Maintainability Index", None, Ghost(None)),
    }
    match &summary.abc {
        Some(c) => push_segment(
            &mut rows,
            "ABC Complexity",
            Some(c.details()),
            Ghost(Some(abc_details_spec(*c))),
        ),
        None => push_segment(&mut rows, "ABC Complexity", None, Ghost(None)),
    }
    proof {
        assert(rows_view(rows@) =~~= summary_table_spec(summary));
    }
    rows
}

} // verus!
