//! Metric catalog: the fixed table of series definitions.
//!
//! Each entry maps one raw device field to one chart, with display metadata
//! and the unit-conversion divisor for that field.  The divisor policy is
//! that a field name denoting a sub-unit (milli-prefixed) magnitude divides
//! by 1000 and every other field divides by 1; the divisor is computed once,
//! when the entry is built, and every later lookup is table-driven.

use vstd::prelude::*;
use vstd::string::StrSliceExecFns;
use vstd::string::StringExecFns;

verus! {

/// How a chart is drawn by the sink: a stacked area or a plain line.
#[derive(Clone, Copy, PartialEq, Eq, Structural, Debug)]
pub enum SeriesKind {
    Area,
    Line,
}

/// Ghost image of one series definition.
#[verifier::ext_equal]
pub ghost struct SeriesDefinitionView {
    pub chart_id: Seq<char>,
    pub chart_name: Seq<char>,
    pub chart_title: Seq<char>,
    pub unit_label: Seq<char>,
    pub family: Seq<char>,
    pub context: Seq<char>,
    pub series_kind: SeriesKind,
    pub priority: u32,
    pub source_field: Seq<char>,
    pub scale_divisor: u32,
}

/// One catalog entry: chart metadata, the raw field it is fed from, and the
/// divisor for that field.  Static and read-only after startup.
#[derive(Clone, Debug)]
pub struct SeriesDefinition {
    pub chart_id: String,
    pub chart_name: String,
    pub chart_title: String,
    pub unit_label: String,
    pub family: String,
    pub context: String,
    pub series_kind: SeriesKind,
    pub priority: u32,
    pub source_field: String,
    pub scale_divisor: u32,
}

impl View for SeriesDefinition {
    type V = SeriesDefinitionView;

    open spec fn view(&self) -> SeriesDefinitionView {
        SeriesDefinitionView {
            chart_id: self.chart_id@,
            chart_name: self.chart_name@,
            chart_title: self.chart_title@,
            unit_label: self.unit_label@,
            family: self.family@,
            context: self.context@,
            series_kind: self.series_kind,
            priority: self.priority,
            source_field: self.source_field@,
            scale_divisor: self.scale_divisor,
        }
    }
}

/// A field name denotes a sub-unit (milli) magnitude when it contains an
/// underscore immediately followed by the letter `m`, as in `power_mw`.
pub open spec fn has_milli_marker(s: Seq<char>) -> bool {
    exists|i: int| 0 <= i && i + 2 <= s.len() && (#[trigger] s[i]) == '_' && s[i + 1] == 'm'
}

/// The divisor the unit policy assigns to a field name: 1000 for sub-unit
/// (milli) fields, 1 for everything else.
pub open spec fn milli_divisor_spec(s: Seq<char>) -> u32 {
    if has_milli_marker(s) {
        1000
    } else {
        1
    }
}

/// Compute the divisor the unit policy assigns to a raw field name.  Used
/// once per entry when the catalog is built.
pub fn field_divisor(field: &str) -> (d: u32)
    ensures
        d == milli_divisor_spec(field@),
        d == 1 || d == 1000,
{
    let n = field.unicode_len();
    if n < 2 {
        proof {
            assert(!has_milli_marker(field@));
        }
        return 1;
    }
    let mut i: usize = 0;
    while i < n - 1
        invariant
            n == field@.len(),
            2 <= n,
            i <= n - 1,
            forall|j: int| 0 <= j < i ==> !((#[trigger] field@[j]) == '_' && field@[j + 1] == 'm'),
        decreases n - i,
    {
        if field.get_char(i) == '_' && field.get_char(i + 1) == 'm' {
            proof {
                assert(0 <= i as int && i as int + 2 <= field@.len() && field@[i as int] == '_'
                    && field@[i as int + 1] == 'm');
                assert(has_milli_marker(field@));
            }
            return 1000;
        }
        i = i + 1;
    }
    proof {
        assert(forall|j: int|
            0 <= j && j + 2 <= field@.len() ==> !((#[trigger] field@[j]) == '_' && field@[j + 1]
                == 'm'));
        assert(!has_milli_marker(field@));
    }
    1
}

impl SeriesDefinition {
    /// An entry is well formed when its stored divisor is exactly what the
    /// unit policy assigns to its source field.
    pub open spec fn wf(self) -> bool {
        self@.scale_divisor == milli_divisor_spec(self@.source_field)
    }

    /// Build one catalog entry; the divisor is derived from the source field
    /// here, once, so later lookups cannot drift from the policy.
    pub fn new(
        chart_id: String,
        chart_name: String,
        chart_title: String,
        unit_label: String,
        family: String,
        context: String,
        series_kind: SeriesKind,
        priority: u32,
        source_field: String,
    ) -> (d: SeriesDefinition)
        ensures
            d.wf(),
            d@.chart_id == chart_id@,
            d@.chart_name == chart_name@,
            d@.chart_title == chart_title@,
            d@.unit_label == unit_label@,
            d@.family == family@,
            d@.context == context@,
            d@.series_kind == series_kind,
            d@.priority == priority,
            d@.source_field == source_field@,
            d@.scale_divisor == milli_divisor_spec(source_field@),
    {
        let scale_divisor = field_divisor(source_field.as_str());
        SeriesDefinition {
            chart_id,
            chart_name,
            chart_title,
            unit_label,
            family,
            context,
            series_kind,
            priority,
            source_field,
            scale_divisor,
        }
    }
}

/// First-match divisor lookup over the catalog table; a field no entry
/// claims divides by 1.
pub open spec fn divisor_for_spec(defs: Seq<SeriesDefinitionView>, field: Seq<char>) -> u32
    decreases defs.len(),
{
    if defs.len() == 0 {
        1
    } else if defs[0].source_field == field {
        defs[0].scale_divisor
    } else {
        divisor_for_spec(defs.drop_first(), field)
    }
}

/// No two catalog entries declare the same chart.
pub open spec fn distinct_charts(defs: Seq<SeriesDefinitionView>) -> bool {
    forall|i: int, j: int|
        0 <= i < defs.len() && 0 <= j < defs.len() && i != j ==> (#[trigger] defs[i]).chart_id != (
        #[trigger] defs[j]).chart_id
}

/// The static table of series definitions.  Iteration order is declaration
/// order and is fixed at startup.
pub struct MetricCatalog {
    pub defs: Vec<SeriesDefinition>,
}

impl View for MetricCatalog {
    type V = Seq<SeriesDefinitionView>;

    open spec fn view(&self) -> Seq<SeriesDefinitionView> {
        self.defs@.map_values(|d: SeriesDefinition| d@)
    }
}

impl MetricCatalog {
    /// A catalog is well formed when every entry obeys the divisor policy
    /// and each chart is declared by exactly one entry.
    pub open spec fn wf(self) -> bool {
        &&& forall|i: int|
            0 <= i < self@.len() ==> (#[trigger] self@[i]).scale_divisor == milli_divisor_spec(
                self@[i].source_field,
            )
        &&& distinct_charts(self@)
    }

    /// Number of entries.
    pub fn len(&self) -> (n: usize)
        ensures
            n == self@.len(),
    {
        self.defs.len()
    }

    /// The divisor recorded for a field: a table lookup, never a fresh
    /// inference.  Total — a field the catalog does not mention divides
    /// by 1 — and deterministic, so re-querying returns the same value.
    pub fn divisor_for(&self, field: &String) -> (d: u32)
        ensures
            d == divisor_for_spec(self@, field@),
    {
        let n = self.defs.len();
        let mut i: usize = 0;
        proof {
            assert(self@.skip(0) =~= self@);
        }
        while i < n
            invariant
                n == self.defs@.len(),
                i <= n,
                divisor_for_spec(self@, field@) == divisor_for_spec(self@.skip(i as int), field@),
            decreases n - i,
        {
            proof {
                assert(self@.skip(i as int).drop_first() =~= self@.skip(i + 1));
                assert(self@[i as int] == self.defs@[i as int]@);
            }
            if self.defs[i].source_field == *field {
                return self.defs[i].scale_divisor;
            }
            i = i + 1;
        }
        proof {
            assert(self@.skip(n as int) =~= Seq::<SeriesDefinitionView>::empty());
        }
        1
    }
}

/// The fixed catalog of this collector: power, voltage, current and total
/// consumption, in declaration (display) order.
pub open spec fn standard_defs() -> Seq<SeriesDefinitionView> {
    seq![
        SeriesDefinitionView {
            chart_id: "Smartplugs.power"@,
            chart_name: "Power"@,
            chart_title: "Power"@,
            unit_label: "watts"@,
            family: "power"@,
            context: "smartplugpower.power"@,
            series_kind: SeriesKind::Area,
            priority: 90000,
            source_field: "power_mw"@,
            scale_divisor: 1000,
        },
        SeriesDefinitionView {
            chart_id: "Smartplugs.voltage"@,
            chart_name: "Voltage"@,
            chart_title: "Voltage"@,
            unit_label: "volts"@,
            family: "voltage"@,
            context: "smartplugpower.voltage"@,
            series_kind: SeriesKind::Line,
            priority: 90010,
            source_field: "voltage_mv"@,
            scale_divisor: 1000,
        },
        SeriesDefinitionView {
            chart_id: "Smartplugs.current"@,
            chart_name: "Current"@,
            chart_title: "Current"@,
            unit_label: "amps"@,
            family: "current"@,
            context: "smartplugpower.current"@,
            series_kind: SeriesKind::Line,
            priority: 90020,
            source_field: "current_ma"@,
            scale_divisor: 1000,
        },
        SeriesDefinitionView {
            chart_id: "Smartplugs.total-consumption"@,
            chart_name: "Total"@,
            chart_title: "Total consumption"@,
            unit_label: "watt-hours"@,
            family: "consumption"@,
            context: "smartplugpower.total"@,
            series_kind: SeriesKind::Line,
            priority: 90030,
            source_field: "total_wh"@,
            scale_divisor: 1,
        },
    ]
}

/// The divisor policy on the four standard source fields: the three
/// milli-unit fields divide by 1000, the watt-hour total divides by 1.
pub proof fn lemma_standard_divisors()
    ensures
        milli_divisor_spec("power_mw"@) == 1000,
        milli_divisor_spec("voltage_mv"@) == 1000,
        milli_divisor_spec("current_ma"@) == 1000,
        milli_divisor_spec("total_wh"@) == 1,
{
    reveal_strlit("power_mw");
    reveal_strlit("voltage_mv");
    reveal_strlit("current_ma");
    reveal_strlit("total_wh");
    assert("power_mw"@[5] == '_' && "power_mw"@[6] == 'm');
    assert(has_milli_marker("power_mw"@));
    assert("voltage_mv"@[7] == '_' && "voltage_mv"@[8] == 'm');
    assert(has_milli_marker("voltage_mv"@));
    assert("current_ma"@[7] == '_' && "current_ma"@[8] == 'm');
    assert(has_milli_marker("current_ma"@));
    assert(!has_milli_marker("total_wh"@)) by {
        assert forall|i: int|
            0 <= i && i + 2 <= "total_wh"@.len() implies !((#[trigger] "total_wh"@[i]) == '_'
            && "total_wh"@[i + 1] == 'm') by {
            assert("total_wh"@.len() == 8);
            if i == 5 {
                assert("total_wh"@[6] == 'w');
            } else {
                assert("total_wh"@[i] != '_');
            }
        }
    }
}

/// The standard chart identifiers are pairwise distinct.
pub proof fn lemma_standard_charts_distinct()
    ensures
        distinct_charts(standard_defs()),
{
    reveal_strlit("Smartplugs.power");
    reveal_strlit("Smartplugs.voltage");
    reveal_strlit("Smartplugs.current");
    reveal_strlit("Smartplugs.total-consumption");
    assert("Smartplugs.power"@.len() == 16);
    assert("Smartplugs.voltage"@.len() == 18);
    assert("Smartplugs.current"@.len() == 18);
    assert("Smartplugs.total-consumption"@.len() == 28);
    assert("Smartplugs.voltage"@[11] == 'v' && "Smartplugs.current"@[11] == 'c');
    assert("Smartplugs.voltage"@ != "Smartplugs.current"@);
    assert forall|i: int, j: int|
        0 <= i < standard_defs().len() && 0 <= j < standard_defs().len() && i != j implies (
    #[trigger] standard_defs()[i]).chart_id != (#[trigger] standard_defs()[j]).chart_id by {
        assert(standard_defs()[0].chart_id == "Smartplugs.power"@);
        assert(standard_defs()[1].chart_id == "Smartplugs.voltage"@);
        assert(standard_defs()[2].chart_id == "Smartplugs.current"@);
        assert(standard_defs()[3].chart_id == "Smartplugs.total-consumption"@);
    }
}

/// Build the standard catalog.
pub fn standard_catalog() -> (c: MetricCatalog)
    ensures
        c.wf(),
        c@ == standard_defs(),
{
    let mut defs: Vec<SeriesDefinition> = Vec::new();
    defs.push(
        SeriesDefinition::new(
            String::from_str("Smartplugs.power"),
            String::from_str("Power"),
            String::from_str("Power"),
            String::from_str("watts"),
            String::from_str("power"),
            String::from_str("smartplugpower.power"),
            SeriesKind::Area,
            90000,
            String::from_str("power_mw"),
        ),
    );
    defs.push(
        SeriesDefinition::new(
            String::from_str("Smartplugs.voltage"),
            String::from_str("Voltage"),
            String::from_str("Voltage"),
            String::from_str("volts"),
            String::from_str("voltage"),
            String::from_str("smartplugpower.voltage"),
            SeriesKind::Line,
            90010,
            String::from_str("voltage_mv"),
        ),
    );
    defs.push(
        SeriesDefinition::new(
            String::from_str("Smartplugs.current"),
            String::from_str("Current"),
            String::from_str("Current"),
            String::from_str("amps"),
            String::from_str("current"),
            String::from_str("smartplugpower.current"),
            SeriesKind::Line,
            90020,
            String::from_str("current_ma"),
        ),
    );
    defs.push(
        SeriesDefinition::new(
            String::from_str("Smartplugs.total-consumption"),
            String::from_str("Total"),
            String::from_str("Total consumption"),
            String::from_str("watt-hours"),
            String::from_str("consumption"),
            String::from_str("smartplugpower.total"),
            SeriesKind::Line,
            90030,
            String::from_str("total_wh"),
        ),
    );
    let c = MetricCatalog { defs };
    proof {
        lemma_standard_divisors();
        assert(c@.len() == 4);
        assert(c@[0] =~= standard_defs()[0]);
        assert(c@[1] =~= standard_defs()[1]);
        assert(c@[2] =~= standard_defs()[2]);
        assert(c@[3] =~= standard_defs()[3]);
        assert(c@ =~= standard_defs());
        lemma_standard_charts_distinct();
    }
    c
}

/// Totality and determinism of the divisor policy: the lookup is defined for
/// every field name, and in a well-formed catalog every entry that claims a
/// field agrees with what the lookup returns for it — each cataloged field
/// maps to exactly one divisor, and re-querying cannot change it.
pub proof fn lemma_divisor_total(defs: Seq<SeriesDefinitionView>, field: Seq<char>)
    requires
        forall|i: int|
            0 <= i < defs.len() ==> (#[trigger] defs[i]).scale_divisor == milli_divisor_spec(
                defs[i].source_field,
            ),
    ensures
        forall|i: int|
            0 <= i < defs.len() && (#[trigger] defs[i]).source_field == field ==> divisor_for_spec(
                defs,
                field,
            ) == defs[i].scale_divisor,
        divisor_for_spec(defs, field) == 1 || divisor_for_spec(defs, field) == 1000,
    decreases defs.len(),
{
    if defs.len() > 0 {
        lemma_divisor_total(defs.drop_first(), field);
        assert(forall|i: int|
            1 <= i < defs.len() ==> #[trigger] defs[i] == defs.drop_first()[i - 1]);
        if defs[0].source_field == field {
            assert(forall|i: int|
                0 <= i < defs.len() && (#[trigger] defs[i]).source_field == field ==> defs[i]
                    .scale_divisor == milli_divisor_spec(field));
        }
    }
}

} // verus!
