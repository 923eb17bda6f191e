//! Emission planner: the declare/feed/commit traffic towards the metrics
//! sink.
//!
//! The sink itself is an external, write-only consumer with
//! declare-then-feed-then-commit semantics.  The crate plans that traffic as
//! plain command lists: one declaration pass before the tick loop starts
//! (charts in catalog order, each followed by its per-device dimensions),
//! and one pass per round (for each chart, every feed for that chart, then
//! exactly one commit).  Replaying a plan in order is all the unverified
//! boundary has to do.

use crate::catalog::MetricCatalog;
use crate::catalog::SeriesDefinitionView;
use crate::catalog::SeriesKind;
use crate::catalog::distinct_charts;
use crate::registry::DeviceRegistry;
use crate::registry::DeviceView;
use crate::poll::PollError;
use crate::poll::Reading;
use crate::round::DimensionKeyView;
use crate::round::RoundResult;
use crate::round::device_values_spec;
use crate::round::dimension_id;
use crate::round::dimension_id_spec;
use crate::round::key_spec;
use crate::round::round_values_spec;
use vstd::prelude::*;

verus! {

/// One instruction to the sink.
#[derive(Clone, Debug, PartialEq, Eq)]
pub enum SinkCommand {
    /// Declare a chart, with its display metadata.
    DeclareChart {
        chart_id: String,
        chart_name: String,
        title: String,
        units: String,
        family: String,
        context: String,
        kind: SeriesKind,
        priority: u32,
    },
    /// Declare one device's dimension within a chart.  The divisor handed to
    /// the sink is 1: samples are already scaled during normalization.
    DeclareDimension { chart_id: String, dimension_id: String, display_name: String, divisor: u32 },
    /// Feed one sample for a declared dimension.
    Feed { chart_id: String, dimension_id: String, value: i64 },
    /// Flush a chart's buffered samples as one time-stamped batch.
    Commit { chart_id: String },
}

/// Ghost image of a sink command.
#[verifier::ext_equal]
pub ghost enum SinkCommandView {
    DeclareChart {
        chart_id: Seq<char>,
        chart_name: Seq<char>,
        title: Seq<char>,
        units: Seq<char>,
        family: Seq<char>,
        context: Seq<char>,
        kind: SeriesKind,
        priority: u32,
    },
    DeclareDimension {
        chart_id: Seq<char>,
        dimension_id: Seq<char>,
        display_name: Seq<char>,
        divisor: u32,
    },
    Feed { chart_id: Seq<char>, dimension_id: Seq<char>, value: int },
    Commit { chart_id: Seq<char> },
}

impl View for SinkCommand {
    type V = SinkCommandView;

    open spec fn view(&self) -> SinkCommandView {
        match self {
            SinkCommand::DeclareChart {
                chart_id,
                chart_name,
                title,
                units,
                family,
                context,
                kind,
                priority,
            } => SinkCommandView::DeclareChart {
                chart_id: chart_id@,
                chart_name: chart_name@,
                title: title@,
                units: units@,
                family: family@,
                context: context@,
                kind: *kind,
                priority: *priority,
            },
            SinkCommand::DeclareDimension { chart_id, dimension_id, display_name, divisor } => SinkCommandView::DeclareDimension {
                chart_id: chart_id@,
                dimension_id: dimension_id@,
                display_name: display_name@,
                divisor: *divisor,
            },
            SinkCommand::Feed { chart_id, dimension_id, value } => SinkCommandView::Feed {
                chart_id: chart_id@,
                dimension_id: dimension_id@,
                value: *value as int,
            },
            SinkCommand::Commit { chart_id } => SinkCommandView::Commit { chart_id: chart_id@ },
        }
    }
}

/// View of a command list.
pub open spec fn commands_view(v: Seq<SinkCommand>) -> Seq<SinkCommandView> {
    v.map_values(|c: SinkCommand| c@)
}

/// The chart declaration for one catalog entry.
pub open spec fn declare_chart_spec(def: SeriesDefinitionView) -> SinkCommandView {
    SinkCommandView::DeclareChart {
        chart_id: def.chart_id,
        chart_name: def.chart_name,
        title: def.chart_title,
        units: def.unit_label,
        family: def.family,
        context: def.context,
        kind: def.series_kind,
        priority: def.priority,
    }
}

/// The dimension declaration for one device within one chart.
pub open spec fn declare_dimension_spec(
    def: SeriesDefinitionView,
    device: DeviceView,
) -> SinkCommandView {
    SinkCommandView::DeclareDimension {
        chart_id: def.chart_id,
        dimension_id: dimension_id_spec(device.dimension_prefix, def.chart_name),
        display_name: device.alias + " ("@ + device.address + ")"@,
        divisor: 1,
    }
}

/// Dimension declarations of one chart, devices in registry order.
pub open spec fn chart_dimensions_spec(
    def: SeriesDefinitionView,
    devices: Seq<DeviceView>,
) -> Seq<SinkCommandView>
    decreases devices.len(),
{
    if devices.len() == 0 {
        Seq::empty()
    } else {
        chart_dimensions_spec(def, devices.drop_last()) + seq![
            declare_dimension_spec(def, devices.last()),
        ]
    }
}

/// The whole one-time declaration pass: charts in catalog order, each chart
/// immediately followed by its dimensions.
pub open spec fn declarations_spec(
    defs: Seq<SeriesDefinitionView>,
    devices: Seq<DeviceView>,
) -> Seq<SinkCommandView>
    decreases defs.len(),
{
    if defs.len() == 0 {
        Seq::empty()
    } else {
        declarations_spec(defs.drop_last(), devices) + seq![declare_chart_spec(defs.last())]
            + chart_dimensions_spec(defs.last(), devices)
    }
}

/// Feeds of one chart for one round: the round's samples whose key names
/// this chart, in round order.
pub open spec fn chart_feeds_spec(
    values: Seq<(DimensionKeyView, int)>,
    chart_id: Seq<char>,
) -> Seq<SinkCommandView>
    decreases values.len(),
{
    if values.len() == 0 {
        Seq::empty()
    } else {
        chart_feeds_spec(values.drop_last(), chart_id) + if values.last().0.chart_id == chart_id {
            seq![
                SinkCommandView::Feed {
                    chart_id,
                    dimension_id: values.last().0.dimension_id,
                    value: values.last().1,
                },
            ]
        } else {
            Seq::empty()
        }
    }
}

/// The per-round emission pass: for each chart in catalog order, all of its
/// feeds, then exactly one commit.
pub open spec fn round_plan_spec(
    values: Seq<(DimensionKeyView, int)>,
    defs: Seq<SeriesDefinitionView>,
) -> Seq<SinkCommandView>
    decreases defs.len(),
{
    if defs.len() == 0 {
        Seq::empty()
    } else {
        round_plan_spec(values, defs.drop_last()) + chart_feeds_spec(values, defs.last().chart_id)
            + seq![SinkCommandView::Commit { chart_id: defs.last().chart_id }]
    }
}

/// Plan the one-time declaration pass for a catalog and a device registry.
pub fn plan_declarations(catalog: &MetricCatalog, registry: &DeviceRegistry) -> (r: Vec<
    SinkCommand,
>)
    ensures
        commands_view(r@) == declarations_spec(catalog@, registry@),
{
    let chart_count = catalog.defs.len();
    let device_count = registry.devices.len();
    let mut out: Vec<SinkCommand> = Vec::new();
    let mut i: usize = 0;
    proof {
        assert(catalog@.subrange(0, 0) =~= Seq::<SeriesDefinitionView>::empty());
        assert(commands_view(out@) =~= declarations_spec(catalog@.subrange(0, 0), registry@));
    }
    while i < chart_count
        invariant
            chart_count == catalog@.len(),
            device_count == registry@.len(),
            i <= chart_count,
            commands_view(out@) == declarations_spec(catalog@.subrange(0, i as int), registry@),
        decreases chart_count - i,
    {
        let def = &catalog.defs[i];
        let ghost defs_pre = catalog@.subrange(0, i as int);
        let ghost defs_cur = catalog@.subrange(0, i as int + 1);
        let ghost out_pre = out@;
        proof {
            assert(defs_cur.drop_last() =~= defs_pre);
            assert(defs_cur.last() == catalog@[i as int]);
            assert(catalog@[i as int] == def@);
        }
        out.push(
            SinkCommand::DeclareChart {
                chart_id: def.chart_id.clone(),
                chart_name: def.chart_name.clone(),
                title: def.chart_title.clone(),
                units: def.unit_label.clone(),
                family: def.family.clone(),
                context: def.context.clone(),
                kind: def.series_kind,
                priority: def.priority,
            },
        );
        proof {
            assert(out@.last()@ =~= declare_chart_spec(def@));
            assert(commands_view(out@) =~= commands_view(out_pre) + seq![declare_chart_spec(def@)]);
        }
        let ghost out_mid = out@;
        let mut d: usize = 0;
        proof {
            assert(registry@.subrange(0, 0) =~= Seq::<DeviceView>::empty());
            assert(chart_dimensions_spec(def@, registry@.subrange(0, 0)) =~= Seq::<
                SinkCommandView,
            >::empty());
            assert(commands_view(out@) =~= commands_view(out_mid) + chart_dimensions_spec(
                def@,
                registry@.subrange(0, 0),
            ));
        }
        while d < device_count
            invariant
                chart_count == catalog@.len(),
                device_count == registry@.len(),
                i < chart_count,
                catalog@[i as int] == def@,
                d <= device_count,
                commands_view(out@) == commands_view(out_mid) + chart_dimensions_spec(
                    def@,
                    registry@.subrange(0, d as int),
                ),
            decreases device_count - d,
        {
            let device = &registry.devices[d];
            let ghost devs_pre = registry@.subrange(0, d as int);
            let ghost devs_cur = registry@.subrange(0, d as int + 1);
            let ghost out_before = out@;
            proof {
                assert(devs_cur.drop_last() =~= devs_pre);
                assert(devs_cur.last() == registry@[d as int]);
                assert(registry@[d as int] == device@);
            }
            out.push(
                SinkCommand::DeclareDimension {
                    chart_id: def.chart_id.clone(),
                    dimension_id: dimension_id(&device.dimension_prefix, &def.chart_name),
                    display_name: device.display_name(),
                    divisor: 1,
                },
            );
            proof {
                assert(out@.last()@ =~= declare_dimension_spec(def@, device@));
                assert(commands_view(out@) =~= commands_view(out_before) + seq![
                    declare_dimension_spec(def@, device@),
                ]);
                assert(commands_view(out@) =~= commands_view(out_mid) + chart_dimensions_spec(
                    def@,
                    devs_cur,
                ));
            }
            d = d + 1;
        }
        proof {
            assert(registry@.subrange(0, device_count as int) =~= registry@);
            assert(commands_view(out@) =~= declarations_spec(defs_cur, registry@));
        }
        i = i + 1;
    }
    proof {
        assert(catalog@.subrange(0, chart_count as int) =~= catalog@);
    }
    out
}

/// Plan one round's emission pass from its normalized samples.
pub fn plan_round(round: &RoundResult, catalog: &MetricCatalog) -> (r: Vec<SinkCommand>)
    ensures
        commands_view(r@) == round_plan_spec(round@.values, catalog@),
{
    let chart_count = catalog.defs.len();
    let value_count = round.values.len();
    let mut out: Vec<SinkCommand> = Vec::new();
    let mut i: usize = 0;
    proof {
        assert(catalog@.subrange(0, 0) =~= Seq::<SeriesDefinitionView>::empty());
        assert(commands_view(out@) =~= round_plan_spec(round@.values, catalog@.subrange(0, 0)));
    }
    while i < chart_count
        invariant
            chart_count == catalog@.len(),
            value_count == round.values@.len(),
            i <= chart_count,
            commands_view(out@) == round_plan_spec(round@.values, catalog@.subrange(0, i as int)),
        decreases chart_count - i,
    {
        let def = &catalog.defs[i];
        let ghost defs_pre = catalog@.subrange(0, i as int);
        let ghost defs_cur = catalog@.subrange(0, i as int + 1);
        let ghost out_pre = out@;
        proof {
            assert(defs_cur.drop_last() =~= defs_pre);
            assert(defs_cur.last() == catalog@[i as int]);
            assert(catalog@[i as int] == def@);
        }
        let mut k: usize = 0;
        proof {
            assert(round@.values.subrange(0, 0) =~= Seq::<(DimensionKeyView, int)>::empty());
            assert(chart_feeds_spec(round@.values.subrange(0, 0), def@.chart_id) =~= Seq::<
                SinkCommandView,
            >::empty());
            assert(commands_view(out@) =~= commands_view(out_pre) + chart_feeds_spec(
                round@.values.subrange(0, 0),
                def@.chart_id,
            ));
        }
        while k < value_count
            invariant
                chart_count == catalog@.len(),
                value_count == round.values@.len(),
                i < chart_count,
                catalog@[i as int] == def@,
                k <= value_count,
                commands_view(out@) == commands_view(out_pre) + chart_feeds_spec(
                    round@.values.subrange(0, k as int),
                    def@.chart_id,
                ),
            decreases value_count - k,
        {
            let ghost vals_pre = round@.values.subrange(0, k as int);
            let ghost vals_cur = round@.values.subrange(0, k as int + 1);
            let ghost out_before = out@;
            proof {
                assert(vals_cur.drop_last() =~= vals_pre);
                assert(vals_cur.last() == round@.values[k as int]);
                assert(round@.values[k as int] == (round.values@[k as int].0@,
                round.values@[k as int].1 as int));
            }
            let entry = &round.values[k];
            if entry.0.chart_id == def.chart_id {
                out.push(
                    SinkCommand::Feed {
                        chart_id: def.chart_id.clone(),
                        dimension_id: entry.0.dimension_id.clone(),
                        value: entry.1,
                    },
                );
                proof {
                    assert(out@.last()@ =~= SinkCommandView::Feed {
                        chart_id: def@.chart_id,
                        dimension_id: round@.values[k as int].0.dimension_id,
                        value: round@.values[k as int].1,
                    });
                    assert(commands_view(out@) =~= commands_view(out_before) + seq![out@.last()@]);
                    assert(commands_view(out@) =~= commands_view(out_pre) + chart_feeds_spec(
                        vals_cur,
                        def@.chart_id,
                    ));
                }
            } else {
                proof {
                    assert(chart_feeds_spec(vals_cur, def@.chart_id) =~= chart_feeds_spec(
                        vals_pre,
                        def@.chart_id,
                    ));
                }
            }
            k = k + 1;
        }
        out.push(SinkCommand::Commit { chart_id: def.chart_id.clone() });
        proof {
            assert(round@.values.subrange(0, value_count as int) =~= round@.values);
            assert(out@.last()@ =~= SinkCommandView::Commit { chart_id: def@.chart_id });
            assert(commands_view(out@) =~= commands_view(out@.drop_last().map_values(
                |c: SinkCommand| c,
            )) + seq![out@.last()@]) by {
                assert(out@.drop_last().map_values(|c: SinkCommand| c) =~= out@.drop_last());
            }
            assert(commands_view(out@) =~= round_plan_spec(round@.values, defs_cur));
        }
        i = i + 1;
    }
    proof {
        assert(catalog@.subrange(0, chart_count as int) =~= catalog@);
    }
    out
}

/// How many commits a command list issues for a chart.
pub open spec fn commit_count(cmds: Seq<SinkCommandView>, chart_id: Seq<char>) -> int
    decreases cmds.len(),
{
    if cmds.len() == 0 {
        0
    } else {
        commit_count(cmds.drop_last(), chart_id) + match cmds.last() {
            SinkCommandView::Commit { chart_id: c } => if c == chart_id {
                1int
            } else {
                0int
            },
            _ => 0int,
        }
    }
}

/// How many catalog entries declare a chart.
pub open spec fn chart_count(defs: Seq<SeriesDefinitionView>, chart_id: Seq<char>) -> int
    decreases defs.len(),
{
    if defs.len() == 0 {
        0
    } else {
        chart_count(defs.drop_last(), chart_id) + if defs.last().chart_id == chart_id {
            1int
        } else {
            0int
        }
    }
}

/// Commit counting distributes over concatenation.
pub proof fn lemma_commit_count_concat(a: Seq<SinkCommandView>, b: Seq<SinkCommandView>, chart_id: Seq<char>)
    ensures
        commit_count(a + b, chart_id) == commit_count(a, chart_id) + commit_count(b, chart_id),
    decreases b.len(),
{
    if b.len() == 0 {
        assert(a + b =~= a);
    } else {
        lemma_commit_count_concat(a, b.drop_last(), chart_id);
        assert((a + b).drop_last() =~= a + b.drop_last());
        assert((a + b).last() == b.last());
    }
}

/// A chart's feed segment contains no commit.
pub proof fn lemma_feeds_have_no_commit(
    values: Seq<(DimensionKeyView, int)>,
    feed_chart: Seq<char>,
    chart_id: Seq<char>,
)
    ensures
        commit_count(chart_feeds_spec(values, feed_chart), chart_id) == 0,
    decreases values.len(),
{
    if values.len() > 0 {
        lemma_feeds_have_no_commit(values.drop_last(), feed_chart, chart_id);
        let seg = chart_feeds_spec(values, feed_chart);
        let pre = chart_feeds_spec(values.drop_last(), feed_chart);
        if values.last().0.chart_id == feed_chart {
            assert(seg.drop_last() =~= pre);
        } else {
            assert(seg =~= pre);
        }
    }
}

/// A round's plan commits each chart as often as the catalog declares it.
pub proof fn lemma_plan_commit_count(
    values: Seq<(DimensionKeyView, int)>,
    defs: Seq<SeriesDefinitionView>,
    chart_id: Seq<char>,
)
    ensures
        commit_count(round_plan_spec(values, defs), chart_id) == chart_count(defs, chart_id),
    decreases defs.len(),
{
    if defs.len() > 0 {
        lemma_plan_commit_count(values, defs.drop_last(), chart_id);
        let plan_pre = round_plan_spec(values, defs.drop_last());
        let feeds = chart_feeds_spec(values, defs.last().chart_id);
        let commit = seq![SinkCommandView::Commit { chart_id: defs.last().chart_id }];
        lemma_commit_count_concat(plan_pre, feeds, chart_id);
        lemma_commit_count_concat(plan_pre + feeds, commit, chart_id);
        lemma_feeds_have_no_commit(values, defs.last().chart_id, chart_id);
        assert(round_plan_spec(values, defs) == plan_pre + feeds + commit);
        assert(commit.drop_last() =~= Seq::<SinkCommandView>::empty());
        assert(commit_count(Seq::<SinkCommandView>::empty(), chart_id) == 0);
        assert(commit.last() == SinkCommandView::Commit { chart_id: defs.last().chart_id });
        assert(commit_count(commit, chart_id) == if defs.last().chart_id == chart_id {
            1int
        } else {
            0int
        });
        assert(chart_count(defs, chart_id) == chart_count(defs.drop_last(), chart_id)
            + if defs.last().chart_id == chart_id {
            1int
        } else {
            0int
        });
    }
}

/// A chart nobody declares is never counted.
pub proof fn lemma_chart_count_zero(defs: Seq<SeriesDefinitionView>, chart_id: Seq<char>)
    requires
        forall|j: int| 0 <= j < defs.len() ==> (#[trigger] defs[j]).chart_id != chart_id,
    ensures
        chart_count(defs, chart_id) == 0,
    decreases defs.len(),
{
    if defs.len() > 0 {
        assert(forall|j: int|
            0 <= j < defs.len() - 1 ==> (#[trigger] defs.drop_last()[j]).chart_id != chart_id);
        lemma_chart_count_zero(defs.drop_last(), chart_id);
    }
}

/// In a catalog with pairwise-distinct charts, each declared chart is
/// counted exactly once.
pub proof fn lemma_distinct_chart_count(defs: Seq<SeriesDefinitionView>, i: int)
    requires
        distinct_charts(defs),
        0 <= i < defs.len(),
    ensures
        chart_count(defs, defs[i].chart_id) == 1,
    decreases defs.len(),
{
    if i == defs.len() - 1 {
        assert(forall|j: int|
            0 <= j < defs.len() - 1 ==> (#[trigger] defs.drop_last()[j]).chart_id != defs[i].chart_id);
        lemma_chart_count_zero(defs.drop_last(), defs[i].chart_id);
    } else {
        assert(distinct_charts(defs.drop_last())) by {
            assert(forall|a: int, b: int|
                0 <= a < defs.len() - 1 && 0 <= b < defs.len() - 1 && a != b ==> (
                #[trigger] defs.drop_last()[a]).chart_id != (#[trigger] defs.drop_last()[b]).chart_id);
        }
        lemma_distinct_chart_count(defs.drop_last(), i);
        assert(defs.last().chart_id != defs[i].chart_id);
        assert(defs.drop_last()[i] == defs[i]);
    }
}

/// One round's plan issues exactly one commit per cataloged chart: after `n`
/// rounds the sink has seen exactly `n` commits for each chart, however many
/// devices failed in any of them.
pub proof fn lemma_one_commit_per_chart(
    values: Seq<(DimensionKeyView, int)>,
    defs: Seq<SeriesDefinitionView>,
    i: int,
)
    requires
        distinct_charts(defs),
        0 <= i < defs.len(),
    ensures
        commit_count(round_plan_spec(values, defs), defs[i].chart_id) == 1,
{
    lemma_plan_commit_count(values, defs, defs[i].chart_id);
    lemma_distinct_chart_count(defs, i);
}

/// An element of a sequence is still an element after elements follow it.
proof fn lemma_contains_in_prefix<T>(a: Seq<T>, b: Seq<T>, x: T)
    requires
        a.contains(x),
    ensures
        (a + b).contains(x),
{
    let k = choose|k: int| 0 <= k < a.len() && a[k] == x;
    assert((a + b)[k] == x);
}

/// An element of a sequence is still an element after elements precede it.
proof fn lemma_contains_in_suffix<T>(a: Seq<T>, b: Seq<T>, x: T)
    requires
        b.contains(x),
    ensures
        (a + b).contains(x),
{
    let k = choose|k: int| 0 <= k < b.len() && b[k] == x;
    assert((a + b)[a.len() + k] == x);
}

/// A chart's dimension pass declares the dimension of each device.
proof fn lemma_chart_dimensions_contain(
    def: SeriesDefinitionView,
    devices: Seq<DeviceView>,
    j: int,
)
    requires
        0 <= j < devices.len(),
    ensures
        chart_dimensions_spec(def, devices).contains(declare_dimension_spec(def, devices[j])),
    decreases devices.len(),
{
    let dims = chart_dimensions_spec(def, devices);
    if j == devices.len() - 1 {
        assert(dims[dims.len() - 1] == declare_dimension_spec(def, devices[j]));
    } else {
        lemma_chart_dimensions_contain(def, devices.drop_last(), j);
        assert(devices.drop_last()[j] == devices[j]);
        lemma_contains_in_prefix(
            chart_dimensions_spec(def, devices.drop_last()),
            seq![declare_dimension_spec(def, devices.last())],
            declare_dimension_spec(def, devices[j]),
        );
    }
}

/// The one-time declaration pass declares every device's dimension of every
/// cataloged chart.
pub proof fn lemma_declarations_contain_dimension(
    defs: Seq<SeriesDefinitionView>,
    devices: Seq<DeviceView>,
    i: int,
    j: int,
)
    requires
        0 <= i < defs.len(),
        0 <= j < devices.len(),
    ensures
        declarations_spec(defs, devices).contains(declare_dimension_spec(defs[i], devices[j])),
    decreases defs.len(),
{
    let pre = declarations_spec(defs.drop_last(), devices);
    let chart = seq![declare_chart_spec(defs.last())];
    let dims = chart_dimensions_spec(defs.last(), devices);
    if i == defs.len() - 1 {
        lemma_chart_dimensions_contain(defs[i], devices, j);
        lemma_contains_in_suffix(pre + chart, dims, declare_dimension_spec(defs[i], devices[j]));
    } else {
        lemma_declarations_contain_dimension(defs.drop_last(), devices, i, j);
        assert(defs.drop_last()[i] == defs[i]);
        lemma_contains_in_prefix(pre, chart, declare_dimension_spec(defs[i], devices[j]));
        lemma_contains_in_prefix(pre + chart, dims, declare_dimension_spec(defs[i], devices[j]));
    }
}

/// Every sample one device contributes is keyed by that device and some
/// catalog entry.
proof fn lemma_device_values_are_cataloged(
    fields: Seq<(Seq<char>, crate::poll::FieldValue)>,
    device: DeviceView,
    defs: Seq<SeriesDefinitionView>,
    k: int,
)
    requires
        0 <= k < device_values_spec(fields, device, defs).len(),
    ensures
        exists|j: int|
            0 <= j < defs.len() && (#[trigger] defs[j]).chart_id == device_values_spec(
                fields,
                device,
                defs,
            )[k].0.chart_id && device_values_spec(fields, device, defs)[k].0 == key_spec(
                device,
                defs[j],
            ),
    decreases defs.len(),
{
    let vals = device_values_spec(fields, device, defs);
    let pre = device_values_spec(fields, device, defs.drop_last());
    if k < pre.len() {
        lemma_device_values_are_cataloged(fields, device, defs.drop_last(), k);
        let j = choose|j: int|
            0 <= j < defs.drop_last().len() && (#[trigger] defs.drop_last()[j]).chart_id
                == pre[k].0.chart_id && pre[k].0 == key_spec(device, defs.drop_last()[j]);
        assert(vals[k] == pre[k]);
        assert(defs[j] == defs.drop_last()[j]);
        assert(defs[j].chart_id == vals[k].0.chart_id && vals[k].0 == key_spec(device, defs[j]));
    } else {
        let j = defs.len() - 1;
        assert(vals[k].0 == key_spec(device, defs[j]));
        assert(defs[j].chart_id == vals[k].0.chart_id && vals[k].0 == key_spec(device, defs[j]));
    }
}

/// Every sample of a round is keyed by one of the polled devices and one of
/// the catalog's entries.
proof fn lemma_round_values_are_cataloged(
    outcomes: Seq<Result<Reading, PollError>>,
    devices: Seq<DeviceView>,
    defs: Seq<SeriesDefinitionView>,
    k: int,
)
    requires
        outcomes.len() <= devices.len(),
        0 <= k < round_values_spec(outcomes, devices, defs).len(),
    ensures
        exists|i: int, j: int|
            0 <= i < outcomes.len() && 0 <= j < defs.len() && round_values_spec(
                outcomes,
                devices,
                defs,
            )[k].0 == key_spec(#[trigger] devices[i], #[trigger] defs[j]),
    decreases outcomes.len(),
{
    let vals = round_values_spec(outcomes, devices, defs);
    let pre = round_values_spec(outcomes.drop_last(), devices, defs);
    if k < pre.len() {
        lemma_round_values_are_cataloged(outcomes.drop_last(), devices, defs, k);
        assert(vals[k] == pre[k]);
    } else {
        let d = outcomes.len() - 1;
        match outcomes.last() {
            Result::Ok(reading) => {
                let seg = device_values_spec(reading@, devices[d], defs);
                assert(vals[k] == seg[k - pre.len()]);
                lemma_device_values_are_cataloged(reading@, devices[d], defs, k - pre.len());
                let j = choose|j: int|
                    0 <= j < defs.len() && (#[trigger] defs[j]).chart_id == seg[k
                        - pre.len()].0.chart_id && seg[k - pre.len()].0 == key_spec(
                        devices[d],
                        defs[j],
                    );
                assert(vals[k].0 == key_spec(devices[d], defs[j]));
            },
            Result::Err(_) => {
                assert(false);
            },
        }
    }
}

/// Declarations cover the feeds: every sample a round produces is addressed
/// to a chart and dimension that the one-time declaration pass declared, so
/// a replay of the declarations followed by any number of round plans never
/// feeds an undeclared dimension.
pub proof fn lemma_feeds_are_declared(
    outcomes: Seq<Result<Reading, PollError>>,
    devices: Seq<DeviceView>,
    defs: Seq<SeriesDefinitionView>,
    k: int,
)
    requires
        outcomes.len() <= devices.len(),
        0 <= k < round_values_spec(outcomes, devices, defs).len(),
    ensures
        exists|d: int|
            0 <= d < declarations_spec(defs, devices).len() && ((#[trigger] declarations_spec(
                defs,
                devices,
            )[d]) matches SinkCommandView::DeclareDimension { chart_id, dimension_id, .. }
                && chart_id == round_values_spec(outcomes, devices, defs)[k].0.chart_id
                && dimension_id == round_values_spec(outcomes, devices, defs)[k].0.dimension_id),
{
    let vals = round_values_spec(outcomes, devices, defs);
    lemma_round_values_are_cataloged(outcomes, devices, defs, k);
    let (i, j) = choose|i: int, j: int|
        0 <= i < outcomes.len() && 0 <= j < defs.len() && vals[k].0 == key_spec(
            #[trigger] devices[i],
            #[trigger] defs[j],
        );
    lemma_declarations_contain_dimension(defs, devices, j, i);
    let decls = declarations_spec(defs, devices);
    let target = declare_dimension_spec(defs[j], devices[i]);
    let d = choose|d: int| 0 <= d < decls.len() && decls[d] == target;
    assert(decls[d] matches SinkCommandView::DeclareDimension { chart_id, dimension_id, .. }
        && chart_id == vals[k].0.chart_id && dimension_id == vals[k].0.dimension_id);
}

/// Every feed in a chart's feed segment is a feed of that chart.
pub proof fn lemma_feeds_shape(values: Seq<(DimensionKeyView, int)>, chart_id: Seq<char>)
    ensures
        forall|k: int|
            0 <= k < chart_feeds_spec(values, chart_id).len() ==> ((#[trigger] chart_feeds_spec(
                values,
                chart_id,
            )[k]) matches SinkCommandView::Feed { chart_id: c, .. } && c == chart_id),
    decreases values.len(),
{
    if values.len() > 0 {
        lemma_feeds_shape(values.drop_last(), chart_id);
        let seg = chart_feeds_spec(values, chart_id);
        let pre = chart_feeds_spec(values.drop_last(), chart_id);
        if values.last().0.chart_id == chart_id {
            assert(forall|k: int| 0 <= k < pre.len() ==> seg[k] == pre[k]);
        } else {
            assert(seg =~= pre);
        }
    }
}

/// Ordering discipline of a round's plan: every feed for a chart comes
/// before a commit of that same chart — a chart is flushed only after all of
/// its samples for the round were fed.
pub proof fn lemma_feed_precedes_commit(
    values: Seq<(DimensionKeyView, int)>,
    defs: Seq<SeriesDefinitionView>,
    k: int,
)
    requires
        0 <= k < round_plan_spec(values, defs).len(),
        round_plan_spec(values, defs)[k] is Feed,
    ensures
        exists|k2: int|
            k < k2 < round_plan_spec(values, defs).len() && ((#[trigger] round_plan_spec(
                values,
                defs,
            )[k2]) matches SinkCommandView::Commit { chart_id: c } && c == round_plan_spec(
                values,
                defs,
            )[k]->Feed_chart_id),
    decreases defs.len(),
{
    let plan = round_plan_spec(values, defs);
    if defs.len() > 0 {
        let plan_pre = round_plan_spec(values, defs.drop_last());
        let feeds = chart_feeds_spec(values, defs.last().chart_id);
        let commit = seq![SinkCommandView::Commit { chart_id: defs.last().chart_id }];
        assert(plan =~= plan_pre + feeds + commit);
        if k < plan_pre.len() {
            lemma_feed_precedes_commit(values, defs.drop_last(), k);
            let k2 = choose|k2: int|
                k < k2 < plan_pre.len() && ((#[trigger] plan_pre[k2]) matches SinkCommandView::Commit {
                    chart_id: c,
                } && c == plan_pre[k]->Feed_chart_id);
            assert(plan[k2] == plan_pre[k2]);
            assert(plan[k] == plan_pre[k]);
        } else if k < plan_pre.len() + feeds.len() {
            lemma_feeds_shape(values, defs.last().chart_id);
            assert(plan[k] == feeds[k - plan_pre.len()]);
            let k2 = plan.len() - 1;
            assert(plan[k2] == commit[0]);
            assert(k < k2 < plan.len() && (plan[k2] matches SinkCommandView::Commit { chart_id: c }
                && c == plan[k]->Feed_chart_id));
        } else {
            assert(plan[k] == commit[k - plan_pre.len() - feeds.len()]);
            assert(false);
        }
    }
}

} // verus!
