//! Round processor: normalize one tick's poll outcomes into per-dimension
//! integer samples and warnings.
//!
//! For every successful reading and every catalog entry, the source field is
//! looked up in the reading.  A present numeric field becomes the raw value
//! divided by the entry's divisor, truncated toward zero; a present but
//! non-numeric field becomes the value 0 (so one malformed field does not
//! remove the whole series from the round) plus a warning; a missing field
//! yields no sample at all for that dimension this tick, plus a warning that
//! is distinguishable from the non-numeric one.  A device-level failure
//! yields one warning and no samples for that device, and leaves every other
//! device's samples untouched.  No error propagates past normalization.

use crate::catalog::MetricCatalog;
use crate::catalog::SeriesDefinitionView;
use crate::poll::FieldValue;
use crate::poll::PollError;
use crate::poll::Reading;
use crate::poll::lookup_spec;
use crate::registry::Device;
use crate::registry::DeviceRegistry;
use crate::registry::DeviceView;
use vstd::prelude::*;
use vstd::string::StringExecFns;

verus! {

/// Ghost image of a dimension key.
#[verifier::ext_equal]
pub ghost struct DimensionKeyView {
    pub chart_id: Seq<char>,
    pub dimension_id: Seq<char>,
}

/// Address of one sample at the sink: the chart and, within it, the
/// device-specific dimension.  The dimension identifier starts with the
/// device's prefix, which keeps it globally unique across devices feeding
/// the same chart.
#[derive(Clone, Debug, PartialEq, Eq)]
pub struct DimensionKey {
    pub chart_id: String,
    pub dimension_id: String,
}

impl View for DimensionKey {
    type V = DimensionKeyView;

    open spec fn view(&self) -> DimensionKeyView {
        DimensionKeyView { chart_id: self.chart_id@, dimension_id: self.dimension_id@ }
    }
}

/// The dimension identifier built for a device prefix and a chart name.
pub open spec fn dimension_id_spec(prefix: Seq<char>, chart_name: Seq<char>) -> Seq<char> {
    prefix + "_"@ + chart_name
}

/// Join a device prefix and a chart name into a dimension identifier.
pub fn dimension_id(prefix: &String, chart_name: &String) -> (r: String)
    ensures
        r@ == dimension_id_spec(prefix@, chart_name@),
{
    let mut r = prefix.clone();
    r.append("_");
    r.append(chart_name.as_str());
    r
}

/// The key under which a given device feeds a given series.
pub open spec fn key_spec(device: DeviceView, def: SeriesDefinitionView) -> DimensionKeyView {
    DimensionKeyView {
        chart_id: def.chart_id,
        dimension_id: dimension_id_spec(device.dimension_prefix, def.chart_name),
    }
}

/// Integer division truncated toward zero.
pub open spec fn trunc_div(raw: int, divisor: int) -> int {
    if raw >= 0 {
        raw / divisor
    } else {
        -((-raw) / divisor)
    }
}

/// The sample a reading yields for one catalog entry: the scaled value for a
/// numeric field, 0 for a present but non-numeric field, nothing for a
/// missing field.
pub open spec fn emitted_spec(
    fields: Seq<(Seq<char>, FieldValue)>,
    def: SeriesDefinitionView,
) -> Option<int> {
    match lookup_spec(fields, def.source_field) {
        Option::None => Option::None,
        Option::Some(FieldValue::Unparseable) => Option::Some(0),
        Option::Some(FieldValue::Numeric(raw)) => Option::Some(
            trunc_div(raw as int, def.scale_divisor as int),
        ),
    }
}

/// Divide a raw reading by its series' divisor, truncating toward zero.
pub fn scaled_value(raw: i64, divisor: u32) -> (v: i64)
    requires
        divisor >= 1,
    ensures
        v as int == trunc_div(raw as int, divisor as int),
{
    if raw >= 0 {
        ((raw as u64) / (divisor as u64)) as i64
    } else if raw == i64::MIN {
        let q: u64 = 9223372036854775808u64 / (divisor as u64);
        if q == 9223372036854775808u64 {
            i64::MIN
        } else {
            -(q as i64)
        }
    } else {
        let q: u64 = ((-raw) as u64) / (divisor as u64);
        -(q as i64)
    }
}

/// One operator-facing warning gathered during a round.  The three variants
/// keep the three round-local failure shapes distinguishable in logs: a
/// whole device failing, a field missing from a reading, and a field present
/// but not numeric.
#[derive(Clone, Debug, PartialEq, Eq)]
pub enum Warning {
    DeviceFailed { device: usize, error: PollError },
    FieldMissing { device: usize, field: String },
    FieldUnparseable { device: usize, field: String },
}

/// Ghost image of a warning.
#[verifier::ext_equal]
pub ghost enum WarningView {
    DeviceFailed { device: int, error: PollError },
    FieldMissing { device: int, field: Seq<char> },
    FieldUnparseable { device: int, field: Seq<char> },
}

impl View for Warning {
    type V = WarningView;

    open spec fn view(&self) -> WarningView {
        match self {
            Warning::DeviceFailed { device, error } => WarningView::DeviceFailed {
                device: *device as int,
                error: *error,
            },
            Warning::FieldMissing { device, field } => WarningView::FieldMissing {
                device: *device as int,
                field: field@,
            },
            Warning::FieldUnparseable { device, field } => WarningView::FieldUnparseable {
                device: *device as int,
                field: field@,
            },
        }
    }
}

/// Samples one successful reading contributes for the catalog prefix `defs`,
/// in catalog order.
pub open spec fn device_values_spec(
    fields: Seq<(Seq<char>, FieldValue)>,
    device: DeviceView,
    defs: Seq<SeriesDefinitionView>,
) -> Seq<(DimensionKeyView, int)>
    decreases defs.len(),
{
    if defs.len() == 0 {
        Seq::empty()
    } else {
        device_values_spec(fields, device, defs.drop_last()) + match emitted_spec(
            fields,
            defs.last(),
        ) {
            Option::Some(v) => seq![(key_spec(device, defs.last()), v)],
            Option::None => Seq::empty(),
        }
    }
}

/// Warnings one successful reading contributes for the catalog prefix
/// `defs`: one per missing field and one per present-but-non-numeric field,
/// in catalog order.
pub open spec fn device_warnings_spec(
    fields: Seq<(Seq<char>, FieldValue)>,
    device_index: int,
    defs: Seq<SeriesDefinitionView>,
) -> Seq<WarningView>
    decreases defs.len(),
{
    if defs.len() == 0 {
        Seq::empty()
    } else {
        device_warnings_spec(fields, device_index, defs.drop_last()) + match lookup_spec(
            fields,
            defs.last().source_field,
        ) {
            Option::None => seq![
                WarningView::FieldMissing { device: device_index, field: defs.last().source_field },
            ],
            Option::Some(FieldValue::Unparseable) => seq![
                WarningView::FieldUnparseable {
                    device: device_index,
                    field: defs.last().source_field,
                },
            ],
            Option::Some(FieldValue::Numeric(_)) => Seq::empty(),
        }
    }
}

/// Samples one poll outcome contributes: a failed device contributes none.
pub open spec fn outcome_values_spec(
    outcome: Result<Reading, PollError>,
    device: DeviceView,
    defs: Seq<SeriesDefinitionView>,
) -> Seq<(DimensionKeyView, int)> {
    match outcome {
        Result::Ok(reading) => device_values_spec(reading@, device, defs),
        Result::Err(_) => Seq::empty(),
    }
}

/// Warnings one poll outcome contributes: a failed device contributes
/// exactly one device-level warning and nothing else.
pub open spec fn outcome_warnings_spec(
    outcome: Result<Reading, PollError>,
    device_index: int,
    defs: Seq<SeriesDefinitionView>,
) -> Seq<WarningView> {
    match outcome {
        Result::Ok(reading) => device_warnings_spec(reading@, device_index, defs),
        Result::Err(e) => seq![WarningView::DeviceFailed { device: device_index, error: e }],
    }
}

/// All samples of one round, devices in poll order, series in catalog order.
pub open spec fn round_values_spec(
    outcomes: Seq<Result<Reading, PollError>>,
    devices: Seq<DeviceView>,
    defs: Seq<SeriesDefinitionView>,
) -> Seq<(DimensionKeyView, int)>
    decreases outcomes.len(),
{
    if outcomes.len() == 0 {
        Seq::empty()
    } else {
        round_values_spec(outcomes.drop_last(), devices, defs) + outcome_values_spec(
            outcomes.last(),
            devices[outcomes.len() - 1],
            defs,
        )
    }
}

/// All warnings of one round, devices in poll order.
pub open spec fn round_warnings_spec(
    outcomes: Seq<Result<Reading, PollError>>,
    defs: Seq<SeriesDefinitionView>,
) -> Seq<WarningView>
    decreases outcomes.len(),
{
    if outcomes.len() == 0 {
        Seq::empty()
    } else {
        round_warnings_spec(outcomes.drop_last(), defs) + outcome_warnings_spec(
            outcomes.last(),
            outcomes.len() - 1,
            defs,
        )
    }
}

/// View of a sample list.
pub open spec fn values_view(v: Seq<(DimensionKey, i64)>) -> Seq<(DimensionKeyView, int)> {
    v.map_values(|p: (DimensionKey, i64)| (p.0@, p.1 as int))
}

/// View of a warning list.
pub open spec fn warnings_view(w: Seq<Warning>) -> Seq<WarningView> {
    w.map_values(|x: Warning| x@)
}

/// Ghost image of a round's result.
#[verifier::ext_equal]
pub ghost struct RoundResultView {
    pub values: Seq<(DimensionKeyView, int)>,
    pub warnings: Seq<WarningView>,
}

/// Everything one tick produced: the flat list of samples to feed to the
/// sink, and the warnings gathered on the way.  Transient — it lives only
/// from normalization to emission.
pub struct RoundResult {
    pub values: Vec<(DimensionKey, i64)>,
    pub warnings: Vec<Warning>,
}

impl View for RoundResult {
    type V = RoundResultView;

    open spec fn view(&self) -> RoundResultView {
        RoundResultView { values: values_view(self.values@), warnings: warnings_view(self.warnings@) }
    }
}

/// A sequence extended by one element still contains all earlier elements.
proof fn lemma_contains_after_push<T>(s: Seq<T>, t: Seq<T>, x: T)
    requires
        s.contains(x),
    ensures
        (s + t).contains(x),
{
    let k = choose|k: int| 0 <= k < s.len() && s[k] == x;
    assert((s + t)[k] == x);
}

/// The two degraded field cases stay apart, for every reading and every
/// catalog entry: a missing source field yields no sample at all for that
/// entry's dimension this tick, and leaves a field-missing warning; a source
/// field that is present but not numeric yields the sample 0 for that
/// dimension, and leaves a field-unparseable warning.
pub proof fn lemma_missing_vs_unparseable(
    fields: Seq<(Seq<char>, FieldValue)>,
    device_index: int,
    defs: Seq<SeriesDefinitionView>,
    i: int,
)
    requires
        0 <= i < defs.len(),
    ensures
        lookup_spec(fields, defs[i].source_field) is None ==> (emitted_spec(fields, defs[i])
            is None && device_warnings_spec(fields, device_index, defs).contains(
            WarningView::FieldMissing { device: device_index, field: defs[i].source_field },
        )),
        lookup_spec(fields, defs[i].source_field) == Option::Some(FieldValue::Unparseable) ==> (
        emitted_spec(fields, defs[i]) == Option::Some(0int) && device_warnings_spec(
            fields,
            device_index,
            defs,
        ).contains(
            WarningView::FieldUnparseable { device: device_index, field: defs[i].source_field },
        )),
    decreases defs.len(),
{
    let warns = device_warnings_spec(fields, device_index, defs);
    let pre = device_warnings_spec(fields, device_index, defs.drop_last());
    if i == defs.len() - 1 {
        match lookup_spec(fields, defs[i].source_field) {
            Option::None => {
                let w = WarningView::FieldMissing {
                    device: device_index,
                    field: defs[i].source_field,
                };
                assert(warns[warns.len() - 1] == w);
                assert(warns.contains(w));
            },
            Option::Some(FieldValue::Unparseable) => {
                let w = WarningView::FieldUnparseable {
                    device: device_index,
                    field: defs[i].source_field,
                };
                assert(warns[warns.len() - 1] == w);
                assert(warns.contains(w));
            },
            Option::Some(FieldValue::Numeric(_)) => {},
        }
    } else {
        lemma_missing_vs_unparseable(fields, device_index, defs.drop_last(), i);
        assert(defs.drop_last()[i] == defs[i]);
        match lookup_spec(fields, defs[i].source_field) {
            Option::None => {
                let w = WarningView::FieldMissing {
                    device: device_index,
                    field: defs[i].source_field,
                };
                lemma_contains_after_push(pre, warns.subrange(pre.len() as int, warns.len() as int), w);
                assert(pre + warns.subrange(pre.len() as int, warns.len() as int) =~= warns);
            },
            Option::Some(FieldValue::Unparseable) => {
                let w = WarningView::FieldUnparseable {
                    device: device_index,
                    field: defs[i].source_field,
                };
                lemma_contains_after_push(pre, warns.subrange(pre.len() as int, warns.len() as int), w);
                assert(pre + warns.subrange(pre.len() as int, warns.len() as int) =~= warns);
            },
            Option::Some(FieldValue::Numeric(_)) => {},
        }
    }
}

/// Normalize one device's successful reading against the whole catalog,
/// appending its samples and warnings.
fn normalize_device(
    reading: &Reading,
    device: &Device,
    device_index: usize,
    catalog: &MetricCatalog,
    values: &mut Vec<(DimensionKey, i64)>,
    warnings: &mut Vec<Warning>,
)
    requires
        catalog.wf(),
    ensures
        values_view(final(values)@) == values_view(old(values)@) + device_values_spec(
            reading@,
            device@,
            catalog@,
        ),
        warnings_view(final(warnings)@) == warnings_view(old(warnings)@) + device_warnings_spec(
            reading@,
            device_index as int,
            catalog@,
        ),
{
    let series_count = catalog.defs.len();
    let mut j: usize = 0;
    proof {
        assert(catalog@.subrange(0, 0) =~= Seq::<SeriesDefinitionView>::empty());
        assert(values_view(values@) =~= values_view(values@) + device_values_spec(
            reading@,
            device@,
            catalog@.subrange(0, 0),
        ));
        assert(warnings_view(warnings@) =~= warnings_view(warnings@) + device_warnings_spec(
            reading@,
            device_index as int,
            catalog@.subrange(0, 0),
        ));
    }
    while j < series_count
        invariant
            series_count == catalog@.len(),
            catalog.wf(),
            j <= series_count,
            values_view(values@) == values_view(old(values)@) + device_values_spec(
                reading@,
                device@,
                catalog@.subrange(0, j as int),
            ),
            warnings_view(warnings@) == warnings_view(old(warnings)@) + device_warnings_spec(
                reading@,
                device_index as int,
                catalog@.subrange(0, j as int),
            ),
        decreases series_count - j,
    {
        let def = &catalog.defs[j];
        let ghost defs_pre = catalog@.subrange(0, j as int);
        let ghost defs_cur = catalog@.subrange(0, j as int + 1);
        let ghost values_pre = values@;
        let ghost warnings_pre = warnings@;
        proof {
            assert(defs_cur.drop_last() =~= defs_pre);
            assert(defs_cur.last() == catalog@[j as int]);
            assert(catalog@[j as int] == def@);
        }
        match reading.get(&def.source_field) {
            Option::Some(FieldValue::Numeric(raw)) => {
                proof {
                    assert(def@.scale_divisor == crate::catalog::milli_divisor_spec(
                        def@.source_field,
                    ));
                }
                let v = scaled_value(raw, def.scale_divisor);
                let key = DimensionKey {
                    chart_id: def.chart_id.clone(),
                    dimension_id: dimension_id(&device.dimension_prefix, &def.chart_name),
                };
                proof {
                    assert(key@ =~= key_spec(device@, def@));
                }
                values.push((key, v));
                proof {
                    assert(values_view(values@) =~= values_view(values_pre) + seq![
                        (key_spec(device@, def@), v as int),
                    ]);
                    assert(device_values_spec(reading@, device@, defs_cur) == device_values_spec(
                        reading@,
                        device@,
                        defs_pre,
                    ) + seq![(key_spec(device@, def@), v as int)]);
                    assert(values_view(values@) =~= values_view(old(values)@) + device_values_spec(
                        reading@,
                        device@,
                        defs_cur,
                    ));
                    assert(device_warnings_spec(reading@, device_index as int, defs_cur)
                        =~= device_warnings_spec(reading@, device_index as int, defs_pre));
                }
            },
            Option::Some(FieldValue::Unparseable) => {
                let key = DimensionKey {
                    chart_id: def.chart_id.clone(),
                    dimension_id: dimension_id(&device.dimension_prefix, &def.chart_name),
                };
                proof {
                    assert(key@ =~= key_spec(device@, def@));
                }
                values.push((key, 0));
                warnings.push(
                    Warning::FieldUnparseable { device: device_index, field: def.source_field.clone() },
                );
                proof {
                    assert(values_view(values@) =~= values_view(values_pre) + seq![
                        (key_spec(device@, def@), 0int),
                    ]);
                    assert(values_view(values@) =~= values_view(old(values)@) + device_values_spec(
                        reading@,
                        device@,
                        defs_cur,
                    ));
                    assert(warnings_view(warnings@) =~= warnings_view(warnings_pre) + seq![
                        WarningView::FieldUnparseable {
                            device: device_index as int,
                            field: def@.source_field,
                        },
                    ]);
                    assert(warnings_view(warnings@) =~= warnings_view(old(warnings)@)
                        + device_warnings_spec(reading@, device_index as int, defs_cur));
                }
            },
            Option::None => {
                warnings.push(
                    Warning::FieldMissing { device: device_index, field: def.source_field.clone() },
                );
                proof {
                    assert(device_values_spec(reading@, device@, defs_cur) =~= device_values_spec(
                        reading@,
                        device@,
                        defs_pre,
                    ));
                    assert(warnings_view(warnings@) =~= warnings_view(warnings_pre) + seq![
                        WarningView::FieldMissing {
                            device: device_index as int,
                            field: def@.source_field,
                        },
                    ]);
                    assert(warnings_view(warnings@) =~= warnings_view(old(warnings)@)
                        + device_warnings_spec(reading@, device_index as int, defs_cur));
                }
            },
        }
        j = j + 1;
    }
    proof {
        assert(catalog@.subrange(0, series_count as int) =~= catalog@);
    }
}

/// Normalize one round: exactly the samples and warnings given by
/// [`round_values_spec`] and [`round_warnings_spec`], one outcome per
/// device.  Every per-device and per-field error ends here, as a warning.
pub fn normalize(
    outcomes: &Vec<Result<Reading, PollError>>,
    registry: &DeviceRegistry,
    catalog: &MetricCatalog,
) -> (r: RoundResult)
    requires
        outcomes@.len() == registry@.len(),
        catalog.wf(),
    ensures
        r@.values == round_values_spec(outcomes@, registry@, catalog@),
        r@.warnings == round_warnings_spec(outcomes@, catalog@),
{
    let device_count = outcomes.len();
    let mut values: Vec<(DimensionKey, i64)> = Vec::new();
    let mut warnings: Vec<Warning> = Vec::new();
    let mut i: usize = 0;
    proof {
        assert(outcomes@.subrange(0, 0) =~= Seq::<Result<Reading, PollError>>::empty());
        assert(values_view(values@) =~= Seq::<(DimensionKeyView, int)>::empty());
        assert(warnings_view(warnings@) =~= Seq::<WarningView>::empty());
    }
    while i < device_count
        invariant
            device_count == outcomes@.len(),
            outcomes@.len() == registry@.len(),
            catalog.wf(),
            i <= device_count,
            values_view(values@) == round_values_spec(
                outcomes@.subrange(0, i as int),
                registry@,
                catalog@,
            ),
            warnings_view(warnings@) == round_warnings_spec(
                outcomes@.subrange(0, i as int),
                catalog@,
            ),
        decreases device_count - i,
    {
        let ghost pre = outcomes@.subrange(0, i as int);
        let ghost cur = outcomes@.subrange(0, i as int + 1);
        let ghost values_pre = values@;
        let ghost warnings_pre = warnings@;
        proof {
            assert(cur.drop_last() =~= pre);
            assert(cur.last() == outcomes@[i as int]);
            assert(registry@[i as int] == registry.devices@[i as int]@);
        }
        match &outcomes[i] {
            Result::Err(e) => {
                warnings.push(Warning::DeviceFailed { device: i, error: *e });
                proof {
                    assert(warnings_view(warnings@) =~= warnings_view(warnings_pre) + seq![
                        WarningView::DeviceFailed { device: i as int, error: *e },
                    ]);
                    assert(outcome_warnings_spec(outcomes@[i as int], i as int, catalog@) =~= seq![
                        WarningView::DeviceFailed { device: i as int, error: *e },
                    ]);
                    assert(warnings_view(warnings@) =~= round_warnings_spec(cur, catalog@));
                    assert(values_view(values@) =~= round_values_spec(cur, registry@, catalog@));
                }
            },
            Result::Ok(reading) => {
                normalize_device(reading, &registry.devices[i], i, catalog, &mut values, &mut warnings);
                proof {
                    assert(outcome_values_spec(outcomes@[i as int], registry@[i as int], catalog@)
                        == device_values_spec(reading@, registry@[i as int], catalog@));
                    assert(registry.devices@[i as int]@ == registry@[i as int]);
                    assert(values_view(values@) =~= round_values_spec(cur, registry@, catalog@));
                    assert(warnings_view(warnings@) =~= round_warnings_spec(cur, catalog@));
                }
            },
        }
        i = i + 1;
    }
    proof {
        assert(outcomes@.subrange(0, device_count as int) =~= outcomes@);
    }
    RoundResult { values, warnings }
}

} // verus!
