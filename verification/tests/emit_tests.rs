use hs110_plugin::catalog::standard_catalog;
use hs110_plugin::emit::SinkCommand;
use hs110_plugin::emit::plan_declarations;
use hs110_plugin::emit::plan_round;
use hs110_plugin::poll::FieldValue;
use hs110_plugin::poll::PollError;
use hs110_plugin::poll::Reading;
use hs110_plugin::registry::DeviceRegistry;
use hs110_plugin::round::normalize;

fn reading(fields: &[(&str, FieldValue)]) -> Reading {
    let mut r = Reading::new();
    for (name, value) in fields {
        r.push_field(String::from(*name), *value);
    }
    r
}

fn full_reading() -> Reading {
    reading(&[
        ("power_mw", FieldValue::Numeric(1500)),
        ("voltage_mv", FieldValue::Numeric(230_000)),
        ("current_ma", FieldValue::Numeric(6_500)),
        ("total_wh", FieldValue::Numeric(12)),
    ])
}

fn two_device_registry() -> DeviceRegistry {
    DeviceRegistry::build(
        vec![String::from("10.0.0.1"), String::from("10.0.0.2")],
        vec![Some(String::from("plug")), None],
    )
    .unwrap()
}

#[test]
fn declarations_follow_catalog_then_device_order() {
    let registry = two_device_registry();
    let catalog = standard_catalog();
    let plan = plan_declarations(&catalog, &registry);
    // 4 charts, each followed by one dimension per device.
    assert_eq!(plan.len(), 12);
    match &plan[0] {
        SinkCommand::DeclareChart { chart_id, chart_name, kind, priority, .. } => {
            assert_eq!(chart_id, "Smartplugs.power");
            assert_eq!(chart_name, "Power");
            assert_eq!(*kind, hs110_plugin::catalog::SeriesKind::Area);
            assert_eq!(*priority, 90000);
        },
        other => panic!("expected a chart declaration, got {:?}", other),
    }
    assert_eq!(
        plan[1],
        SinkCommand::DeclareDimension {
            chart_id: String::from("Smartplugs.power"),
            dimension_id: String::from("10_0_0_1_Power"),
            display_name: String::from("plug (10.0.0.1)"),
            divisor: 1,
        }
    );
    assert_eq!(
        plan[2],
        SinkCommand::DeclareDimension {
            chart_id: String::from("Smartplugs.power"),
            dimension_id: String::from("10_0_0_2_Power"),
            display_name: String::from("<unknown> (10.0.0.2)"),
            divisor: 1,
        }
    );
    match &plan[3] {
        SinkCommand::DeclareChart { chart_id, .. } => assert_eq!(chart_id, "Smartplugs.voltage"),
        other => panic!("expected a chart declaration, got {:?}", other),
    }
}

#[test]
fn round_plan_feeds_each_chart_then_commits_it() {
    let registry = two_device_registry();
    let catalog = standard_catalog();
    let outcomes = vec![Ok(full_reading()), Err(PollError::Timeout)];
    let round = normalize(&outcomes, &registry, &catalog);
    let plan = plan_round(&round, &catalog);
    // One healthy device: one feed plus one commit per chart.
    assert_eq!(plan.len(), 8);
    assert_eq!(
        plan[0],
        SinkCommand::Feed {
            chart_id: String::from("Smartplugs.power"),
            dimension_id: String::from("10_0_0_1_Power"),
            value: 1,
        }
    );
    assert_eq!(plan[1], SinkCommand::Commit { chart_id: String::from("Smartplugs.power") });
    assert_eq!(
        plan[2],
        SinkCommand::Feed {
            chart_id: String::from("Smartplugs.voltage"),
            dimension_id: String::from("10_0_0_1_Voltage"),
            value: 230,
        }
    );
    assert_eq!(plan[3], SinkCommand::Commit { chart_id: String::from("Smartplugs.voltage") });
    assert_eq!(
        plan[4],
        SinkCommand::Feed {
            chart_id: String::from("Smartplugs.current"),
            dimension_id: String::from("10_0_0_1_Current"),
            value: 6,
        }
    );
    assert_eq!(
        plan[6],
        SinkCommand::Feed {
        chart_id: String::from("Smartplugs.total-consumption"),
        dimension_id: String::from("10_0_0_1_Total"),
        value: 12,
    });
    assert_eq!(
        plan[7],
        SinkCommand::Commit { chart_id: String::from("Smartplugs.total-consumption") }
    );
}

#[test]
fn every_feed_precedes_its_chart_commit() {
    let registry = two_device_registry();
    let catalog = standard_catalog();
    let outcomes = vec![Ok(full_reading()), Ok(full_reading())];
    let round = normalize(&outcomes, &registry, &catalog);
    let plan = plan_round(&round, &catalog);
    for (k, cmd) in plan.iter().enumerate() {
        if let SinkCommand::Feed { chart_id, .. } = cmd {
            let commit_at = plan
                .iter()
                .position(|c| matches!(c, SinkCommand::Commit { chart_id: cc } if cc == chart_id))
                .unwrap();
            assert!(k < commit_at, "feed at {} after its commit at {}", k, commit_at);
        }
    }
}

#[test]
fn rounds_with_a_permanently_failing_device() {
    // Three devices, one always times out.  After n rounds each chart was
    // committed exactly n times, the two healthy devices fed values in every
    // round, and the failing device contributed one warning per round and no
    // values.
    let registry = DeviceRegistry::build(
        vec![String::from("10.0.0.1"), String::from("10.0.0.2"), String::from("10.0.0.3")],
        vec![None, None, None],
    )
    .unwrap();
    let catalog = standard_catalog();
    let rounds = 5;
    let mut commits_per_chart = std::collections::BTreeMap::new();
    for _ in 0..rounds {
        let outcomes = vec![
            Ok(full_reading()),
            Err(PollError::Timeout),
            Ok(full_reading()),
        ];
        let round = normalize(&outcomes, &registry, &catalog);
        // Two healthy devices, four series each.
        assert_eq!(round.values.len(), 8);
        // Exactly one warning, for the failing device.
        assert_eq!(round.warnings.len(), 1);
        assert_eq!(
            round.warnings[0],
            hs110_plugin::round::Warning::DeviceFailed { device: 1, error: PollError::Timeout }
        );
        assert!(round.values.iter().all(|(key, _)| !key.dimension_id.starts_with("10_0_0_2")));
        let plan = plan_round(&round, &catalog);
        for cmd in plan {
            if let SinkCommand::Commit { chart_id } = cmd {
                *commits_per_chart.entry(chart_id).or_insert(0u32) += 1;
            }
        }
    }
    assert_eq!(commits_per_chart.len(), 4);
    for (_, n) in commits_per_chart {
        assert_eq!(n, rounds);
    }
}
