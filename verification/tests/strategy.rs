use update_strategy::config::{
    ConfigError, FleetLockInput, PeriodicInput, PeriodicWindow, UpdateInput, MINUTES_PER_WEEK,
};
use update_strategy::identity::Identity;
use update_strategy::strategy::immediate::StrategyImmediate;
use update_strategy::strategy::{fail_closed, QueryError, QueryStep, UpdateStrategy};

fn identity() -> Identity {
    Identity {
        group: "workers".to_string(),
        node_uuid: "node-01".to_string(),
    }
}

fn input(strategy: &str) -> UpdateInput {
    UpdateInput {
        strategy: strategy.to_string(),
        fleet_lock: FleetLockInput {
            base_url: "https://coordinator.example.com".to_string(),
        },
        periodic: PeriodicInput {
            windows: vec![PeriodicWindow {
                start_minute: 0,
                length_minutes: 60,
            }],
        },
    }
}

/// Settle a query that the policy must answer locally.
fn settle(step: QueryStep) -> bool {
    match step {
        QueryStep::Ready(raw) => fail_closed(raw).granted,
        _ => panic!("expected a locally answered query"),
    }
}

#[test]
fn default() {
    let default = StrategyImmediate::default();
    assert_eq!(default.check, true);
    assert_eq!(default.finalize, true);
}

#[test]
fn report_steady() {
    let default = StrategyImmediate::default();
    let steady = default.report_steady().unwrap();
    assert_eq!(steady, true);
}

#[test]
fn immediate_flags_all_combinations() {
    for &check in &[false, true] {
        for &finalize in &[false, true] {
            let strat = StrategyImmediate { check, finalize };
            assert_eq!(strat.can_check_and_fetch().unwrap(), check);
            assert_eq!(strat.can_finalize().unwrap(), finalize);
            // no drift across repeated calls
            assert_eq!(strat.can_check_and_fetch().unwrap(), check);
            assert_eq!(strat.can_finalize().unwrap(), finalize);
        }
    }
}

#[test]
fn steady_unconditional_all_combinations() {
    for &check in &[false, true] {
        for &finalize in &[false, true] {
            let strat = StrategyImmediate { check, finalize };
            assert_eq!(strat.report_steady().unwrap(), true);
        }
    }
}

#[test]
fn empty_and_immediate_names_match_default() {
    let id = identity();
    let from_empty = UpdateStrategy::with_config(input(""), &id).unwrap();
    let from_name = UpdateStrategy::with_config(input("immediate"), &id).unwrap();
    let explicit = UpdateStrategy::default();
    for strategy in [&from_empty, &from_name, &explicit] {
        assert_eq!(settle(strategy.can_check_and_fetch(&id)), true);
        assert_eq!(settle(strategy.can_finalize(&id)), true);
        assert_eq!(settle(strategy.report_steady(&id)), true);
    }
}

#[test]
fn unsupported_name_rejected_with_the_name() {
    let id = identity();
    match UpdateStrategy::with_config(input("bogus"), &id) {
        Err(ConfigError::UnsupportedStrategy { name }) => assert_eq!(name, "bogus"),
        other => panic!("expected an unsupported-strategy error, got {:?}", other),
    }
    // the accepted names are matched exactly, so case matters
    match UpdateStrategy::with_config(input("Immediate"), &id) {
        Err(ConfigError::UnsupportedStrategy { name }) => assert_eq!(name, "Immediate"),
        other => panic!("expected an unsupported-strategy error, got {:?}", other),
    }
}

#[test]
fn failed_query_settles_to_denial_with_one_log_record() {
    let raw = Err(QueryError {
        message: "lock coordinator unreachable".to_string(),
    });
    let verdict = fail_closed(raw);
    assert_eq!(verdict.granted, false);
    let failure = verdict.failure.expect("the failure must be kept for the log");
    assert_eq!(failure.message, "lock coordinator unreachable");
}

#[test]
fn successful_query_passes_through_unchanged() {
    let granted = fail_closed(Ok(true));
    assert_eq!(granted.granted, true);
    assert!(granted.failure.is_none());
    let denied = fail_closed(Ok(false));
    assert_eq!(denied.granted, false);
    assert!(denied.failure.is_none());
}

#[test]
fn scenario_immediate_grants_everything() {
    let id = identity();
    let strategy = UpdateStrategy::with_config(input("immediate"), &id).unwrap();
    assert_eq!(settle(strategy.can_check_and_fetch(&id)), true);
    assert_eq!(settle(strategy.can_finalize(&id)), true);
    assert_eq!(settle(strategy.report_steady(&id)), true);
}

#[test]
fn scenario_direct_flags() {
    let id = identity();
    let strategy = UpdateStrategy::Immediate(StrategyImmediate {
        check: false,
        finalize: true,
    });
    assert_eq!(settle(strategy.can_check_and_fetch(&id)), false);
    assert_eq!(settle(strategy.can_finalize(&id)), true);
}

#[test]
fn repeated_queries_are_stable() {
    let id = identity();
    let strategy = UpdateStrategy::with_config(input("immediate"), &id).unwrap();
    let shared = &strategy;
    for _ in 0..100 {
        assert_eq!(settle(shared.can_check_and_fetch(&id)), true);
        assert_eq!(settle(shared.can_finalize(&id)), true);
        assert_eq!(settle(shared.report_steady(&id)), true);
    }
}

#[test]
fn periodic_schedule_length_is_the_sum_of_the_windows() {
    let id = identity();
    let mut cfg = input("periodic");
    cfg.periodic.windows = vec![
        PeriodicWindow {
            start_minute: 0,
            length_minutes: 60,
        },
        PeriodicWindow {
            start_minute: 1440,
            length_minutes: 120,
        },
    ];
    match UpdateStrategy::with_config(cfg, &id).unwrap() {
        UpdateStrategy::Periodic(p) => assert_eq!(p.schedule_length_minutes, 180),
        other => panic!("expected the periodic policy, got {:?}", other),
    }
}

#[test]
fn periodic_window_may_span_the_whole_week() {
    let id = identity();
    let mut cfg = input("periodic");
    cfg.periodic.windows = vec![PeriodicWindow {
        start_minute: MINUTES_PER_WEEK - 1,
        length_minutes: MINUTES_PER_WEEK,
    }];
    match UpdateStrategy::with_config(cfg, &id).unwrap() {
        UpdateStrategy::Periodic(p) => {
            assert_eq!(p.schedule_length_minutes, u64::from(MINUTES_PER_WEEK))
        }
        other => panic!("expected the periodic policy, got {:?}", other),
    }
}

#[test]
fn periodic_empty_schedule_rejected() {
    let id = identity();
    let mut cfg = input("periodic");
    cfg.periodic.windows = vec![];
    assert!(matches!(
        UpdateStrategy::with_config(cfg, &id),
        Err(ConfigError::EmptySchedule)
    ));
}

#[test]
fn periodic_zero_length_window_rejected() {
    let id = identity();
    let mut cfg = input("periodic");
    cfg.periodic.windows = vec![
        PeriodicWindow {
            start_minute: 10,
            length_minutes: 30,
        },
        PeriodicWindow {
            start_minute: 500,
            length_minutes: 0,
        },
    ];
    assert!(matches!(
        UpdateStrategy::with_config(cfg, &id),
        Err(ConfigError::InvalidWindow)
    ));
}

#[test]
fn periodic_window_outside_the_week_rejected() {
    let id = identity();
    let mut cfg = input("periodic");
    cfg.periodic.windows = vec![PeriodicWindow {
        start_minute: MINUTES_PER_WEEK,
        length_minutes: 30,
    }];
    assert!(matches!(
        UpdateStrategy::with_config(cfg, &id),
        Err(ConfigError::InvalidWindow)
    ));
}

#[test]
fn fleet_lock_keeps_the_coordination_parameters() {
    let id = identity();
    match UpdateStrategy::with_config(input("fleet_lock"), &id).unwrap() {
        UpdateStrategy::FleetLock(f) => {
            assert_eq!(f.base_url, "https://coordinator.example.com");
            assert_eq!(f.group, "workers");
            assert_eq!(f.node_uuid, "node-01");
        }
        other => panic!("expected the fleet-lock policy, got {:?}", other),
    }
}

#[test]
fn fleet_lock_without_a_coordinator_rejected() {
    let id = identity();
    let mut cfg = input("fleet_lock");
    cfg.fleet_lock.base_url = String::new();
    assert!(matches!(
        UpdateStrategy::with_config(cfg, &id),
        Err(ConfigError::EmptyBaseUrl)
    ));
}

#[test]
fn fleet_lock_and_periodic_queries_go_to_the_collaborator() {
    let id = identity();
    let fleet = UpdateStrategy::with_config(input("fleet_lock"), &id).unwrap();
    assert!(matches!(
        fleet.can_check_and_fetch(&id),
        QueryStep::ConsultFleetLock
    ));
    assert!(matches!(fleet.can_finalize(&id), QueryStep::ConsultFleetLock));
    assert!(matches!(fleet.report_steady(&id), QueryStep::ConsultFleetLock));
    let periodic = UpdateStrategy::with_config(input("periodic"), &id).unwrap();
    assert!(matches!(
        periodic.can_check_and_fetch(&id),
        QueryStep::ConsultPeriodic
    ));
    assert!(matches!(periodic.can_finalize(&id), QueryStep::ConsultPeriodic));
    assert!(matches!(periodic.report_steady(&id), QueryStep::ConsultPeriodic));
}

#[test]
fn selection_report_carries_mode_and_schedule_length() {
    let id = identity();
    let periodic = UpdateStrategy::with_config(input("periodic"), &id).unwrap();
    let report = periodic.selection_report(&"periodic".to_string());
    assert_eq!(report.mode, "periodic");
    assert_eq!(report.periodic_schedule_minutes, Some(60));
    let immediate = UpdateStrategy::with_config(input(""), &id).unwrap();
    let report = immediate.selection_report(&"".to_string());
    assert_eq!(report.mode, "");
    assert_eq!(report.periodic_schedule_minutes, None);
}
