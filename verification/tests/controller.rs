use opensase_hr::controller::{
    AtomicRole, CentralController, ControllerConfig, ControllerError, FailoverManager, Gauge,
    HealthConfig, HealthMonitor, HealthStatus, PeerController, Policy, PolicyType, PopInfo,
    PopStatus, Region, RegionalController, Role, Timestamp, Tunnel, TunnelStatus,
};

fn gauge(x: f64) -> Gauge {
    Gauge::from_bits(x.to_bits())
}

fn reading(g: Gauge) -> f64 {
    f64::from_bits(g.to_bits())
}

fn pop(id: &str, health: HealthStatus) -> PopInfo {
    PopInfo {
        id: id.into(),
        location: "somewhere".into(),
        region: "us-east".into(),
        health,
        active_connections: 0,
        cpu_usage: gauge(0.0),
        memory_usage: gauge(0.0),
        bandwidth_mbps: gauge(0.0),
        last_heartbeat: String::new(),
    }
}

fn tunnel(id: &str, endpoints: &[&str]) -> Tunnel {
    Tunnel {
        id: id.into(),
        tenant_id: "tenant-1".into(),
        name: format!("tunnel {}", id),
        endpoints: endpoints.iter().map(|e| e.to_string()).collect(),
        client_location: "Berlin".into(),
        status: TunnelStatus::Degraded,
        bandwidth_limit_mbps: Some(100),
    }
}

fn policy(id: &str) -> Policy {
    Policy {
        id: id.into(),
        name: "Default Firewall".into(),
        version: 0,
        policy_type: PolicyType::Firewall,
        rules: vec![1, 2, 3],
        tenant_id: "tenant-1".into(),
        target_pops: vec!["pop-1".into()],
        created_at: "2024-01-01T00:00:00+00:00".into(),
        updated_at: String::new(),
    }
}

#[test]
fn test_central_controller() {
    let config = ControllerConfig::default();
    let mut controller = CentralController::new(config);

    // Register a PoP
    controller
        .register_pop(PopInfo {
            id: "pop-us-east-1".into(),
            location: "Virginia".into(),
            region: "us-east".into(),
            health: HealthStatus::Healthy,
            active_connections: 1000,
            cpu_usage: gauge(45.0),
            memory_usage: gauge(60.0),
            bandwidth_mbps: gauge(500.0),
            last_heartbeat: chrono::Utc::now().to_rfc3339(),
        })
        .unwrap();

    assert!(controller.get_pop_status("pop-us-east-1").is_some());
}

#[test]
fn test_policy_distribution() {
    let config = ControllerConfig::default();
    let mut controller = CentralController::new(config);

    let policy = Policy {
        id: "firewall-1".into(),
        name: "Default Firewall".into(),
        version: 0,
        policy_type: PolicyType::Firewall,
        rules: vec![],
        tenant_id: "tenant-1".into(),
        target_pops: vec![],
        created_at: chrono::Utc::now().to_rfc3339(),
        updated_at: String::new(),
    };

    controller.distribute_policy(policy).unwrap();
    assert!(controller.get_state().policies.contains_key("firewall-1"));
}

#[test]
fn test_failover_manager() {
    let peers = vec![PeerController {
        id: "node-2".into(),
        address: "10.0.0.2:50051".into(),
        last_heartbeat: None,
    }];
    let mut fm = FailoverManager::new("node-1".into(), peers);

    assert_eq!(fm.get_role(), Role::Secondary);

    fm.acquire_lease().unwrap();
    assert!(fm.is_primary());

    fm.step_down();
    assert_eq!(fm.get_role(), Role::Secondary);
}

#[test]
fn test_health_monitor() {
    let config =
        HealthConfig { check_interval_ms: 5000, unhealthy_threshold: 3, healthy_threshold: 2 };
    let mut monitor = HealthMonitor::new(config);

    // Simulate health checks
    monitor.record_success("pop-1");
    assert_eq!(monitor.get_status("pop-1"), HealthStatus::Unknown);

    monitor.record_success("pop-1");
    assert_eq!(monitor.get_status("pop-1"), HealthStatus::Healthy);

    monitor.record_failure("pop-1");
    assert_eq!(monitor.get_status("pop-1"), HealthStatus::Degraded);
}

#[test]
fn test_pop_heartbeat() {
    let config = ControllerConfig::default();
    let mut controller = CentralController::new(config);

    controller
        .register_pop(PopInfo {
            id: "pop-1".into(),
            location: "NYC".into(),
            region: "us-east".into(),
            health: HealthStatus::Unknown,
            active_connections: 0,
            cpu_usage: gauge(0.0),
            memory_usage: gauge(0.0),
            bandwidth_mbps: gauge(0.0),
            last_heartbeat: String::new(),
        })
        .unwrap();

    controller
        .process_heartbeat(
            "pop-1",
            PopStatus {
                health: HealthStatus::Healthy,
                cpu_usage: gauge(50.0),
                memory_usage: gauge(70.0),
                active_connections: 500,
            },
        )
        .unwrap();

    let pop = controller.get_pop_status("pop-1").unwrap();
    assert_eq!(pop.health, HealthStatus::Healthy);
    assert_eq!(reading(pop.cpu_usage), 50.0);
}

#[test]
fn test_regional_controller() {
    let mut rc = RegionalController::new(Region::from("eu-west"));

    rc.register_pop("pop-eu-west-1".into());
    assert_eq!(rc.get_region().0, "eu-west");
}

// ---------------------------------------------------------------------------
// Data model
// ---------------------------------------------------------------------------

#[test]
fn health_status_takes_traffic_when_healthy_or_degraded() {
    assert!(HealthStatus::Healthy.is_healthy());
    assert!(HealthStatus::Degraded.is_healthy());
    assert!(!HealthStatus::Unhealthy.is_healthy());
    assert!(!HealthStatus::Unknown.is_healthy());
}

#[test]
fn default_config_names_four_regions() {
    let config = ControllerConfig::default();
    assert_eq!(config.node_id, "controller-1");
    assert_eq!(config.bind_address, "0.0.0.0");
    assert_eq!(config.grpc_port, 50051);
    let names: Vec<&str> = config.regions.iter().map(|r| r.0.as_str()).collect();
    assert_eq!(names, vec!["us-east", "us-west", "eu-west", "ap-south"]);
    assert_eq!(config.health.check_interval_ms, 5000);
    assert_eq!(config.health.unhealthy_threshold, 3);
    assert_eq!(config.health.healthy_threshold, 2);
    assert_eq!(config.policy.version_retention, 0);
    assert_eq!(config.routing.max_routes_per_pop, 0);
}

#[test]
fn latency_is_the_nominal_ten_milliseconds() {
    assert_eq!(pop("pop-1", HealthStatus::Healthy).latency_to("Berlin"), 10);
    assert_eq!(pop("pop-2", HealthStatus::Unhealthy).latency_to(""), 10);
}

#[test]
fn error_messages() {
    assert_eq!(ControllerError::NoHealthyPops.to_string(), "No healthy PoPs available");
    assert_eq!(
        ControllerError::PolicyDistributionFailed("eu-west".into()).to_string(),
        "Policy distribution failed: eu-west"
    );
    assert_eq!(ControllerError::NoLease.to_string(), "No active lease");
    assert_eq!(
        ControllerError::ConnectionFailed("timeout".into()).to_string(),
        "Connection failed: timeout"
    );
}

#[test]
fn policy_clone_keeps_every_field() {
    let p = policy("firewall-1");
    let q = p.clone();
    assert_eq!(q.id, "firewall-1");
    assert_eq!(q.name, "Default Firewall");
    assert_eq!(q.version, 0);
    assert_eq!(q.policy_type, PolicyType::Firewall);
    assert_eq!(q.rules, vec![1, 2, 3]);
    assert_eq!(q.tenant_id, "tenant-1");
    assert_eq!(q.target_pops, vec!["pop-1".to_string()]);
    assert_eq!(q.created_at, "2024-01-01T00:00:00+00:00");
    assert_eq!(q.updated_at, "");
}

// ---------------------------------------------------------------------------
// Policy versions
// ---------------------------------------------------------------------------

#[test]
fn first_distribution_stores_version_one() {
    let mut controller = CentralController::new(ControllerConfig::default());
    let mut p = policy("firewall-1");
    p.version = 41;
    controller.distribute_policy_at(p, "2024-05-01T10:00:00+00:00".into()).unwrap();
    let stored = controller.get_state().policies.get("firewall-1").unwrap();
    assert_eq!(stored.version, 1);
    assert_eq!(stored.updated_at, "2024-05-01T10:00:00+00:00");
    assert_eq!(stored.created_at, "2024-01-01T00:00:00+00:00");
    assert_eq!(stored.name, "Default Firewall");
    assert_eq!(stored.rules, vec![1, 2, 3]);
}

#[test]
fn nth_distribution_stores_version_n() {
    let mut controller = CentralController::new(ControllerConfig::default());
    for n in 1..=7u64 {
        controller.distribute_policy(policy("firewall-1")).unwrap();
        if n % 2 == 0 {
            controller.distribute_policy(policy("routing-1")).unwrap();
        }
        assert_eq!(controller.get_state().policies.get("firewall-1").unwrap().version, n);
    }
    assert_eq!(controller.get_state().policies.get("routing-1").unwrap().version, 3);
    assert_eq!(controller.get_state().policies.len(), 2);
}

#[test]
fn distribution_reaches_every_region() {
    let mut controller = CentralController::new(ControllerConfig::default());
    controller.distribute_policy_at(policy("firewall-1"), "t1".into()).unwrap();
    controller.distribute_policy_at(policy("firewall-1"), "t2".into()).unwrap();
    for region in ["us-east", "us-west", "eu-west", "ap-south"] {
        let regional = controller.get_region(region).unwrap();
        let applied = regional.get_policy("firewall-1").unwrap();
        assert_eq!(applied.version, 2);
        assert_eq!(applied.updated_at, "t2");
        assert_eq!(regional.get_region().0, region);
    }
    assert!(controller.get_region("mars").is_none());
}

#[test]
fn distribution_stamps_the_current_time() {
    let mut controller = CentralController::new(ControllerConfig::default());
    controller.distribute_policy(policy("firewall-1")).unwrap();
    let stored = controller.get_state().policies.get("firewall-1").unwrap();
    let stamp = chrono::DateTime::parse_from_rfc3339(&stored.updated_at).unwrap();
    assert!(stamp.timestamp() > 1_600_000_000);
}

#[test]
fn regional_apply_overwrites_whatever_the_version() {
    let mut rc = RegionalController::new(Region::from("eu-west"));
    let mut newer = policy("firewall-1");
    newer.version = 9;
    let mut older = policy("firewall-1");
    older.version = 2;
    assert!(rc.apply_policy(&newer).is_ok());
    assert_eq!(rc.get_policy("firewall-1").unwrap().version, 9);
    assert!(rc.apply_policy(&older).is_ok());
    assert_eq!(rc.get_policy("firewall-1").unwrap().version, 2);
    assert!(rc.get_policy("routing-1").is_none());
}

#[test]
fn regional_membership_keeps_registration_order() {
    let mut rc = RegionalController::new(Region::from("eu-west"));
    assert!(rc.get_pops().is_empty());
    rc.register_pop("pop-b".into());
    rc.register_pop("pop-a".into());
    rc.register_pop("pop-b".into());
    assert_eq!(rc.get_pops(), &vec!["pop-b".to_string(), "pop-a".to_string(), "pop-b".to_string()]);
}

// ---------------------------------------------------------------------------
// Registration and heartbeats
// ---------------------------------------------------------------------------

#[test]
fn registering_again_overwrites() {
    let mut controller = CentralController::new(ControllerConfig::default());
    controller.register_pop(pop("pop-1", HealthStatus::Healthy)).unwrap();
    let mut again = pop("pop-1", HealthStatus::Unhealthy);
    again.location = "elsewhere".into();
    controller.register_pop(again).unwrap();
    assert_eq!(controller.get_state().pops.len(), 1);
    let stored = controller.get_pop_status("pop-1").unwrap();
    assert_eq!(stored.health, HealthStatus::Unhealthy);
    assert_eq!(stored.location, "elsewhere");
}

#[test]
fn heartbeat_of_unknown_pop_is_dropped() {
    let mut controller = CentralController::new(ControllerConfig::default());
    controller.register_pop(pop("pop-1", HealthStatus::Unknown)).unwrap();
    let status = PopStatus {
        health: HealthStatus::Healthy,
        cpu_usage: gauge(1.0),
        memory_usage: gauge(2.0),
        active_connections: 3,
    };
    assert!(controller.process_heartbeat("pop-9", status).is_ok());
    assert!(controller.get_pop_status("pop-9").is_none());
    assert_eq!(controller.get_state().pops.len(), 1);
    assert_eq!(controller.get_pop_status("pop-1").unwrap().health, HealthStatus::Unknown);
}

#[test]
fn heartbeat_updates_load_and_keeps_the_rest() {
    let mut controller = CentralController::new(ControllerConfig::default());
    let mut p = pop("pop-1", HealthStatus::Unknown);
    p.bandwidth_mbps = gauge(250.0);
    controller.register_pop(p).unwrap();
    let status = PopStatus {
        health: HealthStatus::Degraded,
        cpu_usage: gauge(50.0),
        memory_usage: gauge(70.0),
        active_connections: 500,
    };
    controller.apply_heartbeat("pop-1", status, "2024-05-01T10:00:00+00:00".into()).unwrap();
    let stored = controller.get_pop_status("pop-1").unwrap();
    assert_eq!(stored.id, "pop-1");
    assert_eq!(stored.location, "somewhere");
    assert_eq!(stored.region, "us-east");
    assert_eq!(stored.health, HealthStatus::Degraded);
    assert_eq!(stored.active_connections, 500);
    assert_eq!(reading(stored.cpu_usage), 50.0);
    assert_eq!(reading(stored.memory_usage), 70.0);
    assert_eq!(reading(stored.bandwidth_mbps), 250.0);
    assert_eq!(stored.last_heartbeat, "2024-05-01T10:00:00+00:00");
}

#[test]
fn identical_heartbeats_leave_an_identical_record() {
    let mut controller = CentralController::new(ControllerConfig::default());
    controller.register_pop(pop("pop-1", HealthStatus::Unknown)).unwrap();
    let status = PopStatus {
        health: HealthStatus::Healthy,
        cpu_usage: gauge(50.0),
        memory_usage: gauge(70.0),
        active_connections: 500,
    };
    controller.apply_heartbeat("pop-1", status, "t".into()).unwrap();
    let once = format!("{:?}", controller.get_pop_status("pop-1").unwrap());
    controller.apply_heartbeat("pop-1", status, "t".into()).unwrap();
    let twice = format!("{:?}", controller.get_pop_status("pop-1").unwrap());
    assert_eq!(once, twice);
    assert_eq!(controller.get_pop_status("pop-1").unwrap().active_connections, 500);
    assert_eq!(controller.get_state().pops.len(), 1);
}

#[test]
fn processed_heartbeat_carries_a_time_stamp() {
    let mut controller = CentralController::new(ControllerConfig::default());
    controller.register_pop(pop("pop-1", HealthStatus::Unknown)).unwrap();
    let status = PopStatus {
        health: HealthStatus::Healthy,
        cpu_usage: gauge(50.0),
        memory_usage: gauge(70.0),
        active_connections: 500,
    };
    controller.process_heartbeat("pop-1", status).unwrap();
    let stamp = &controller.get_pop_status("pop-1").unwrap().last_heartbeat;
    assert!(chrono::DateTime::parse_from_rfc3339(stamp).is_ok());
}

// ---------------------------------------------------------------------------
// Rerouting
// ---------------------------------------------------------------------------

#[test]
fn failed_pop_reroutes_to_the_nearest_healthy_pop() {
    let mut controller = CentralController::new(ControllerConfig::default());
    controller.register_pop(pop("pop-A", HealthStatus::Unhealthy)).unwrap();
    controller.register_pop(pop("pop-C", HealthStatus::Healthy)).unwrap();
    controller.register_pop(pop("pop-B", HealthStatus::Healthy)).unwrap();
    controller.register_tunnel(tunnel("T1", &["pop-A"])).unwrap();

    controller.handle_pop_failure("pop-A").unwrap();

    let t1 = controller.get_state().tunnels.get("T1").unwrap();
    assert_eq!(t1.endpoints, vec!["pop-B".to_string()]);
    assert_eq!(t1.status, TunnelStatus::Active);
    assert_eq!(t1.id, "T1");
    assert_eq!(t1.tenant_id, "tenant-1");
    assert_eq!(t1.name, "tunnel T1");
    assert_eq!(t1.client_location, "Berlin");
    assert_eq!(t1.bandwidth_limit_mbps, Some(100));
}

#[test]
fn ties_go_to_the_id_that_comes_first_whatever_the_order() {
    for order in [["pop-B", "pop-C", "pop-BA"], ["pop-C", "pop-BA", "pop-B"]] {
        let mut controller = CentralController::new(ControllerConfig::default());
        for id in order {
            controller.register_pop(pop(id, HealthStatus::Degraded)).unwrap();
        }
        controller.register_pop(pop("pop-0", HealthStatus::Unknown)).unwrap();
        let chosen = controller.find_nearest_healthy_pop(&tunnel("T1", &["pop-X"])).unwrap();
        assert_eq!(chosen, "pop-B");
    }
}

#[test]
fn no_healthy_pop_fails_and_leaves_the_tunnel() {
    let mut controller = CentralController::new(ControllerConfig::default());
    controller.register_pop(pop("pop-A", HealthStatus::Unhealthy)).unwrap();
    controller.register_pop(pop("pop-B", HealthStatus::Unhealthy)).unwrap();
    controller.register_pop(pop("pop-C", HealthStatus::Unknown)).unwrap();
    controller.register_tunnel(tunnel("T1", &["pop-A"])).unwrap();

    let r = controller.handle_pop_failure("pop-A");
    assert!(matches!(r, Err(ControllerError::NoHealthyPops)));

    let t1 = controller.get_state().tunnels.get("T1").unwrap();
    assert_eq!(t1.endpoints, vec!["pop-A".to_string()]);
    assert_eq!(t1.status, TunnelStatus::Degraded);
    assert!(matches!(
        controller.find_nearest_healthy_pop(t1),
        Err(ControllerError::NoHealthyPops)
    ));
}

#[test]
fn failure_of_an_unused_pop_succeeds_without_healthy_pops() {
    let mut controller = CentralController::new(ControllerConfig::default());
    controller.register_pop(pop("pop-A", HealthStatus::Unhealthy)).unwrap();
    controller.register_tunnel(tunnel("T1", &["pop-A"])).unwrap();
    assert!(controller.handle_pop_failure("pop-Z").is_ok());
    let t1 = controller.get_state().tunnels.get("T1").unwrap();
    assert_eq!(t1.endpoints, vec!["pop-A".to_string()]);
    assert_eq!(t1.status, TunnelStatus::Degraded);
}

#[test]
fn only_tunnels_of_the_failed_pop_move() {
    let mut controller = CentralController::new(ControllerConfig::default());
    controller.register_pop(pop("pop-A", HealthStatus::Unhealthy)).unwrap();
    controller.register_pop(pop("pop-B", HealthStatus::Healthy)).unwrap();
    controller.register_tunnel(tunnel("T1", &["pop-A", "pop-D"])).unwrap();
    controller.register_tunnel(tunnel("T2", &["pop-D"])).unwrap();
    controller.register_tunnel(tunnel("T3", &["pop-D", "pop-A"])).unwrap();

    controller.handle_pop_failure("pop-A").unwrap();

    let tunnels = &controller.get_state().tunnels;
    assert_eq!(tunnels.get("T1").unwrap().endpoints, vec!["pop-B".to_string()]);
    assert_eq!(tunnels.get("T1").unwrap().status, TunnelStatus::Active);
    assert_eq!(tunnels.get("T2").unwrap().endpoints, vec!["pop-D".to_string()]);
    assert_eq!(tunnels.get("T2").unwrap().status, TunnelStatus::Degraded);
    assert_eq!(tunnels.get("T3").unwrap().endpoints, vec!["pop-B".to_string()]);
    assert_eq!(tunnels.get("T3").unwrap().status, TunnelStatus::Active);
    assert_eq!(tunnels.len(), 3);
}

// ---------------------------------------------------------------------------
// Health hysteresis
// ---------------------------------------------------------------------------

#[test]
fn health_degrades_fast_and_recovers_slowly() {
    let config =
        HealthConfig { check_interval_ms: 5000, unhealthy_threshold: 3, healthy_threshold: 2 };
    let mut monitor = HealthMonitor::new(config);
    assert_eq!(monitor.get_status("pop-1"), HealthStatus::Unknown);
    assert!(monitor.get_tracker("pop-1").is_none());

    monitor.record_success("pop-1");
    monitor.record_success("pop-1");
    assert_eq!(monitor.get_status("pop-1"), HealthStatus::Healthy);

    monitor.record_failure("pop-1");
    assert_eq!(monitor.get_status("pop-1"), HealthStatus::Degraded);
    let t = monitor.get_tracker("pop-1").unwrap();
    assert_eq!((t.consecutive_failures, t.consecutive_successes), (1, 0));

    monitor.record_failure("pop-1");
    assert_eq!(monitor.get_status("pop-1"), HealthStatus::Degraded);
    monitor.record_failure("pop-1");
    assert_eq!(monitor.get_status("pop-1"), HealthStatus::Unhealthy);

    // One success does not clear the classification.
    monitor.record_success("pop-1");
    assert_eq!(monitor.get_status("pop-1"), HealthStatus::Unhealthy);
    let t = monitor.get_tracker("pop-1").unwrap();
    assert_eq!((t.consecutive_failures, t.consecutive_successes), (0, 1));
    monitor.record_success("pop-1");
    assert_eq!(monitor.get_status("pop-1"), HealthStatus::Healthy);

    // Other PoPs are classified on their own.
    assert_eq!(monitor.get_status("pop-2"), HealthStatus::Unknown);
    monitor.record_failure("pop-2");
    assert_eq!(monitor.get_status("pop-2"), HealthStatus::Degraded);
    assert_eq!(monitor.get_status("pop-1"), HealthStatus::Healthy);
}

#[test]
fn first_failure_with_threshold_one_is_unhealthy() {
    let config =
        HealthConfig { check_interval_ms: 1, unhealthy_threshold: 1, healthy_threshold: 1 };
    let mut monitor = HealthMonitor::new(config);
    monitor.record_failure("pop-1");
    assert_eq!(monitor.get_status("pop-1"), HealthStatus::Unhealthy);
    monitor.record_success("pop-1");
    assert_eq!(monitor.get_status("pop-1"), HealthStatus::Healthy);
}

// ---------------------------------------------------------------------------
// Fail-over
// ---------------------------------------------------------------------------

#[test]
fn role_register_holds_what_was_stored() {
    let mut r = AtomicRole::new(Role::Observer);
    assert_eq!(r.load(), Role::Observer);
    r.store(Role::Primary);
    assert_eq!(r.load(), Role::Primary);
    r.store(Role::Secondary);
    assert_eq!(r.load(), Role::Secondary);
}

#[test]
fn lease_lifecycle() {
    let mut fm = FailoverManager::new("node-1".into(), vec![]);
    assert_eq!(fm.get_role(), Role::Secondary);
    assert!(!fm.is_primary());
    assert!(fm.get_lease().is_none());
    assert!(matches!(fm.renew_lease(), Err(ControllerError::NoLease)));

    fm.acquire_lease().unwrap();
    assert_eq!(fm.get_role(), Role::Primary);
    let lease = fm.get_lease().unwrap();
    assert_eq!(lease.holder, "node-1");
    assert_eq!(lease.version, 1);
    let acquired = chrono::DateTime::parse_from_rfc3339(&lease.acquired_at).unwrap();
    let expires = chrono::DateTime::parse_from_rfc3339(&lease.expires_at).unwrap();
    assert_eq!((expires - acquired).num_seconds(), 15);

    fm.renew_lease().unwrap();
    assert_eq!(fm.get_lease().unwrap().version, 2);
    assert!(fm.is_primary());

    fm.step_down();
    assert_eq!(fm.get_role(), Role::Secondary);
    assert!(fm.get_lease().is_none());
    assert!(matches!(fm.renew_lease(), Err(ControllerError::NoLease)));
}

#[test]
fn lease_texts_come_from_the_clock_reading() {
    let mut fm = FailoverManager::new("node-1".into(), vec![]);
    fm.acquire_lease_at(Timestamp { secs: 0, nanos: 0 }).unwrap();
    let lease = fm.get_lease().unwrap();
    assert_eq!(lease.acquired_at, "1970-01-01T00:00:00+00:00");
    assert_eq!(lease.expires_at, "1970-01-01T00:00:15+00:00");

    fm.renew_lease_at(Timestamp { secs: 1_700_000_000, nanos: 500_000_000 }).unwrap();
    let lease = fm.get_lease().unwrap();
    assert_eq!(lease.acquired_at, "1970-01-01T00:00:00+00:00");
    assert_eq!(lease.expires_at, "2023-11-14T22:13:35.500+00:00");
    assert_eq!(lease.version, 2);
    assert_eq!(lease.holder, "node-1");
}

#[test]
fn lease_out_of_the_calendar_fails_and_changes_nothing() {
    let mut fm = FailoverManager::new("node-1".into(), vec![]);
    let r = fm.acquire_lease_at(Timestamp { secs: i64::MAX - 3, nanos: 0 });
    assert!(matches!(r, Err(ControllerError::ConnectionFailed(_))));
    assert_eq!(fm.get_role(), Role::Secondary);
    assert!(fm.get_lease().is_none());

    fm.install_lease("a".into(), "b".into());
    let r = fm.renew_lease_at(Timestamp { secs: i64::MAX - 3, nanos: 0 });
    assert!(matches!(r, Err(ControllerError::ConnectionFailed(_))));
    let lease = fm.get_lease().unwrap();
    assert_eq!((lease.expires_at.as_str(), lease.version), ("b", 1));
    assert!(fm.is_primary());
}

#[test]
fn extend_lease_replaces_the_expiry_and_bumps_the_version() {
    let mut fm = FailoverManager::new("node-1".into(), vec![]);
    assert!(matches!(fm.extend_lease("x".into()), Err(ControllerError::NoLease)));
    fm.install_lease("start".into(), "end".into());
    fm.extend_lease("later".into()).unwrap();
    fm.extend_lease("latest".into()).unwrap();
    let lease = fm.get_lease().unwrap();
    assert_eq!(lease.acquired_at, "start");
    assert_eq!(lease.expires_at, "latest");
    assert_eq!(lease.version, 3);
}

#[test]
fn one_leader_under_a_lock_that_grants_once() {
    let mut a = FailoverManager::new("node-1".into(), vec![]);
    let mut b = FailoverManager::new("node-2".into(), vec![]);
    let now = Timestamp { secs: 1_700_000_000, nanos: 0 };
    // A lock service grants the free lock to the first that asks.
    assert!(a.acquire_lease_if_granted(true, now).is_ok());
    assert!(matches!(b.acquire_lease_if_granted(false, now), Err(ControllerError::NoLease)));
    assert!(a.is_primary());
    assert!(!b.is_primary());
    assert!(b.get_lease().is_none());
}

#[test]
fn primary_alive_needs_a_peer_heartbeat() {
    let silent = PeerController {
        id: "node-2".into(),
        address: "10.0.0.2:50051".into(),
        last_heartbeat: None,
    };
    let heard = PeerController {
        id: "node-3".into(),
        address: "10.0.0.3:50051".into(),
        last_heartbeat: Some("2024-05-01T10:00:00+00:00".into()),
    };
    assert!(!FailoverManager::new("node-1".into(), vec![]).primary_alive());
    assert!(!FailoverManager::new("node-1".into(), vec![silent.clone()]).primary_alive());
    assert!(FailoverManager::new("node-1".into(), vec![silent, heard]).primary_alive());
}

#[test]
fn timestamp_addition_stops_at_the_limit() {
    let t = Timestamp { secs: -5, nanos: 7 };
    assert_eq!(t.plus_secs(15), Some(Timestamp { secs: 10, nanos: 7 }));
    assert_eq!(t.plus_secs(i64::MAX as u64 + 5), Some(Timestamp { secs: i64::MAX, nanos: 7 }));
    assert_eq!(t.plus_secs(i64::MAX as u64 + 6), None);
    assert_eq!(Timestamp { secs: i64::MAX, nanos: 0 }.plus_secs(1), None);
}

#[test]
fn guarded_apply_refuses_what_is_not_newer() {
    let mut rc = RegionalController::new(Region::from("eu-west"));
    let mut p = policy("firewall-1");
    p.version = 0;
    assert!(matches!(
        rc.apply_newer_policy(&p),
        Err(ControllerError::PolicyDistributionFailed(region)) if region == "eu-west"
    ));
    assert!(rc.get_policy("firewall-1").is_none());
    p.version = 3;
    assert!(rc.apply_newer_policy(&p).is_ok());
    assert_eq!(rc.get_policy("firewall-1").unwrap().version, 3);
    p.name = "late".into();
    assert!(rc.apply_newer_policy(&p).is_err());
    p.version = 2;
    assert!(rc.apply_newer_policy(&p).is_err());
    assert_eq!(rc.get_policy("firewall-1").unwrap().version, 3);
    assert_eq!(rc.get_policy("firewall-1").unwrap().name, "Default Firewall");
    p.version = 4;
    assert!(rc.apply_newer_policy(&p).is_ok());
    assert_eq!(rc.get_policy("firewall-1").unwrap().name, "late");
}

#[test]
fn reroute_moves_one_tunnel() {
    let mut controller = CentralController::new(ControllerConfig::default());
    controller.register_tunnel(tunnel("T1", &["pop-A", "pop-B"])).unwrap();
    controller.register_tunnel(tunnel("T2", &["pop-A"])).unwrap();
    controller.reroute_tunnel("T1", "pop-Z").unwrap();
    controller.reroute_tunnel("T9", "pop-Z").unwrap();
    let tunnels = &controller.get_state().tunnels;
    assert_eq!(tunnels.len(), 2);
    assert_eq!(tunnels.get("T1").unwrap().endpoints, vec!["pop-Z".to_string()]);
    assert_eq!(tunnels.get("T1").unwrap().status, TunnelStatus::Active);
    assert_eq!(tunnels.get("T1").unwrap().bandwidth_limit_mbps, Some(100));
    assert_eq!(tunnels.get("T2").unwrap().endpoints, vec!["pop-A".to_string()]);
    assert_eq!(tunnels.get("T2").unwrap().status, TunnelStatus::Degraded);
}

#[test]
fn secondaries_campaign_when_no_primary_is_heard() {
    let heard = PeerController {
        id: "node-2".into(),
        address: "10.0.0.2:50051".into(),
        last_heartbeat: Some("2024-05-01T10:00:00+00:00".into()),
    };
    let mut alone = FailoverManager::new("node-1".into(), vec![]);
    assert!(alone.should_campaign());
    assert!(!FailoverManager::new("node-1".into(), vec![heard]).should_campaign());
    alone.install_lease("a".into(), "b".into());
    assert!(!alone.should_campaign());
    alone.step_down();
    assert!(alone.should_campaign());
}

#[test]
fn failed_renewal_steps_down() {
    let now = Timestamp { secs: 1_700_000_000, nanos: 0 };
    let mut fm = FailoverManager::new("node-1".into(), vec![]);
    assert!(matches!(fm.renew_or_step_down_at(now), Err(ControllerError::NoLease)));
    assert_eq!(fm.get_role(), Role::Secondary);

    fm.acquire_lease_at(now).unwrap();
    fm.renew_or_step_down_at(now).unwrap();
    assert!(fm.is_primary());
    assert_eq!(fm.get_lease().unwrap().version, 2);
    assert_eq!(fm.get_lease().unwrap().expires_at, "2023-11-14T22:13:35+00:00");

    let r = fm.renew_or_step_down_at(Timestamp { secs: i64::MAX, nanos: 0 });
    assert!(matches!(r, Err(ControllerError::ConnectionFailed(_))));
    assert_eq!(fm.get_role(), Role::Secondary);
    assert!(fm.get_lease().is_none());

    fm.acquire_lease().unwrap();
    fm.renew_or_step_down().unwrap();
    assert!(fm.is_primary());
    assert_eq!(fm.get_lease().unwrap().version, 2);
}
