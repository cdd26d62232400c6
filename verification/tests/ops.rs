use opensase_hr::ops::{
    standard_alerts, AlertSeverity, CloudProvider, ComponentHealth, DeploymentConfig, Environment,
    HealthStatus, SystemHealth,
};

#[test]
fn test_system_health() {
    let mut health = SystemHealth::new("1.0.0", 3600);

    health.add_component(ComponentHealth {
        name: "database".to_string(),
        status: HealthStatus::Healthy,
        message: None,
        latency_ms: Some(5),
    });

    assert_eq!(health.status, HealthStatus::Healthy);
    assert!(health.is_ready());
    assert!(health.is_live());
}

#[test]
fn test_health_degradation() {
    let mut health = SystemHealth::new("1.0.0", 3600);

    health.add_component(ComponentHealth {
        name: "cache".to_string(),
        status: HealthStatus::Degraded,
        message: Some("High latency".to_string()),
        latency_ms: Some(500),
    });

    assert_eq!(health.status, HealthStatus::Degraded);
    assert!(health.is_ready()); // Degraded is still ready
}

#[test]
fn test_deployment_config() {
    let config = DeploymentConfig::default();
    assert_eq!(config.environment, Environment::Development);
    assert_eq!(config.regions.len(), 1);

    let prod = DeploymentConfig::production();
    assert_eq!(prod.environment, Environment::Production);
    assert_eq!(prod.regions.len(), 3);
    assert_eq!(prod.replicas.tax_engine, 10);
}

#[test]
fn test_standard_alerts() {
    let alerts = standard_alerts();
    assert!(alerts.len() >= 5);

    let critical_count = alerts.iter().filter(|a| a.severity == AlertSeverity::Critical).count();
    assert!(critical_count >= 3);
}

fn component(status: HealthStatus) -> ComponentHealth {
    ComponentHealth { name: "c".to_string(), status, message: None, latency_ms: None }
}

#[test]
fn system_health_never_improves() {
    let mut health = SystemHealth::new("2.1.0", 7);
    assert_eq!(health.version, "2.1.0");
    assert_eq!(health.uptime_seconds, 7);
    assert!(health.components.is_empty());
    health.add_component(component(HealthStatus::Degraded));
    health.add_component(component(HealthStatus::Healthy));
    assert_eq!(health.status, HealthStatus::Degraded);
    health.add_component(component(HealthStatus::Unhealthy));
    assert_eq!(health.status, HealthStatus::Unhealthy);
    assert!(!health.is_ready());
    assert!(health.is_live());
    health.add_component(component(HealthStatus::Degraded));
    health.add_component(component(HealthStatus::Healthy));
    assert_eq!(health.status, HealthStatus::Unhealthy);
    assert_eq!(health.components.len(), 5);
    assert_eq!(health.components[2].status, HealthStatus::Unhealthy);
}

#[test]
fn deployment_tables() {
    let dev = DeploymentConfig::default();
    assert_eq!(dev.regions[0].code, "us-east-1");
    assert_eq!(dev.regions[0].name, "US East (N. Virginia)");
    assert_eq!(dev.regions[0].cloud_provider, CloudProvider::AWS);
    assert_eq!(dev.regions[0].primary_az, "us-east-1a");
    assert_eq!(dev.regions[0].secondary_azs, vec!["us-east-1b", "us-east-1c"]);
    assert_eq!(
        (dev.replicas.api_gateway, dev.replicas.tax_engine, dev.replicas.payment_processor, dev.replicas.calculation_workers),
        (3, 5, 3, 10)
    );
    assert_eq!(dev.resources.cpu_request, "500m");
    assert_eq!(dev.resources.cpu_limit, "2000m");
    assert_eq!(dev.resources.memory_request, "1Gi");
    assert_eq!(dev.resources.memory_limit, "4Gi");

    let prod = DeploymentConfig::production();
    let codes: Vec<&str> = prod.regions.iter().map(|r| r.code.as_str()).collect();
    assert_eq!(codes, vec!["us-east-1", "eu-west-1", "ap-southeast-1"]);
    assert_eq!(prod.regions[2].name, "Asia Pacific");
    assert_eq!(prod.regions[2].secondary_azs, vec!["ap-southeast-1b"]);
    assert_eq!(
        (prod.replicas.api_gateway, prod.replicas.payment_processor, prod.replicas.calculation_workers),
        (5, 5, 50)
    );
    assert_eq!(prod.resources.cpu_request, "1000m");
    assert_eq!(prod.resources.memory_limit, "8Gi");
}

#[test]
fn alert_table() {
    let alerts = standard_alerts();
    let names: Vec<&str> = alerts.iter().map(|a| a.name.as_str()).collect();
    assert_eq!(
        names,
        vec![
            "HighErrorRate",
            "SlowResponseTime",
            "PayrollCalculationBacklog",
            "TaxEngineDown",
            "PaymentProcessorDown"
        ]
    );
    assert_eq!(
        alerts[0].expr,
        r#"sum(rate(http_requests_total{status=~"5.."}[5m])) / sum(rate(http_requests_total[5m])) > 0.01"#
    );
    assert_eq!(alerts[1].severity, AlertSeverity::Warning);
    assert_eq!(alerts[2].duration, "10m");
    assert_eq!(alerts[3].expr, "up{job=\"tax-engine\"} == 0");
    assert_eq!(alerts[4].summary, "Payment processor is down");
    assert_eq!(alerts[4].description, "Payment processing service is unavailable");
}
