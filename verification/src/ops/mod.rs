//! Operations: health of the system's components, deployment
//! configurations and the standard alerts.

use vstd::prelude::*;
use crate::text::{strings_from, views_of};

verus! {

/// The health of a component or of the system.
#[derive(Debug, Clone, Copy, PartialEq, Eq, Structural)]
pub enum HealthStatus {
    Healthy,
    Degraded,
    Unhealthy,
}

/// What a health check found of one component.
#[derive(Debug)]
pub struct ComponentHealth {
    pub name: String,
    pub status: HealthStatus,
    pub message: Option<String>,
    pub latency_ms: Option<u64>,
}

/// The health of the system, made up of that of its components.
#[derive(Debug)]
pub struct SystemHealth {
    pub status: HealthStatus,
    pub version: String,
    pub components: Vec<ComponentHealth>,
    pub uptime_seconds: u64,
}

/// The health of a system in the state `current` once a component in the
/// state `component` is counted in: an unhealthy component makes the system
/// unhealthy, a degraded one degrades a healthy system, and nothing makes
/// a system better than it was.
pub open spec fn combined(current: HealthStatus, component: HealthStatus) -> HealthStatus {
    match component {
        HealthStatus::Unhealthy => HealthStatus::Unhealthy,
        HealthStatus::Degraded => if current == HealthStatus::Healthy {
            HealthStatus::Degraded
        } else {
            current
        },
        HealthStatus::Healthy => current,
    }
}

/// How bad a state is: the higher, the worse.
pub open spec fn severity(status: HealthStatus) -> nat {
    match status {
        HealthStatus::Healthy => 0,
        HealthStatus::Degraded => 1,
        HealthStatus::Unhealthy => 2,
    }
}

/// Counting a component in gives the worse of the two states, so the
/// health of a system never improves as components are added.
pub proof fn lemma_combined_is_the_worse(current: HealthStatus, component: HealthStatus)
    ensures
        severity(combined(current, component)) == if severity(current) >= severity(component) {
            severity(current)
        } else {
            severity(component)
        },
{
}

impl SystemHealth {
    /// A healthy system without components.
    pub fn new(version: &str, uptime: u64) -> (h: SystemHealth)
        ensures
            h.status == HealthStatus::Healthy,
            h.version@ == version@,
            h.components@ == Seq::<ComponentHealth>::empty(),
            h.uptime_seconds == uptime,
    {
        SystemHealth {
            status: HealthStatus::Healthy,
            version: version.to_owned(),
            components: Vec::new(),
            uptime_seconds: uptime,
        }
    }

    /// Adds a component and counts its state into that of the system.
    pub fn add_component(&mut self, component: ComponentHealth)
        ensures
            final(self).status == combined(old(self).status, component.status),
            final(self).components@ == old(self).components@.push(component),
            final(self).version == old(self).version,
            final(self).uptime_seconds == old(self).uptime_seconds,
    {
        match component.status {
            HealthStatus::Unhealthy => {
                self.status = HealthStatus::Unhealthy;
            },
            HealthStatus::Degraded => {
                if self.status == HealthStatus::Healthy {
                    self.status = HealthStatus::Degraded;
                }
            },
            HealthStatus::Healthy => {},
        }
        self.components.push(component);
    }

    /// Whether the system can take requests: it can unless it is unhealthy.
    pub fn is_ready(&self) -> (b: bool)
        ensures
            b == (self.status != HealthStatus::Unhealthy),
    {
        self.status != HealthStatus::Unhealthy
    }

    /// Whether the system is alive: it is whenever it can answer.
    pub fn is_live(&self) -> (b: bool)
        ensures
            b,
    {
        true
    }
}

/// Where a deployment runs.
#[derive(Debug, Clone, Copy, PartialEq, Eq, Structural)]
pub enum CloudProvider {
    AWS,
    GCP,
    Azure,
    OnPremise,
}

/// The stage a deployment serves.
#[derive(Debug, Clone, Copy, PartialEq, Eq, Structural)]
pub enum Environment {
    Development,
    Staging,
    Production,
}

/// One region of a deployment.
#[derive(Debug)]
pub struct DeploymentRegion {
    pub code: String,
    pub name: String,
    pub cloud_provider: CloudProvider,
    pub primary_az: String,
    pub secondary_azs: Vec<String>,
}

/// What a [`DeploymentRegion`] holds, as mathematical values.
pub struct RegionView {
    pub code: Seq<char>,
    pub name: Seq<char>,
    pub cloud_provider: CloudProvider,
    pub primary_az: Seq<char>,
    pub secondary_azs: Seq<Seq<char>>,
}

impl View for DeploymentRegion {
    type V = RegionView;

    open spec fn view(&self) -> RegionView {
        RegionView {
            code: self.code@,
            name: self.name@,
            cloud_provider: self.cloud_provider,
            primary_az: self.primary_az@,
            secondary_azs: self.secondary_azs.deep_view(),
        }
    }
}

/// How many replicas of each service run.
#[derive(Debug, Clone, Copy, PartialEq, Eq, Structural)]
pub struct ReplicaConfig {
    pub api_gateway: u32,
    pub tax_engine: u32,
    pub payment_processor: u32,
    pub calculation_workers: u32,
}

/// What a replica may use.
#[derive(Debug)]
pub struct ResourceConfig {
    pub cpu_request: String,
    pub cpu_limit: String,
    pub memory_request: String,
    pub memory_limit: String,
}

/// What a [`ResourceConfig`] holds, as mathematical values.
pub struct ResourceView {
    pub cpu_request: Seq<char>,
    pub cpu_limit: Seq<char>,
    pub memory_request: Seq<char>,
    pub memory_limit: Seq<char>,
}

impl View for ResourceConfig {
    type V = ResourceView;

    open spec fn view(&self) -> ResourceView {
        ResourceView {
            cpu_request: self.cpu_request@,
            cpu_limit: self.cpu_limit@,
            memory_request: self.memory_request@,
            memory_limit: self.memory_limit@,
        }
    }
}

/// A deployment: its stage, its regions and the size of its services.
#[derive(Debug)]
pub struct DeploymentConfig {
    pub environment: Environment,
    pub regions: Vec<DeploymentRegion>,
    pub replicas: ReplicaConfig,
    pub resources: ResourceConfig,
}

/// What a [`DeploymentConfig`] holds, as mathematical values.
pub struct DeploymentView {
    pub environment: Environment,
    pub regions: Seq<RegionView>,
    pub replicas: ReplicaConfig,
    pub resources: ResourceView,
}

impl View for DeploymentConfig {
    type V = DeploymentView;

    open spec fn view(&self) -> DeploymentView {
        DeploymentView {
            environment: self.environment,
            regions: Seq::new(self.regions@.len(), |i: int| self.regions@[i]@),
            replicas: self.replicas,
            resources: self.resources@,
        }
    }
}

/// A region on AWS, from its parts.
pub open spec fn aws_region(
    code: &'static str,
    name: &'static str,
    primary_az: &'static str,
    secondary_azs: Seq<&'static str>,
) -> RegionView {
    RegionView {
        code: code@,
        name: name@,
        cloud_provider: CloudProvider::AWS,
        primary_az: primary_az@,
        secondary_azs: views_of(secondary_azs),
    }
}

/// The limits of a replica, from their parts.
pub open spec fn resources(
    cpu_request: &'static str,
    cpu_limit: &'static str,
    memory_request: &'static str,
    memory_limit: &'static str,
) -> ResourceView {
    ResourceView {
        cpu_request: cpu_request@,
        cpu_limit: cpu_limit@,
        memory_request: memory_request@,
        memory_limit: memory_limit@,
    }
}

/// The deployment a developer starts with: one region, small services.
pub open spec fn development_deployment() -> DeploymentView {
    DeploymentView {
        environment: Environment::Development,
        regions: seq![
            aws_region(
                "us-east-1",
                "US East (N. Virginia)",
                "us-east-1a",
                seq!["us-east-1b", "us-east-1c"],
            ),
        ],
        replicas: ReplicaConfig {
            api_gateway: 3,
            tax_engine: 5,
            payment_processor: 3,
            calculation_workers: 10,
        },
        resources: resources("500m", "2000m", "1Gi", "4Gi"),
    }
}

/// The deployment that serves production: three regions, large services.
pub open spec fn production_deployment() -> DeploymentView {
    DeploymentView {
        environment: Environment::Production,
        regions: seq![
            aws_region("us-east-1", "US East", "us-east-1a", seq!["us-east-1b", "us-east-1c"]),
            aws_region("eu-west-1", "EU West", "eu-west-1a", seq!["eu-west-1b", "eu-west-1c"]),
            aws_region("ap-southeast-1", "Asia Pacific", "ap-southeast-1a", seq!["ap-southeast-1b"]),
        ],
        replicas: ReplicaConfig {
            api_gateway: 5,
            tax_engine: 10,
            payment_processor: 5,
            calculation_workers: 50,
        },
        resources: resources("1000m", "4000m", "2Gi", "8Gi"),
    }
}

/// A region on AWS, from its parts.
fn make_aws_region(
    code: &'static str,
    name: &'static str,
    primary_az: &'static str,
    secondary_azs: &[&'static str],
) -> (r: DeploymentRegion)
    ensures
        r@ == aws_region(code, name, primary_az, secondary_azs@),
{
    DeploymentRegion {
        code: code.to_owned(),
        name: name.to_owned(),
        cloud_provider: CloudProvider::AWS,
        primary_az: primary_az.to_owned(),
        secondary_azs: strings_from(secondary_azs),
    }
}

/// The limits of a replica, from their parts.
fn make_resources(
    cpu_request: &'static str,
    cpu_limit: &'static str,
    memory_request: &'static str,
    memory_limit: &'static str,
) -> (r: ResourceConfig)
    ensures
        r@ == resources(cpu_request, cpu_limit, memory_request, memory_limit),
{
    ResourceConfig {
        cpu_request: cpu_request.to_owned(),
        cpu_limit: cpu_limit.to_owned(),
        memory_request: memory_request.to_owned(),
        memory_limit: memory_limit.to_owned(),
    }
}

impl Default for DeploymentConfig {
    fn default() -> (c: DeploymentConfig)
        ensures
            c@ == development_deployment(),
    {
        let azs = ["us-east-1b", "us-east-1c"];
        assert(azs@ =~= seq!["us-east-1b", "us-east-1c"]);
        let mut regions: Vec<DeploymentRegion> = Vec::new();
        regions.push(make_aws_region("us-east-1", "US East (N. Virginia)", "us-east-1a", &azs));
        let c = DeploymentConfig {
            environment: Environment::Development,
            regions,
            replicas: ReplicaConfig {
                api_gateway: 3,
                tax_engine: 5,
                payment_processor: 3,
                calculation_workers: 10,
            },
            resources: make_resources("500m", "2000m", "1Gi", "4Gi"),
        };
        assert(c@.regions =~= development_deployment().regions);
        c
    }
}

impl DeploymentConfig {
    /// The deployment that serves production.
    pub fn production() -> (c: DeploymentConfig)
        ensures
            c@ == production_deployment(),
    {
        let us = ["us-east-1b", "us-east-1c"];
        let eu = ["eu-west-1b", "eu-west-1c"];
        let ap = ["ap-southeast-1b"];
        assert(us@ =~= seq!["us-east-1b", "us-east-1c"]);
        assert(eu@ =~= seq!["eu-west-1b", "eu-west-1c"]);
        assert(ap@ =~= seq!["ap-southeast-1b"]);
        let mut regions: Vec<DeploymentRegion> = Vec::new();
        regions.push(make_aws_region("us-east-1", "US East", "us-east-1a", &us));
        regions.push(make_aws_region("eu-west-1", "EU West", "eu-west-1a", &eu));
        regions.push(make_aws_region("ap-southeast-1", "Asia Pacific", "ap-southeast-1a", &ap));
        let c = DeploymentConfig {
            environment: Environment::Production,
            regions,
            replicas: ReplicaConfig {
                api_gateway: 5,
                tax_engine: 10,
                payment_processor: 5,
                calculation_workers: 50,
            },
            resources: make_resources("1000m", "4000m", "2Gi", "8Gi"),
        };
        assert(c@.regions =~= production_deployment().regions);
        c
    }
}

/// How urgent an alert is.
#[derive(Debug, Clone, Copy, PartialEq, Eq, Structural)]
pub enum AlertSeverity {
    Info,
    Warning,
    Critical,
}

/// An alert: the expression that fires it and what to tell the operator.
#[derive(Debug)]
pub struct AlertDefinition {
    pub name: String,
    pub severity: AlertSeverity,
    pub expr: String,
    pub duration: String,
    pub summary: String,
    pub description: String,
}

/// What an [`AlertDefinition`] holds, as mathematical values.
pub struct AlertView {
    pub name: Seq<char>,
    pub severity: AlertSeverity,
    pub expr: Seq<char>,
    pub duration: Seq<char>,
    pub summary: Seq<char>,
    pub description: Seq<char>,
}

impl View for AlertDefinition {
    type V = AlertView;

    open spec fn view(&self) -> AlertView {
        AlertView {
            name: self.name@,
            severity: self.severity,
            expr: self.expr@,
            duration: self.duration@,
            summary: self.summary@,
            description: self.description@,
        }
    }
}

/// An alert, from its parts.
pub open spec fn alert(
    name: &'static str,
    severity: AlertSeverity,
    expr: &'static str,
    duration: &'static str,
    summary: &'static str,
    description: &'static str,
) -> AlertView {
    AlertView {
        name: name@,
        severity,
        expr: expr@,
        duration: duration@,
        summary: summary@,
        description: description@,
    }
}

/// The alerts every deployment of the platform comes with.
pub open spec fn alert_table() -> Seq<AlertView> {
    seq![
        alert(
            "HighErrorRate",
            AlertSeverity::Critical,
            "sum(rate(http_requests_total{status=~\"5..\"}[5m])) / sum(rate(http_requests_total[5m])) > 0.01",
            "5m",
            "High error rate detected",
            "Error rate is above 1%",
        ),
        alert(
            "SlowResponseTime",
            AlertSeverity::Warning,
            "histogram_quantile(0.99, sum(rate(http_request_duration_seconds_bucket[5m])) by (le)) > 2",
            "5m",
            "Slow response times",
            "P99 latency is above 2 seconds",
        ),
        alert(
            "PayrollCalculationBacklog",
            AlertSeverity::Warning,
            "payroll_pending_calculations > 10000",
            "10m",
            "Payroll calculation backlog",
            "More than 10,000 calculations pending",
        ),
        alert(
            "TaxEngineDown",
            AlertSeverity::Critical,
            "up{job=\"tax-engine\"} == 0",
            "1m",
            "Tax engine is down",
            "Tax calculation service is unavailable",
        ),
        alert(
            "PaymentProcessorDown",
            AlertSeverity::Critical,
            "up{job=\"payment-processor\"} == 0",
            "1m",
            "Payment processor is down",
            "Payment processing service is unavailable",
        ),
    ]
}

/// The views of a list of alerts.
pub open spec fn alert_views(alerts: Seq<AlertDefinition>) -> Seq<AlertView> {
    Seq::new(alerts.len(), |i: int| alerts[i]@)
}

/// An alert, from its parts.
fn make_alert(
    name: &'static str,
    severity: AlertSeverity,
    expr: &'static str,
    duration: &'static str,
    summary: &'static str,
    description: &'static str,
) -> (a: AlertDefinition)
    ensures
        a@ == alert(name, severity, expr, duration, summary, description),
{
    AlertDefinition {
        name: name.to_owned(),
        severity,
        expr: expr.to_owned(),
        duration: duration.to_owned(),
        summary: summary.to_owned(),
        description: description.to_owned(),
    }
}

/// The alerts every deployment of the platform comes with.
pub fn standard_alerts() -> (r: Vec<AlertDefinition>)
    ensures
        alert_views(r@) == alert_table(),
{
    let mut r: Vec<AlertDefinition> = Vec::new();
    r.push(
        make_alert(
            "HighErrorRate",
            AlertSeverity::Critical,
            "sum(rate(http_requests_total{status=~\"5..\"}[5m])) / sum(rate(http_requests_total[5m])) > 0.01",
            "5m",
            "High error rate detected",
            "Error rate is above 1%",
        ),
    );
    r.push(
        make_alert(
            "SlowResponseTime",
            AlertSeverity::Warning,
            "histogram_quantile(0.99, sum(rate(http_request_duration_seconds_bucket[5m])) by (le)) > 2",
            "5m",
            "Slow response times",
            "P99 latency is above 2 seconds",
        ),
    );
    r.push(
        make_alert(
            "PayrollCalculationBacklog",
            AlertSeverity::Warning,
            "payroll_pending_calculations > 10000",
            "10m",
            "Payroll calculation backlog",
            "More than 10,000 calculations pending",
        ),
    );
    r.push(
        make_alert(
            "TaxEngineDown",
            AlertSeverity::Critical,
            "up{job=\"tax-engine\"} == 0",
            "1m",
            "Tax engine is down",
            "Tax calculation service is unavailable",
        ),
    );
    r.push(
        make_alert(
            "PaymentProcessorDown",
            AlertSeverity::Critical,
            "up{job=\"payment-processor\"} == 0",
            "1m",
            "Payment processor is down",
            "Payment processing service is unavailable",
        ),
    );
    assert(alert_views(r@) =~= alert_table());
    r
}

} // verus!
