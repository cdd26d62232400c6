//! The control plane: global state, policy distribution, rerouting on PoP
//! failure, health classification and lease-based fail-over.

pub mod central;
pub mod failover;
pub mod health;
pub mod regional;
pub mod types;

pub use central::CentralController;
pub use crate::clock::Timestamp;
pub use failover::{AtomicRole, FailoverManager, Lease, LeaseView, PeerController};
pub use health::{HealthMonitor, HealthTracker};
pub use regional::RegionalController;
pub use types::{
    ControllerConfig, ControllerError, Gauge, GlobalState, HealthConfig, HealthStatus, Policy,
    PolicyConfig, PolicyType, PolicyView, PopInfo, PopStatus, Region, Role, Route, RoutingConfig,
    Tunnel, TunnelStatus,
};
