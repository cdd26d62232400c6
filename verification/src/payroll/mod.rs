//! Payroll: what the platform knows of the countries it pays staff in, and
//! the routing of payments over mobile money.

pub mod africa_mobile_gateway;
pub mod asia_pacific;
pub mod central_eastern_europe;
pub mod developed_asia;
pub mod europe_east_noneu;
pub mod middle_east;
pub mod rate;
pub mod south_africa;
pub mod south_america;
pub mod southern_europe;
pub mod west_africa;
pub mod west_africa_enhanced;
pub mod western_europe;

pub use africa_mobile_gateway::{AfricaMobileMoneyRegistry, ProviderRouter};
pub use asia_pacific::AsiaPacificRegistry;
pub use central_eastern_europe::CentralEasternEuropeRegistry;
pub use developed_asia::DevelopedAsiaRegistry;
pub use europe_east_noneu::EasternEuropeNonEuRegistry;
pub use middle_east::MiddleEastRegistry;
pub use rate::Rate;
pub use south_africa::SouthernAfricaRegistry;
pub use south_america::SouthAmericaRegistry;
pub use southern_europe::SouthernEuropeRegistry;
pub use west_africa::WestAfricaTaxRegistry;
pub use western_europe::WesternEuropeExtendedRegistry;
