//! Straight-line vehicle dynamics on saturating fixed-point quantities.
pub mod fixed;
pub mod engine;
pub mod transmission;
pub mod wheels;
pub mod chassis;
pub mod car;
pub mod templates;

pub use car::Car;
pub use chassis::{Chassis, DriveWheels};
pub use engine::{Engine, TorqueCurve};
pub use templates::{CarType, Templates};
pub use transmission::Transmission;
pub use wheels::{TractionModel, WheelPair};
