//! Scalar rate-type constitutive laws integrated by backward Euler.
//!
//! The verified part of the library holds what the integration decides
//! rather than what it computes in floating point: which law is selected and
//! which parameters it needs, the errors that construction and integration
//! report, the control of the local Newton iteration, and the bookkeeping of
//! the trajectories that a multi-step simulation records.

pub mod error;
pub mod newton;
pub mod params;
pub mod trajectory;

pub use error::ModelError;
pub use newton::{NewtonAction, NewtonIteration, N_ITERATIONS_MAX};
pub use params::{LawParams, ModelType, ParamName};
pub use trajectory::{StepRecord, Trajectory};
