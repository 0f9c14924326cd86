//! Request/response client layer with a checked retry controller and a
//! scripted in-memory transport for deterministic tests.

pub mod client;
pub mod codec;
pub mod error;
pub mod laws;
pub mod mock;
pub mod model;

pub use client::{checked_step, CheckedStep, Client, RestTransport};
pub use error::{RestError, RestErrorKind, RestResult, RestTransportState};
pub use mock::{
    MockBehavior, MockBehaviorPlan, MockOperation, MockResponse, MockRestAdapter,
    MockRestStateSnapshot, MockScenario, MockScenarioStep, MockScenarioStepKind,
};
pub use model::{RestRawResponse, RestRequest, RestResponse, RestRetryPolicy};
