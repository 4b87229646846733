pub mod laws;
pub mod pipeline;

pub use pipeline::{
    Deployment, DeploymentConfig, DeploymentLog, DeploymentQueue, DeploymentResult,
    DeploymentState, LogLevel,
};
