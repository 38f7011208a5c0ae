use vstd::prelude::*;

pub mod text;
pub mod string_map;
pub mod service_types;
pub mod plan_args;
pub mod asc_commands;
pub mod asc_descriptor;
pub mod hub;
pub mod runtime_catalog;
pub mod laws;
pub mod asc_presentation;
pub mod presentation;
pub mod instance;
pub mod asc_workspace;
pub mod asc_flows;
pub mod sorting;
pub mod asc_views;

pub use string_map::{StringMap, StringSet};
pub use service_types::{
    ServiceArtifactKind, ServiceArtifactRef, ServiceAuthAction, ServiceAuthActionDescriptor,
    ServiceAuthActionRequest, ServiceAuthConfiguration, ServiceAuthKind, ServiceCommandPlan,
    ServiceError, ServiceInputDescriptor, ServiceInputKind, ServiceNavigationItemDescriptor,
    ServiceOperationRequest, ServiceProviderDescriptor, ServiceResourceKindDescriptor,
    ServiceResourceRef, ServiceRunDescriptor, ServiceRunState, ServiceShellDescriptor,
    ServiceTargetDescriptor, ServiceWorkflowDescriptor, ServiceWorkflowKind,
    ServiceWorkflowRequest,
};
pub use hub::{AscServiceProvider, ServiceHub, ServiceProvider};
pub use runtime_catalog::{
    CapabilityState, DetectedProject, ExecutionPlan, ExecutionRequest, ProjectCapabilities,
    ProjectKind, RootDetections, RuntimeAction, RuntimeCatalog, RuntimeDevice, RuntimeDeviceKind,
    RuntimeError,
    RuntimeTarget,
};

verus! {

} // verus!
