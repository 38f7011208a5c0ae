//! The data model of service providers: what they advertise, what they are
//! asked, what they answer with, and the views that contracts speak of.
use vstd::prelude::*;
use crate::string_map::{StringMap, StringSet, strings_view};

verus! {

/// The view of an optional string.
pub open spec fn opt_view(o: Option<String>) -> Option<Seq<char>> {
    match o {
        Some(s) => Some(s@),
        None => None,
    }
}

#[derive(Clone, Debug)]
pub struct ServiceProviderDescriptor {
    pub id: String,
    pub label: String,
    pub logo_asset_path: Option<String>,
    pub shell: ServiceShellDescriptor,
    pub auth_kind: ServiceAuthKind,
    pub auth: Option<ServiceAuthConfiguration>,
    pub targets: Vec<ServiceTargetDescriptor>,
    pub workflows: Vec<ServiceWorkflowDescriptor>,
}

#[derive(Clone, Debug)]
pub struct ServiceShellDescriptor {
    pub resource_kind: Option<ServiceResourceKindDescriptor>,
    pub navigation_items: Vec<ServiceNavigationItemDescriptor>,
    pub default_navigation_item_id: String,
}

#[derive(Clone, Debug)]
pub struct ServiceResourceKindDescriptor {
    pub singular_label: String,
    pub plural_label: String,
}

#[derive(Clone, Debug)]
pub struct ServiceNavigationItemDescriptor {
    pub id: String,
    pub label: String,
}

#[derive(Clone, Debug)]
pub struct ServiceTargetDescriptor {
    pub id: String,
    pub label: String,
    pub detail: Option<String>,
}

#[derive(Clone, Copy, Debug, PartialEq, Eq, Structural)]
pub enum ServiceWorkflowKind {
    Deploy,
    Release,
    Status,
}

#[derive(Clone, Debug)]
pub struct ServiceWorkflowDescriptor {
    pub id: String,
    pub label: String,
    pub detail: String,
    pub kind: ServiceWorkflowKind,
    pub resource_kind: Option<String>,
    pub target_ids: StringSet,
    pub inputs: Vec<ServiceInputDescriptor>,
}

/// Whether a workflow that declares `target_ids` can run against `target_id`:
/// a workflow that declares no target runs against any, or none.
pub open spec fn workflow_supports(target_ids: Set<Seq<char>>, target_id: Option<Seq<char>>) -> bool {
    target_ids == Set::<Seq<char>>::empty() || (target_id matches Some(t) && target_ids.contains(t))
}

impl ServiceWorkflowDescriptor {
    /// Whether this workflow can run against the target `target_id`.
    pub fn supports_target(&self, target_id: Option<&str>) -> (b: bool)
        ensures
            b == workflow_supports(
                self.target_ids@,
                match target_id {
                    Some(t) => Some(t@),
                    None => None,
                },
            ),
    {
        if self.target_ids.is_empty() {
            return true;
        }
        match target_id {
            Some(t) => self.target_ids.contains(t),
            None => false,
        }
    }
}

#[derive(Clone, Copy, Debug, PartialEq, Eq, Structural)]
pub enum ServiceAuthKind {
    NoAuth,
    ApiKey,
    OAuth,
}

#[derive(Clone, Debug)]
pub struct ServiceAuthConfiguration {
    pub kind: ServiceAuthKind,
    pub actions: Vec<ServiceAuthActionDescriptor>,
}

#[derive(Clone, Copy, Debug, PartialEq, Eq, Structural)]
pub enum ServiceAuthAction {
    Authenticate,
    Logout,
}

#[derive(Clone, Debug)]
pub struct ServiceAuthActionDescriptor {
    pub action: ServiceAuthAction,
    pub label: String,
    pub description: String,
    pub inputs: Vec<ServiceInputDescriptor>,
}

#[derive(Clone, Debug)]
pub struct ServiceInputDescriptor {
    pub key: String,
    pub label: String,
    pub kind: ServiceInputKind,
    pub required: bool,
    pub placeholder: Option<String>,
    pub help: Option<String>,
}

#[derive(Clone, Copy, Debug, PartialEq, Eq, Structural)]
pub enum ServiceInputKind {
    Text,
    FilePath,
    Toggle,
}

#[derive(Clone, Debug)]
pub struct ServiceResourceRef {
    pub provider_id: String,
    pub kind: String,
    pub external_id: String,
    pub label: String,
}

pub struct ResourceRefView {
    pub provider_id: Seq<char>,
    pub kind: Seq<char>,
    pub external_id: Seq<char>,
    pub label: Seq<char>,
}

impl View for ServiceResourceRef {
    type V = ResourceRefView;

    open spec fn view(&self) -> ResourceRefView {
        ResourceRefView {
            provider_id: self.provider_id@,
            kind: self.kind@,
            external_id: self.external_id@,
            label: self.label@,
        }
    }
}

/// A file handed to an operation; `path` is the file's path as text.
#[derive(Clone, Debug)]
pub struct ServiceArtifactRef {
    pub kind: ServiceArtifactKind,
    pub path: String,
}

pub struct ArtifactRefView {
    pub kind: ServiceArtifactKind,
    pub path: Seq<char>,
}

impl View for ServiceArtifactRef {
    type V = ArtifactRefView;

    open spec fn view(&self) -> ArtifactRefView {
        ArtifactRefView { kind: self.kind, path: self.path@ }
    }
}

#[derive(Clone, Copy, Debug, PartialEq, Eq, Structural)]
pub enum ServiceArtifactKind {
    Ipa,
    Pkg,
    AppBundle,
    Binary,
}

pub open spec fn opt_resource_view(o: Option<ServiceResourceRef>) -> Option<ResourceRefView> {
    match o {
        Some(r) => Some(r@),
        None => None,
    }
}

pub open spec fn opt_artifact_view(o: Option<ServiceArtifactRef>) -> Option<ArtifactRefView> {
    match o {
        Some(a) => Some(a@),
        None => None,
    }
}

#[derive(Clone, Debug)]
pub struct ServiceOperationRequest {
    pub provider_id: String,
    pub operation: String,
    pub resource: Option<ServiceResourceRef>,
    pub artifact: Option<ServiceArtifactRef>,
    pub input: StringMap,
}

pub struct OperationRequestView {
    pub provider_id: Seq<char>,
    pub operation: Seq<char>,
    pub resource: Option<ResourceRefView>,
    pub artifact: Option<ArtifactRefView>,
    pub input: Map<Seq<char>, Seq<char>>,
}

impl View for ServiceOperationRequest {
    type V = OperationRequestView;

    open spec fn view(&self) -> OperationRequestView {
        OperationRequestView {
            provider_id: self.provider_id@,
            operation: self.operation@,
            resource: opt_resource_view(self.resource),
            artifact: opt_artifact_view(self.artifact),
            input: self.input@,
        }
    }
}

#[derive(Clone, Debug)]
pub struct ServiceWorkflowRequest {
    pub provider_id: String,
    pub workflow: String,
    pub target_id: Option<String>,
    pub resource: Option<ServiceResourceRef>,
    pub artifact: Option<ServiceArtifactRef>,
    pub input: StringMap,
}

pub struct WorkflowRequestView {
    pub provider_id: Seq<char>,
    pub workflow: Seq<char>,
    pub target_id: Option<Seq<char>>,
    pub resource: Option<ResourceRefView>,
    pub artifact: Option<ArtifactRefView>,
    pub input: Map<Seq<char>, Seq<char>>,
}

impl View for ServiceWorkflowRequest {
    type V = WorkflowRequestView;

    open spec fn view(&self) -> WorkflowRequestView {
        WorkflowRequestView {
            provider_id: self.provider_id@,
            workflow: self.workflow@,
            target_id: opt_view(self.target_id),
            resource: opt_resource_view(self.resource),
            artifact: opt_artifact_view(self.artifact),
            input: self.input@,
        }
    }
}

#[derive(Clone, Debug)]
pub struct ServiceAuthActionRequest {
    pub provider_id: String,
    pub action: ServiceAuthAction,
    pub input: StringMap,
}

pub struct AuthActionRequestView {
    pub provider_id: Seq<char>,
    pub action: ServiceAuthAction,
    pub input: Map<Seq<char>, Seq<char>>,
}

impl View for ServiceAuthActionRequest {
    type V = AuthActionRequestView;

    open spec fn view(&self) -> AuthActionRequestView {
        AuthActionRequestView {
            provider_id: self.provider_id@,
            action: self.action,
            input: self.input@,
        }
    }
}

/// A command to run: `cwd` is a directory path as text, `env` the
/// environment variables to set.
#[derive(Clone, Debug)]
pub struct ServiceCommandPlan {
    pub label: String,
    pub command: String,
    pub args: Vec<String>,
    pub cwd: Option<String>,
    pub env: StringMap,
}

pub struct CommandPlanView {
    pub label: Seq<char>,
    pub command: Seq<char>,
    pub args: Seq<Seq<char>>,
    pub cwd: Option<Seq<char>>,
    pub env: Map<Seq<char>, Seq<char>>,
}

impl View for ServiceCommandPlan {
    type V = CommandPlanView;

    open spec fn view(&self) -> CommandPlanView {
        CommandPlanView {
            label: self.label@,
            command: self.command@,
            args: strings_view(self.args@),
            cwd: opt_view(self.cwd),
            env: self.env@,
        }
    }
}

#[derive(Clone, Debug)]
pub struct ServiceRunDescriptor {
    pub workflow: String,
    pub target_id: Option<String>,
    pub state: ServiceRunState,
    pub headline: String,
    pub detail: String,
    pub output: Option<String>,
}

/// The texts of a workflow run.
pub struct RunDescriptorView {
    pub workflow: Seq<char>,
    pub target_id: Option<Seq<char>>,
    pub state: ServiceRunState,
    pub headline: Seq<char>,
    pub detail: Seq<char>,
    pub output: Option<Seq<char>>,
}

impl View for ServiceRunDescriptor {
    type V = RunDescriptorView;

    open spec fn view(&self) -> RunDescriptorView {
        RunDescriptorView {
            workflow: self.workflow@,
            target_id: opt_view(self.target_id),
            state: self.state,
            headline: self.headline@,
            detail: self.detail@,
            output: opt_view(self.output),
        }
    }
}

#[derive(Clone, Copy, Debug, PartialEq, Eq, Structural)]
pub enum ServiceRunState {
    Pending,
    Running,
    Warning,
    Succeeded,
    Failed,
}

#[derive(Clone, Debug, PartialEq, Eq)]
pub enum ServiceError {
    UnknownProvider(String),
    UnsupportedOperation(String),
    UnsupportedWorkflow(String),
    UnsupportedAuthAction(String),
    UnexpectedResourceKind { expected: String, actual: String },
    UnexpectedTarget { expected: String, actual: String },
    MissingTarget(String),
    ArtifactRequired,
    UnexpectedArtifactKind { expected: String, actual: String },
    MissingInput(&'static str),
    InvalidInput(String),
}

pub enum ServiceErrorView {
    UnknownProvider(Seq<char>),
    UnsupportedOperation(Seq<char>),
    UnsupportedWorkflow(Seq<char>),
    UnsupportedAuthAction(Seq<char>),
    UnexpectedResourceKind { expected: Seq<char>, actual: Seq<char> },
    UnexpectedTarget { expected: Seq<char>, actual: Seq<char> },
    MissingTarget(Seq<char>),
    ArtifactRequired,
    UnexpectedArtifactKind { expected: Seq<char>, actual: Seq<char> },
    MissingInput(Seq<char>),
    InvalidInput(Seq<char>),
}

impl View for ServiceError {
    type V = ServiceErrorView;

    open spec fn view(&self) -> ServiceErrorView {
        match self {
            ServiceError::UnknownProvider(s) => ServiceErrorView::UnknownProvider(s@),
            ServiceError::UnsupportedOperation(s) => ServiceErrorView::UnsupportedOperation(s@),
            ServiceError::UnsupportedWorkflow(s) => ServiceErrorView::UnsupportedWorkflow(s@),
            ServiceError::UnsupportedAuthAction(s) => ServiceErrorView::UnsupportedAuthAction(s@),
            ServiceError::UnexpectedResourceKind { expected, actual } => {
                ServiceErrorView::UnexpectedResourceKind { expected: expected@, actual: actual@ }
            },
            ServiceError::UnexpectedTarget { expected, actual } => {
                ServiceErrorView::UnexpectedTarget { expected: expected@, actual: actual@ }
            },
            ServiceError::MissingTarget(s) => ServiceErrorView::MissingTarget(s@),
            ServiceError::ArtifactRequired => ServiceErrorView::ArtifactRequired,
            ServiceError::UnexpectedArtifactKind { expected, actual } => {
                ServiceErrorView::UnexpectedArtifactKind { expected: expected@, actual: actual@ }
            },
            ServiceError::MissingInput(s) => ServiceErrorView::MissingInput(s@),
            ServiceError::InvalidInput(s) => ServiceErrorView::InvalidInput(s@),
        }
    }
}

/// The view of the outcome of building a command plan.
pub open spec fn plan_result_view(r: Result<ServiceCommandPlan, ServiceError>) -> Result<
    CommandPlanView,
    ServiceErrorView,
> {
    match r {
        Ok(p) => Ok(p@),
        Err(e) => Err(e@),
    }
}

} // verus!
