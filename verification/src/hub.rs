//! The App Store Connect provider, what it advertises, and the hub that
//! routes requests to providers by their id.
use vstd::prelude::*;
use crate::asc_commands::{
    app_store_version_link_outcome, auth_status_plan, authenticate_outcome,
    build_asc_auth_status, build_asc_authenticate, build_asc_build_app_store_version_link,
    build_asc_build_beta_detail, build_asc_create_app, build_asc_create_testflight_group,
    build_asc_list_apps, build_asc_list_builds, build_asc_logout, build_asc_pre_release_version,
    build_asc_publish_appstore, build_asc_publish_testflight, build_asc_upload_build,
    build_asc_version_view, build_asc_web_auth_login, build_asc_web_auth_status,
    build_beta_detail_outcome, create_app_outcome, create_testflight_group_outcome,
    list_apps_plan, list_builds_outcome, logout_plan, pre_release_version_outcome,
    publish_appstore_outcome, publish_testflight_outcome, upload_build_outcome,
    version_view_outcome, web_auth_login_outcome, web_auth_status_plan,
};
use crate::service_types::{
    AuthActionRequestView, CommandPlanView, OperationRequestView, ServiceAuthAction,
    ServiceAuthActionRequest, ServiceCommandPlan, ServiceError, ServiceErrorView, ServiceOperationRequest,
    ServiceProviderDescriptor, ServiceWorkflowRequest, WorkflowRequestView, plan_result_view,
};
use crate::asc_descriptor::{asc_descriptor, is_asc_descriptor};
use crate::text::{owned, str_eq};

verus! {

/// The id under which the App Store Connect provider is registered.
pub open spec fn asc_provider_id() -> Seq<char> {
    "app-store-connect"@
}

/// The outcome of an operation request sent to the App Store Connect
/// provider, chosen by the operation's name.
pub open spec fn operation_outcome(req: OperationRequestView) -> Result<
    CommandPlanView,
    ServiceErrorView,
> {
    let op = req.operation;
    if op == "auth_status"@ {
        Ok(auth_status_plan())
    } else if op == "web_auth_status"@ {
        Ok(web_auth_status_plan(req.input))
    } else if op == "web_auth_login"@ {
        web_auth_login_outcome(req.input)
    } else if op == "list_apps"@ {
        Ok(list_apps_plan(req.input))
    } else if op == "create_app"@ {
        create_app_outcome(req.input)
    } else if op == "list_builds"@ {
        list_builds_outcome(req)
    } else if op == "create_testflight_group"@ {
        create_testflight_group_outcome(req)
    } else if op == "build_pre_release_version"@ {
        pre_release_version_outcome(req)
    } else if op == "build_beta_detail"@ {
        build_beta_detail_outcome(req)
    } else if op == "build_app_store_version_link"@ {
        app_store_version_link_outcome(req)
    } else if op == "version_view"@ {
        version_view_outcome(req)
    } else if op == "upload_build"@ {
        upload_build_outcome(req)
    } else {
        Err(ServiceErrorView::UnsupportedOperation(op))
    }
}

/// The outcome of a workflow request sent to the App Store Connect
/// provider, chosen by the workflow's name.
pub open spec fn workflow_outcome(req: WorkflowRequestView) -> Result<
    CommandPlanView,
    ServiceErrorView,
> {
    if req.workflow == "publish_testflight"@ {
        publish_testflight_outcome(req)
    } else if req.workflow == "publish_appstore"@ {
        publish_appstore_outcome(req)
    } else {
        Err(ServiceErrorView::UnsupportedWorkflow(req.workflow))
    }
}

/// The outcome of an authentication request sent to the App Store
/// Connect provider.
pub open spec fn auth_action_outcome(req: AuthActionRequestView) -> Result<
    CommandPlanView,
    ServiceErrorView,
> {
    match req.action {
        ServiceAuthAction::Authenticate => authenticate_outcome(req.input),
        ServiceAuthAction::Logout => Ok(logout_plan()),
    }
}

/// A service that can describe itself and turn requests into command plans.
pub trait ServiceProvider {
    fn descriptor(&self) -> ServiceProviderDescriptor;

    fn build_auth_action(&self, request: &ServiceAuthActionRequest) -> Result<
        ServiceCommandPlan,
        ServiceError,
    >;

    fn build_operation(&self, request: &ServiceOperationRequest) -> Result<
        ServiceCommandPlan,
        ServiceError,
    >;

    fn build_workflow(&self, request: &ServiceWorkflowRequest) -> Result<
        ServiceCommandPlan,
        ServiceError,
    >;
}

/// The App Store Connect provider, which drives the `asc` tool.
#[derive(Clone, Copy, Debug)]
pub struct AscServiceProvider;

impl ServiceProvider for AscServiceProvider {
    fn descriptor(&self) -> (d: ServiceProviderDescriptor)
        ensures
            is_asc_descriptor(d),
    {
        asc_descriptor()
    }

    fn build_auth_action(&self, request: &ServiceAuthActionRequest) -> (r: Result<
        ServiceCommandPlan,
        ServiceError,
    >)
        ensures
            plan_result_view(r) == auth_action_outcome(request@),
    {
        match request.action {
            ServiceAuthAction::Authenticate => build_asc_authenticate(request),
            ServiceAuthAction::Logout => Ok(build_asc_logout()),
        }
    }

    fn build_operation(&self, request: &ServiceOperationRequest) -> (r: Result<
        ServiceCommandPlan,
        ServiceError,
    >)
        ensures
            plan_result_view(r) == operation_outcome(request@),
    {
        let op = request.operation.as_str();
        if str_eq(op, "auth_status") {
            Ok(build_asc_auth_status())
        } else if str_eq(op, "web_auth_status") {
            Ok(build_asc_web_auth_status(request))
        } else if str_eq(op, "web_auth_login") {
            build_asc_web_auth_login(request)
        } else if str_eq(op, "list_apps") {
            Ok(build_asc_list_apps(request))
        } else if str_eq(op, "create_app") {
            build_asc_create_app(request)
        } else if str_eq(op, "list_builds") {
            build_asc_list_builds(request)
        } else if str_eq(op, "create_testflight_group") {
            build_asc_create_testflight_group(request)
        } else if str_eq(op, "build_pre_release_version") {
            build_asc_pre_release_version(request)
        } else if str_eq(op, "build_beta_detail") {
            build_asc_build_beta_detail(request)
        } else if str_eq(op, "build_app_store_version_link") {
            build_asc_build_app_store_version_link(request)
        } else if str_eq(op, "version_view") {
            build_asc_version_view(request)
        } else if str_eq(op, "upload_build") {
            build_asc_upload_build(request)
        } else {
            Err(ServiceError::UnsupportedOperation(owned(op)))
        }
    }

    fn build_workflow(&self, request: &ServiceWorkflowRequest) -> (r: Result<
        ServiceCommandPlan,
        ServiceError,
    >)
        ensures
            plan_result_view(r) == workflow_outcome(request@),
    {
        let workflow = request.workflow.as_str();
        if str_eq(workflow, "publish_testflight") {
            build_asc_publish_testflight(request)
        } else if str_eq(workflow, "publish_appstore") {
            build_asc_publish_appstore(request)
        } else {
            Err(ServiceError::UnsupportedWorkflow(owned(workflow)))
        }
    }
}


/// What the hub answers: the provider's outcome when a provider with the
/// request's id is registered, and otherwise that the provider is unknown.
pub open spec fn routed(
    registered: bool,
    provider_id: Seq<char>,
    outcome: Result<CommandPlanView, ServiceErrorView>,
) -> Result<CommandPlanView, ServiceErrorView> {
    if registered {
        outcome
    } else {
        Err(ServiceErrorView::UnknownProvider(provider_id))
    }
}

/// The registry of service providers.
pub struct ServiceHub {
    providers: Vec<AscServiceProvider>,
}

impl ServiceHub {
    /// How many providers are registered.
    pub closed spec fn provider_count(&self) -> nat {
        self.providers@.len()
    }

    /// Whether a provider with the id `provider_id` is registered.
    pub open spec fn serves(&self, provider_id: Seq<char>) -> bool {
        self.provider_count() > 0 && provider_id == asc_provider_id()
    }

    /// The descriptors of the registered providers, in registration order.
    pub fn providers(&self) -> (r: Vec<ServiceProviderDescriptor>)
        ensures
            r@.len() == self.provider_count(),
            forall|i: int| 0 <= i < r@.len() ==> is_asc_descriptor(#[trigger] r@[i]),
    {
        let mut r: Vec<ServiceProviderDescriptor> = Vec::new();
        let mut i: usize = 0;
        while i < self.providers.len()
            invariant
                i <= self.providers@.len(),
                r@.len() == i,
                forall|j: int| 0 <= j < r@.len() ==> is_asc_descriptor(#[trigger] r@[j]),
            decreases self.providers@.len() - i,
        {
            r.push(self.providers[i].descriptor());
            i = i + 1;
        }
        r
    }

    /// The first registered provider whose id is `provider_id`.
    fn find_provider(&self, provider_id: &str) -> (r: Option<&AscServiceProvider>)
        ensures
            r is Some == self.serves(provider_id@),
    {
        let mut i: usize = 0;
        while i < self.providers.len()
            invariant
                i <= self.providers@.len(),
                i > 0 ==> provider_id@ != asc_provider_id(),
            decreases self.providers@.len() - i,
        {
            let d = self.providers[i].descriptor();
            if str_eq(d.id.as_str(), provider_id) {
                return Some(&self.providers[i]);
            }
            i = i + 1;
        }
        None
    }

    /// Routes an operation request to its provider.
    pub fn build_operation(&self, request: &ServiceOperationRequest) -> (r: Result<
        ServiceCommandPlan,
        ServiceError,
    >)
        ensures
            plan_result_view(r) == routed(
                self.serves(request.provider_id@),
                request.provider_id@,
                operation_outcome(request@),
            ),
    {
        match self.find_provider(request.provider_id.as_str()) {
            Some(provider) => provider.build_operation(request),
            None => Err(ServiceError::UnknownProvider(request.provider_id.clone())),
        }
    }

    /// Routes an authentication request to its provider.
    pub fn build_auth_action(&self, request: &ServiceAuthActionRequest) -> (r: Result<
        ServiceCommandPlan,
        ServiceError,
    >)
        ensures
            plan_result_view(r) == routed(
                self.serves(request.provider_id@),
                request.provider_id@,
                auth_action_outcome(request@),
            ),
    {
        match self.find_provider(request.provider_id.as_str()) {
            Some(provider) => provider.build_auth_action(request),
            None => Err(ServiceError::UnknownProvider(request.provider_id.clone())),
        }
    }

    /// Routes a workflow request to its provider.
    pub fn build_workflow(&self, request: &ServiceWorkflowRequest) -> (r: Result<
        ServiceCommandPlan,
        ServiceError,
    >)
        ensures
            plan_result_view(r) == routed(
                self.serves(request.provider_id@),
                request.provider_id@,
                workflow_outcome(request@),
            ),
    {
        match self.find_provider(request.provider_id.as_str()) {
            Some(provider) => provider.build_workflow(request),
            None => Err(ServiceError::UnknownProvider(request.provider_id.clone())),
        }
    }
}

impl Default for ServiceHub {
    /// A hub with the App Store Connect provider registered.
    fn default() -> (h: ServiceHub)
        ensures
            h.provider_count() == 1,
    {
        let mut providers: Vec<AscServiceProvider> = Vec::new();
        providers.push(AscServiceProvider);
        ServiceHub { providers }
    }
}

} // verus!
