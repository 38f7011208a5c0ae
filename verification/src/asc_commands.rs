//! Command plans for the App Store Connect command-line tool `asc`.
use vstd::prelude::*;
use crate::plan_args::{
    args_of, flag_value, flag_when, input_is_true, input_trimmed, input_value, is_true, lookup,
    lookup_trimmed, push_arg, push_flag_value, push_flag_when,
};
use crate::service_types::{
    CommandPlanView, OperationRequestView, ResourceRefView, ServiceArtifactKind,
    ServiceAuthActionRequest, ServiceCommandPlan, ServiceError, ServiceErrorView,
    ServiceOperationRequest, ServiceResourceRef, ServiceWorkflowRequest, WorkflowRequestView,
    plan_result_view, opt_resource_view, opt_view,
};
use crate::string_map::{StringMap, strings_view};
use crate::text::{owned, str_eq};

verus! {

/// A plan that runs `asc` with `args`, in no particular directory.
pub open spec fn asc_plan(
    label: Seq<char>,
    args: Seq<Seq<char>>,
    env: Map<Seq<char>, Seq<char>>,
) -> CommandPlanView {
    CommandPlanView { label, command: "asc"@, args, cwd: None, env }
}

/// Arguments that ask `asc` for indented JSON output.
pub open spec fn json_output() -> Seq<Seq<char>> {
    seq!["--output"@, "json"@, "--pretty"@]
}

fn asc_command_plan(label: String, args: Vec<String>, env: StringMap) -> (p: ServiceCommandPlan)
    ensures
        p@ == asc_plan(label@, strings_view(args@), env@),
{
    ServiceCommandPlan { label, command: owned("asc"), args, cwd: None, env }
}

fn push_json_output(args: &mut Vec<String>)
    ensures
        strings_view(final(args)@) == strings_view(old(args)@) + json_output(),
{
    push_arg(args, "--output");
    push_arg(args, "json");
    push_arg(args, "--pretty");
    assert(strings_view(args@) =~= strings_view(old(args)@) + json_output());
}

/// The plan that validates the stored App Store Connect credentials.
pub open spec fn auth_status_plan() -> CommandPlanView {
    asc_plan(
        "Validate App Store Connect authentication"@,
        seq!["auth"@, "status"@, "--validate"@] + json_output(),
        Map::empty(),
    )
}

pub fn build_asc_auth_status() -> (p: ServiceCommandPlan)
    ensures
        p@ == auth_status_plan(),
{
    let mut args = args_of(&["auth", "status", "--validate"]);
    assert(strings_view(args@) =~= seq!["auth"@, "status"@, "--validate"@]);
    push_json_output(&mut args);
    asc_command_plan(owned("Validate App Store Connect authentication"), args, StringMap::new())
}


/// The environment that carries the web-session password, when one is given.
pub open spec fn password_env(m: Map<Seq<char>, Seq<char>>) -> Map<Seq<char>, Seq<char>> {
    match lookup_trimmed(m, "password"@) {
        Some(p) => Map::<Seq<char>, Seq<char>>::empty().insert("ASC_WEB_PASSWORD"@, p),
        None => Map::empty(),
    }
}

fn password_environment(m: &StringMap) -> (env: StringMap)
    ensures
        env@ == password_env(m@),
{
    let mut env = StringMap::new();
    match input_trimmed(m, "password") {
        Some(p) => env.insert(owned("ASC_WEB_PASSWORD"), p),
        None => {},
    }
    env
}

fn labelled(prefix: &str, name: &str) -> (r: String)
    ensures
        r@ == prefix@ + name@,
{
    let mut r = owned(prefix);
    r.append(name);
    r
}

/// The plan that reports the state of the App Store Connect web session.
pub open spec fn web_auth_status_plan(m: Map<Seq<char>, Seq<char>>) -> CommandPlanView {
    asc_plan(
        "Check App Store Connect web-session authentication"@,
        seq!["web"@, "auth"@, "status"@] + json_output() + flag_value(
            "--apple-id"@,
            lookup_trimmed(m, "apple_id"@),
        ),
        Map::empty(),
    )
}

pub fn build_asc_web_auth_status(request: &ServiceOperationRequest) -> (p: ServiceCommandPlan)
    ensures
        p@ == web_auth_status_plan(request.input@),
{
    let mut args = args_of(&["web", "auth", "status"]);
    assert(strings_view(args@) =~= seq!["web"@, "auth"@, "status"@]);
    push_json_output(&mut args);
    push_flag_value(&mut args, "--apple-id", input_trimmed(&request.input, "apple_id"));
    asc_command_plan(
        owned("Check App Store Connect web-session authentication"),
        args,
        StringMap::new(),
    )
}

/// The outcome of signing in to the App Store Connect web session.
pub open spec fn web_auth_login_outcome(m: Map<Seq<char>, Seq<char>>) -> Result<
    CommandPlanView,
    ServiceErrorView,
> {
    match lookup_trimmed(m, "apple_id"@) {
        None => Err(ServiceErrorView::MissingInput("apple_id"@)),
        Some(apple_id) => Ok(
            asc_plan(
                "Authenticate App Store Connect web session"@,
                seq!["web"@, "auth"@, "login"@, "--apple-id"@, apple_id] + json_output()
                    + flag_value(
                    "--two-factor-code-command"@,
                    lookup_trimmed(m, "two_factor_code_command"@),
                ) + flag_value("--two-factor-code"@, lookup_trimmed(m, "two_factor_code"@)),
                password_env(m),
            ),
        ),
    }
}

pub fn build_asc_web_auth_login(request: &ServiceOperationRequest) -> (r: Result<
    ServiceCommandPlan,
    ServiceError,
>)
    ensures
        plan_result_view(r) == web_auth_login_outcome(request.input@),
{
    let m = &request.input;
    let apple_id = match input_trimmed(m, "apple_id") {
        Some(a) => a,
        None => return Err(ServiceError::MissingInput("apple_id")),
    };
    let mut args = args_of(&["web", "auth", "login", "--apple-id"]);
    assert(strings_view(args@) =~= seq!["web"@, "auth"@, "login"@, "--apple-id"@]);
    let ghost a = apple_id@;
    args.push(apple_id);
    assert(strings_view(args@) =~= seq!["web"@, "auth"@, "login"@, "--apple-id"@, a]);
    push_json_output(&mut args);
    push_flag_value(
        &mut args,
        "--two-factor-code-command",
        input_trimmed(m, "two_factor_code_command"),
    );
    push_flag_value(&mut args, "--two-factor-code", input_trimmed(m, "two_factor_code"));
    Ok(
        asc_command_plan(
            owned("Authenticate App Store Connect web session"),
            args,
            password_environment(m),
        ),
    )
}

/// The outcome of registering an App Store Connect API key.
pub open spec fn authenticate_outcome(m: Map<Seq<char>, Seq<char>>) -> Result<
    CommandPlanView,
    ServiceErrorView,
> {
    if lookup(m, "profile_name"@) is None {
        Err(ServiceErrorView::MissingInput("profile_name"@))
    } else if lookup(m, "key_id"@) is None {
        Err(ServiceErrorView::MissingInput("key_id"@))
    } else if lookup(m, "issuer_id"@) is None {
        Err(ServiceErrorView::MissingInput("issuer_id"@))
    } else if lookup(m, "private_key_path"@) is None {
        Err(ServiceErrorView::MissingInput("private_key_path"@))
    } else {
        Ok(
            asc_plan(
                "Authenticate App Store Connect"@,
                seq![
                    "auth"@,
                    "login"@,
                    "--name"@,
                    m["profile_name"@],
                    "--key-id"@,
                    m["key_id"@],
                    "--issuer-id"@,
                    m["issuer_id"@],
                    "--private-key"@,
                    m["private_key_path"@],
                ] + (if is_true(m, "repo_local"@) {
                    seq!["--bypass-keychain"@, "--local"@]
                } else {
                    Seq::empty()
                }) + flag_when("--network"@, is_true(m, "validate_network"@)),
                Map::empty(),
            ),
        )
    }
}

pub fn build_asc_authenticate(request: &ServiceAuthActionRequest) -> (r: Result<
    ServiceCommandPlan,
    ServiceError,
>)
    ensures
        plan_result_view(r) == authenticate_outcome(request.input@),
{
    let m = &request.input;
    let profile_name = match input_value(m, "profile_name") {
        Some(v) => v,
        None => return Err(ServiceError::MissingInput("profile_name")),
    };
    let key_id = match input_value(m, "key_id") {
        Some(v) => v,
        None => return Err(ServiceError::MissingInput("key_id")),
    };
    let issuer_id = match input_value(m, "issuer_id") {
        Some(v) => v,
        None => return Err(ServiceError::MissingInput("issuer_id")),
    };
    let private_key_path = match input_value(m, "private_key_path") {
        Some(v) => v,
        None => return Err(ServiceError::MissingInput("private_key_path")),
    };
    let mut args = no_args_vec();
    push_arg(&mut args, "auth");
    push_arg(&mut args, "login");
    push_flag_value(&mut args, "--name", Some(profile_name));
    push_flag_value(&mut args, "--key-id", Some(key_id));
    push_flag_value(&mut args, "--issuer-id", Some(issuer_id));
    push_flag_value(&mut args, "--private-key", Some(private_key_path));
    let ghost base = strings_view(args@);
    assert(base =~= seq![
        "auth"@,
        "login"@,
        "--name"@,
        m@["profile_name"@],
        "--key-id"@,
        m@["key_id"@],
        "--issuer-id"@,
        m@["issuer_id"@],
        "--private-key"@,
        m@["private_key_path"@],
    ]);
    if input_is_true(m, "repo_local") {
        push_arg(&mut args, "--bypass-keychain");
        push_arg(&mut args, "--local");
        assert(strings_view(args@) =~= base + seq!["--bypass-keychain"@, "--local"@]);
    } else {
        assert(strings_view(args@) =~= base + Seq::<Seq<char>>::empty());
    }
    push_flag_when(&mut args, "--network", input_is_true(m, "validate_network"));
    Ok(asc_command_plan(owned("Authenticate App Store Connect"), args, StringMap::new()))
}

fn no_args_vec() -> (r: Vec<String>)
    ensures
        strings_view(r@) == Seq::<Seq<char>>::empty(),
{
    crate::plan_args::no_args()
}

/// The plan that removes every stored App Store Connect credential.
pub open spec fn logout_plan() -> CommandPlanView {
    asc_plan(
        "Log out of App Store Connect"@,
        seq!["auth"@, "logout"@, "--all"@],
        Map::empty(),
    )
}

pub fn build_asc_logout() -> (p: ServiceCommandPlan)
    ensures
        p@ == logout_plan(),
{
    let args = args_of(&["auth", "logout", "--all"]);
    assert(strings_view(args@) =~= seq!["auth"@, "logout"@, "--all"@]);
    asc_command_plan(owned("Log out of App Store Connect"), args, StringMap::new())
}

/// The plan that lists the apps of the account.
pub open spec fn list_apps_plan(m: Map<Seq<char>, Seq<char>>) -> CommandPlanView {
    asc_plan(
        "List App Store Connect apps"@,
        seq!["apps"@, "list"@] + json_output() + flag_value("--limit"@, lookup(m, "limit"@))
            + flag_value("--name"@, lookup(m, "name"@)) + flag_value(
            "--bundle-id"@,
            lookup(m, "bundle_id"@),
        ) + flag_when("--paginate"@, is_true(m, "paginate"@)),
        Map::empty(),
    )
}

pub fn build_asc_list_apps(request: &ServiceOperationRequest) -> (p: ServiceCommandPlan)
    ensures
        p@ == list_apps_plan(request.input@),
{
    let m = &request.input;
    let mut args = args_of(&["apps", "list"]);
    assert(strings_view(args@) =~= seq!["apps"@, "list"@]);
    push_json_output(&mut args);
    push_flag_value(&mut args, "--limit", input_value(m, "limit"));
    push_flag_value(&mut args, "--name", input_value(m, "name"));
    push_flag_value(&mut args, "--bundle-id", input_value(m, "bundle_id"));
    push_flag_when(&mut args, "--paginate", input_is_true(m, "paginate"));
    asc_command_plan(owned("List App Store Connect apps"), args, StringMap::new())
}

/// The outcome of creating an app through the web session.
pub open spec fn create_app_outcome(m: Map<Seq<char>, Seq<char>>) -> Result<
    CommandPlanView,
    ServiceErrorView,
> {
    if lookup_trimmed(m, "name"@) is None {
        Err(ServiceErrorView::MissingInput("name"@))
    } else if lookup_trimmed(m, "bundle_id"@) is None {
        Err(ServiceErrorView::MissingInput("bundle_id"@))
    } else if lookup_trimmed(m, "sku"@) is None {
        Err(ServiceErrorView::MissingInput("sku"@))
    } else {
        let name = lookup_trimmed(m, "name"@)->0;
        Ok(
            asc_plan(
                "Create App Store Connect app "@ + name,
                seq![
                    "web"@,
                    "apps"@,
                    "create"@,
                    "--name"@,
                    name,
                    "--bundle-id"@,
                    lookup_trimmed(m, "bundle_id"@)->0,
                    "--sku"@,
                    lookup_trimmed(m, "sku"@)->0,
                ] + json_output() + flag_value("--platform"@, lookup_trimmed(m, "platform"@))
                    + flag_value("--primary-locale"@, lookup_trimmed(m, "primary_locale"@))
                    + flag_value("--version"@, lookup_trimmed(m, "version"@)) + flag_value(
                    "--company-name"@,
                    lookup_trimmed(m, "company_name"@),
                ) + flag_value("--apple-id"@, lookup_trimmed(m, "apple_id"@)) + flag_value(
                    "--two-factor-code-command"@,
                    lookup_trimmed(m, "two_factor_code_command"@),
                ) + flag_value("--two-factor-code"@, lookup_trimmed(m, "two_factor_code"@)),
                password_env(m),
            ),
        )
    }
}

pub fn build_asc_create_app(request: &ServiceOperationRequest) -> (r: Result<
    ServiceCommandPlan,
    ServiceError,
>)
    ensures
        plan_result_view(r) == create_app_outcome(request.input@),
{
    let m = &request.input;
    let name = match input_trimmed(m, "name") {
        Some(v) => v,
        None => return Err(ServiceError::MissingInput("name")),
    };
    let bundle_id = match input_trimmed(m, "bundle_id") {
        Some(v) => v,
        None => return Err(ServiceError::MissingInput("bundle_id")),
    };
    let sku = match input_trimmed(m, "sku") {
        Some(v) => v,
        None => return Err(ServiceError::MissingInput("sku")),
    };
    let label = labelled("Create App Store Connect app ", name.as_str());
    let mut args = args_of(&["web", "apps", "create"]);
    push_flag_value(&mut args, "--name", Some(name));
    push_flag_value(&mut args, "--bundle-id", Some(bundle_id));
    push_flag_value(&mut args, "--sku", Some(sku));
    assert(strings_view(args@) =~= seq![
        "web"@,
        "apps"@,
        "create"@,
        "--name"@,
        lookup_trimmed(m@, "name"@)->0,
        "--bundle-id"@,
        lookup_trimmed(m@, "bundle_id"@)->0,
        "--sku"@,
        lookup_trimmed(m@, "sku"@)->0,
    ]);
    push_json_output(&mut args);
    push_flag_value(&mut args, "--platform", input_trimmed(m, "platform"));
    push_flag_value(&mut args, "--primary-locale", input_trimmed(m, "primary_locale"));
    push_flag_value(&mut args, "--version", input_trimmed(m, "version"));
    push_flag_value(&mut args, "--company-name", input_trimmed(m, "company_name"));
    push_flag_value(&mut args, "--apple-id", input_trimmed(m, "apple_id"));
    push_flag_value(
        &mut args,
        "--two-factor-code-command",
        input_trimmed(m, "two_factor_code_command"),
    );
    push_flag_value(&mut args, "--two-factor-code", input_trimmed(m, "two_factor_code"));
    Ok(asc_command_plan(label, args, password_environment(m)))
}


/// Why a request's resource is unfit, if it is: absent (reported under
/// the name `missing`) or of a kind other than `expected`.
pub open spec fn resource_problem(
    resource: Option<ResourceRefView>,
    missing: Seq<char>,
    expected: Seq<char>,
) -> Option<ServiceErrorView> {
    match resource {
        None => Some(ServiceErrorView::MissingInput(missing)),
        Some(r) => if r.kind == expected {
            None
        } else {
            Some(ServiceErrorView::UnexpectedResourceKind { expected, actual: r.kind })
        },
    }
}

/// Checks that `resource` is of the kind `expected`.
pub fn ensure_resource_kind(resource: &ServiceResourceRef, expected: &str) -> (r: Result<
    (),
    ServiceError,
>)
    ensures
        match r {
            Ok(()) => resource.kind@ == expected@,
            Err(e) => resource.kind@ != expected@ && e@ == (ServiceErrorView::UnexpectedResourceKind {
                expected: expected@,
                actual: resource.kind@,
            }),
        },
{
    if str_eq(resource.kind.as_str(), expected) {
        Ok(())
    } else {
        Err(
            ServiceError::UnexpectedResourceKind {
                expected: owned(expected),
                actual: resource.kind.clone(),
            },
        )
    }
}

fn require_resource<'a>(
    resource: &'a Option<ServiceResourceRef>,
    missing: &'static str,
    expected: &str,
) -> (r: Result<&'a ServiceResourceRef, ServiceError>)
    ensures
        match r {
            Ok(x) => resource_problem(opt_resource_view(*resource), missing@, expected@) is None
                && opt_resource_view(*resource) == Some(x@),
            Err(e) => resource_problem(opt_resource_view(*resource), missing@, expected@) == Some(
                e@,
            ),
        },
{
    match resource {
        None => Err(ServiceError::MissingInput(missing)),
        Some(x) => match ensure_resource_kind(x, expected) {
            Ok(()) => Ok(x),
            Err(e) => Err(e),
        },
    }
}

/// Why a workflow's target is unfit, if it is: absent, or another than
/// `expected`.
pub open spec fn target_problem(target_id: Option<Seq<char>>, expected: Seq<char>) -> Option<
    ServiceErrorView,
> {
    match target_id {
        Some(t) => if t == expected {
            None
        } else {
            Some(ServiceErrorView::UnexpectedTarget { expected, actual: t })
        },
        None => Some(ServiceErrorView::MissingTarget(expected)),
    }
}

/// Checks that a workflow runs against the target `expected`.
pub fn ensure_target_matches(target_id: Option<&str>, expected: &str) -> (r: Result<
    (),
    ServiceError,
>)
    ensures
        match r {
            Ok(()) => target_problem(
                match target_id {
                    Some(t) => Some(t@),
                    None => None,
                },
                expected@,
            ) is None,
            Err(e) => target_problem(
                match target_id {
                    Some(t) => Some(t@),
                    None => None,
                },
                expected@,
            ) == Some(e@),
        },
{
    match target_id {
        Some(t) => if str_eq(t, expected) {
            Ok(())
        } else {
            Err(ServiceError::UnexpectedTarget { expected: owned(expected), actual: owned(t) })
        },
        None => Err(ServiceError::MissingTarget(owned(expected))),
    }
}

/// The outcome of a plan that needs a resource of the kind `expected`
/// and is otherwise made by `make` from it.
pub open spec fn with_resource(
    resource: Option<ResourceRefView>,
    missing: Seq<char>,
    expected: Seq<char>,
    make: spec_fn(ResourceRefView) -> CommandPlanView,
) -> Result<CommandPlanView, ServiceErrorView> {
    match resource_problem(resource, missing, expected) {
        Some(e) => Err(e),
        None => Ok(make(resource->0)),
    }
}

/// The plan that lists the builds of `app`.
pub open spec fn list_builds_plan(m: Map<Seq<char>, Seq<char>>, app: ResourceRefView) -> CommandPlanView {
    asc_plan(
        "List ASC builds for "@ + app.label,
        seq!["builds"@, "list"@, "--app"@, app.external_id] + json_output() + flag_value(
            "--version"@,
            lookup(m, "version"@),
        ) + flag_value("--build-number"@, lookup(m, "build_number"@)) + flag_value(
            "--limit"@,
            lookup(m, "limit"@),
        ) + flag_value("--next"@, lookup(m, "next"@)) + flag_value("--sort"@, lookup(m, "sort"@))
            + flag_value("--processing-state"@, lookup(m, "processing_state"@)) + flag_when(
            "--paginate"@,
            is_true(m, "paginate"@),
        ),
        Map::empty(),
    )
}

pub open spec fn list_builds_outcome(req: OperationRequestView) -> Result<CommandPlanView, ServiceErrorView> {
    with_resource(req.resource, "app"@, "app"@, |app: ResourceRefView| list_builds_plan(req.input, app))
}

fn args_with_id(parts: &[&str], id: &String) -> (r: Vec<String>)
    ensures
        strings_view(r@) == parts@.map_values(|s: &str| s@).push(id@),
{
    let mut r = args_of(parts);
    r.push(id.clone());
    assert(strings_view(r@) =~= parts@.map_values(|s: &str| s@).push(id@));
    r
}

pub fn build_asc_list_builds(request: &ServiceOperationRequest) -> (r: Result<
    ServiceCommandPlan,
    ServiceError,
>)
    ensures
        plan_result_view(r) == list_builds_outcome(request@),
{
    let app = match require_resource(&request.resource, "app", "app") {
        Ok(a) => a,
        Err(e) => return Err(e),
    };
    let m = &request.input;
    let mut args = args_with_id(&["builds", "list", "--app"], &app.external_id);
    assert(strings_view(args@) =~= seq!["builds"@, "list"@, "--app"@, app.external_id@]);
    push_json_output(&mut args);
    push_flag_value(&mut args, "--version", input_value(m, "version"));
    push_flag_value(&mut args, "--build-number", input_value(m, "build_number"));
    push_flag_value(&mut args, "--limit", input_value(m, "limit"));
    push_flag_value(&mut args, "--next", input_value(m, "next"));
    push_flag_value(&mut args, "--sort", input_value(m, "sort"));
    push_flag_value(&mut args, "--processing-state", input_value(m, "processing_state"));
    push_flag_when(&mut args, "--paginate", input_is_true(m, "paginate"));
    Ok(
        asc_command_plan(
            labelled("List ASC builds for ", app.label.as_str()),
            args,
            StringMap::new(),
        ),
    )
}

/// The plan that fetches the pre-release version of `build`.
pub open spec fn pre_release_version_plan(build: ResourceRefView) -> CommandPlanView {
    asc_plan(
        "Fetch ASC pre-release version for build "@ + build.label,
        seq!["builds"@, "pre-release-version"@, "get"@, "--build"@, build.external_id]
            + json_output(),
        Map::empty(),
    )
}

pub open spec fn pre_release_version_outcome(req: OperationRequestView) -> Result<
    CommandPlanView,
    ServiceErrorView,
> {
    with_resource(req.resource, "build"@, "build"@, |b: ResourceRefView| pre_release_version_plan(b))
}

pub fn build_asc_pre_release_version(request: &ServiceOperationRequest) -> (r: Result<
    ServiceCommandPlan,
    ServiceError,
>)
    ensures
        plan_result_view(r) == pre_release_version_outcome(request@),
{
    let build = match require_resource(&request.resource, "build", "build") {
        Ok(b) => b,
        Err(e) => return Err(e),
    };
    let mut args = args_with_id(
        &["builds", "pre-release-version", "get", "--build"],
        &build.external_id,
    );
    assert(strings_view(args@) =~= seq![
        "builds"@,
        "pre-release-version"@,
        "get"@,
        "--build"@,
        build.external_id@,
    ]);
    push_json_output(&mut args);
    Ok(
        asc_command_plan(
            labelled("Fetch ASC pre-release version for build ", build.label.as_str()),
            args,
            StringMap::new(),
        ),
    )
}

/// The plan that fetches the beta detail of `build`.
pub open spec fn build_beta_detail_plan(build: ResourceRefView) -> CommandPlanView {
    asc_plan(
        "Fetch ASC beta detail for build "@ + build.label,
        seq!["builds"@, "build-beta-detail"@, "view"@, "--build-id"@, build.external_id]
            + json_output(),
        Map::empty(),
    )
}

pub open spec fn build_beta_detail_outcome(req: OperationRequestView) -> Result<
    CommandPlanView,
    ServiceErrorView,
> {
    with_resource(req.resource, "build"@, "build"@, |b: ResourceRefView| build_beta_detail_plan(b))
}

pub fn build_asc_build_beta_detail(request: &ServiceOperationRequest) -> (r: Result<
    ServiceCommandPlan,
    ServiceError,
>)
    ensures
        plan_result_view(r) == build_beta_detail_outcome(request@),
{
    let build = match require_resource(&request.resource, "build", "build") {
        Ok(b) => b,
        Err(e) => return Err(e),
    };
    let mut args = args_with_id(
        &["builds", "build-beta-detail", "view", "--build-id"],
        &build.external_id,
    );
    assert(strings_view(args@) =~= seq![
        "builds"@,
        "build-beta-detail"@,
        "view"@,
        "--build-id"@,
        build.external_id@,
    ]);
    push_json_output(&mut args);
    Ok(
        asc_command_plan(
            labelled("Fetch ASC beta detail for build ", build.label.as_str()),
            args,
            StringMap::new(),
        ),
    )
}

/// The plan that fetches the App Store version linked to `build`.
pub open spec fn app_store_version_link_plan(build: ResourceRefView) -> CommandPlanView {
    asc_plan(
        "Fetch ASC App Store version linkage for build "@ + build.label,
        seq![
            "builds"@,
            "links"@,
            "view"@,
            "--build-id"@,
            build.external_id,
            "--type"@,
            "appStoreVersion"@,
        ] + json_output(),
        Map::empty(),
    )
}

pub open spec fn app_store_version_link_outcome(req: OperationRequestView) -> Result<
    CommandPlanView,
    ServiceErrorView,
> {
    with_resource(
        req.resource,
        "build"@,
        "build"@,
        |b: ResourceRefView| app_store_version_link_plan(b),
    )
}

pub fn build_asc_build_app_store_version_link(request: &ServiceOperationRequest) -> (r: Result<
    ServiceCommandPlan,
    ServiceError,
>)
    ensures
        plan_result_view(r) == app_store_version_link_outcome(request@),
{
    let build = match require_resource(&request.resource, "build", "build") {
        Ok(b) => b,
        Err(e) => return Err(e),
    };
    let mut args = args_with_id(&["builds", "links", "view", "--build-id"], &build.external_id);
    push_arg(&mut args, "--type");
    push_arg(&mut args, "appStoreVersion");
    assert(strings_view(args@) =~= seq![
        "builds"@,
        "links"@,
        "view"@,
        "--build-id"@,
        build.external_id@,
        "--type"@,
        "appStoreVersion"@,
    ]);
    push_json_output(&mut args);
    Ok(
        asc_command_plan(
            labelled("Fetch ASC App Store version linkage for build ", build.label.as_str()),
            args,
            StringMap::new(),
        ),
    )
}

/// The plan that shows the App Store version `version`.
pub open spec fn version_view_plan(version: ResourceRefView) -> CommandPlanView {
    asc_plan(
        "Fetch ASC App Store version "@ + version.label,
        seq!["versions"@, "view"@, "--version-id"@, version.external_id] + json_output(),
        Map::empty(),
    )
}

pub open spec fn version_view_outcome(req: OperationRequestView) -> Result<
    CommandPlanView,
    ServiceErrorView,
> {
    with_resource(
        req.resource,
        "version"@,
        "app_store_version"@,
        |v: ResourceRefView| version_view_plan(v),
    )
}

pub fn build_asc_version_view(request: &ServiceOperationRequest) -> (r: Result<
    ServiceCommandPlan,
    ServiceError,
>)
    ensures
        plan_result_view(r) == version_view_outcome(request@),
{
    let version = match require_resource(&request.resource, "version", "app_store_version") {
        Ok(v) => v,
        Err(e) => return Err(e),
    };
    let mut args = args_with_id(&["versions", "view", "--version-id"], &version.external_id);
    assert(strings_view(args@) =~= seq![
        "versions"@,
        "view"@,
        "--version-id"@,
        version.external_id@,
    ]);
    push_json_output(&mut args);
    Ok(
        asc_command_plan(
            labelled("Fetch ASC App Store version ", version.label.as_str()),
            args,
            StringMap::new(),
        ),
    )
}

/// The outcome of creating a TestFlight group for the request's app.
pub open spec fn create_testflight_group_outcome(req: OperationRequestView) -> Result<
    CommandPlanView,
    ServiceErrorView,
> {
    match resource_problem(req.resource, "app"@, "app"@) {
        Some(e) => Err(e),
        None => {
            let app = req.resource->0;
            match lookup_trimmed(req.input, "name"@) {
                None => Err(ServiceErrorView::MissingInput("name"@)),
                Some(name) => Ok(
                    asc_plan(
                        "Create TestFlight group "@ + name + " for "@ + app.label,
                        seq![
                            "testflight"@,
                            "groups"@,
                            "create"@,
                            "--app"@,
                            app.external_id,
                            "--name"@,
                            name,
                        ] + json_output() + flag_when(
                            "--internal"@,
                            is_true(req.input, "internal"@),
                        ),
                        Map::empty(),
                    ),
                ),
            }
        },
    }
}

pub fn build_asc_create_testflight_group(request: &ServiceOperationRequest) -> (r: Result<
    ServiceCommandPlan,
    ServiceError,
>)
    ensures
        plan_result_view(r) == create_testflight_group_outcome(request@),
{
    let app = match require_resource(&request.resource, "app", "app") {
        Ok(a) => a,
        Err(e) => return Err(e),
    };
    let m = &request.input;
    let name = match input_trimmed(m, "name") {
        Some(n) => n,
        None => return Err(ServiceError::MissingInput("name")),
    };
    let mut label = labelled("Create TestFlight group ", name.as_str());
    label.append(" for ");
    label.append(app.label.as_str());
    let mut args = args_with_id(&["testflight", "groups", "create", "--app"], &app.external_id);
    push_flag_value(&mut args, "--name", Some(name));
    assert(strings_view(args@) =~= seq![
        "testflight"@,
        "groups"@,
        "create"@,
        "--app"@,
        app.external_id@,
        "--name"@,
        lookup_trimmed(m@, "name"@)->0,
    ]);
    push_json_output(&mut args);
    push_flag_when(&mut args, "--internal", input_is_true(m, "internal"));
    Ok(asc_command_plan(label, args, StringMap::new()))
}

/// The flag and platform that upload an artifact of kind `kind`, or why
/// it cannot be uploaded.
pub open spec fn upload_flavor(kind: ServiceArtifactKind) -> Result<
    (Seq<char>, Option<Seq<char>>),
    ServiceErrorView,
> {
    match kind {
        ServiceArtifactKind::Ipa => Ok(("--ipa"@, None)),
        ServiceArtifactKind::Pkg => Ok(("--pkg"@, Some("MAC_OS"@))),
        ServiceArtifactKind::AppBundle => Err(
            ServiceErrorView::UnexpectedArtifactKind {
                expected: "ipa or pkg"@,
                actual: "app_bundle"@,
            },
        ),
        ServiceArtifactKind::Binary => Err(
            ServiceErrorView::UnexpectedArtifactKind {
                expected: "ipa or pkg"@,
                actual: "binary"@,
            },
        ),
    }
}

/// The outcome of uploading the request's artifact to its app.
pub open spec fn upload_build_outcome(req: OperationRequestView) -> Result<
    CommandPlanView,
    ServiceErrorView,
> {
    match resource_problem(req.resource, "app"@, "app"@) {
        Some(e) => Err(e),
        None => {
            let app = req.resource->0;
            match req.artifact {
                None => Err(ServiceErrorView::ArtifactRequired),
                Some(artifact) => match upload_flavor(artifact.kind) {
                    Err(e) => Err(e),
                    Ok((flag, platform)) => Ok(
                        asc_plan(
                            "Upload build to App Store Connect for "@ + app.label,
                            seq![
                                "builds"@,
                                "upload"@,
                                "--app"@,
                                app.external_id,
                                flag,
                                artifact.path,
                            ] + json_output() + flag_value("--platform"@, platform) + flag_value(
                                "--version"@,
                                lookup(req.input, "version"@),
                            ) + flag_value(
                                "--build-number"@,
                                lookup(req.input, "build_number"@),
                            ) + flag_when("--wait"@, is_true(req.input, "wait"@)),
                            Map::empty(),
                        ),
                    ),
                },
            }
        },
    }
}

pub fn build_asc_upload_build(request: &ServiceOperationRequest) -> (r: Result<
    ServiceCommandPlan,
    ServiceError,
>)
    ensures
        plan_result_view(r) == upload_build_outcome(request@),
{
    let app = match require_resource(&request.resource, "app", "app") {
        Ok(a) => a,
        Err(e) => return Err(e),
    };
    let artifact = match &request.artifact {
        Some(a) => a,
        None => return Err(ServiceError::ArtifactRequired),
    };
    let (flag, platform): (&str, Option<&str>) = match artifact.kind {
        ServiceArtifactKind::Ipa => ("--ipa", None),
        ServiceArtifactKind::Pkg => ("--pkg", Some("MAC_OS")),
        ServiceArtifactKind::AppBundle => {
            return Err(
                ServiceError::UnexpectedArtifactKind {
                    expected: owned("ipa or pkg"),
                    actual: owned("app_bundle"),
                },
            );
        },
        ServiceArtifactKind::Binary => {
            return Err(
                ServiceError::UnexpectedArtifactKind {
                    expected: owned("ipa or pkg"),
                    actual: owned("binary"),
                },
            );
        },
    };
    let m = &request.input;
    let mut args = args_with_id(&["builds", "upload", "--app"], &app.external_id);
    assert(strings_view(args@) =~= seq!["builds"@, "upload"@, "--app"@, app.external_id@]);
    push_arg(&mut args, flag);
    let ghost before = strings_view(args@);
    args.push(artifact.path.clone());
    assert(strings_view(args@) =~= before.push(artifact.path@));
    assert(strings_view(args@) =~= seq![
        "builds"@,
        "upload"@,
        "--app"@,
        app.external_id@,
        flag@,
        artifact.path@,
    ]);
    push_json_output(&mut args);
    let platform_value = match platform {
        Some(p) => Some(owned(p)),
        None => None,
    };
    push_flag_value(&mut args, "--platform", platform_value);
    push_flag_value(&mut args, "--version", input_value(m, "version"));
    push_flag_value(&mut args, "--build-number", input_value(m, "build_number"));
    push_flag_when(&mut args, "--wait", input_is_true(m, "wait"));
    Ok(
        asc_command_plan(
            labelled("Upload build to App Store Connect for ", app.label.as_str()),
            args,
            StringMap::new(),
        ),
    )
}


/// The outcome of publishing a build of the request's app to TestFlight.
pub open spec fn publish_testflight_outcome(req: WorkflowRequestView) -> Result<
    CommandPlanView,
    ServiceErrorView,
> {
    let m = req.input;
    match resource_problem(req.resource, "app"@, "app"@) {
        Some(e) => Err(e),
        None => match target_problem(req.target_id, "testflight"@) {
            Some(e) => Err(e),
            None => match lookup_trimmed(m, "group"@) {
                None => Err(ServiceErrorView::MissingInput("group"@)),
                Some(group) => {
                    let app = req.resource->0;
                    let ipa_path = lookup_trimmed(m, "ipa_path"@);
                    let build_id = lookup_trimmed(m, "build_id"@);
                    let build_number = lookup_trimmed(m, "build_number"@);
                    let export_options = lookup_trimmed(m, "export_options"@);
                    let project_path = lookup_trimmed(m, "project_path"@);
                    let workspace_path = lookup_trimmed(m, "workspace_path"@);
                    let scheme = lookup_trimmed(m, "scheme"@);
                    let local = project_path is Some || workspace_path is Some;
                    if project_path is Some && workspace_path is Some {
                        Err(
                            ServiceErrorView::InvalidInput(
                                "Publish to TestFlight accepts either a project path or a workspace path, not both."@,
                            ),
                        )
                    } else if local && scheme is None {
                        Err(
                            ServiceErrorView::InvalidInput(
                                "Publish to TestFlight requires a scheme when using a workspace project."@,
                            ),
                        )
                    } else if ipa_path is None && build_id is None && build_number is None
                        && !local {
                        Err(
                            ServiceErrorView::InvalidInput(
                                "Publish to TestFlight requires an IPA path, an existing build, a build number, or a workspace project."@,
                            ),
                        )
                    } else {
                        Ok(
                            asc_plan(
                                "Publish "@ + app.label + " to TestFlight"@,
                                seq![
                                    "publish"@,
                                    "testflight"@,
                                    "--app"@,
                                    app.external_id,
                                    "--group"@,
                                    group,
                                ] + json_output() + flag_value("--ipa"@, ipa_path) + flag_value(
                                    "--build"@,
                                    build_id,
                                ) + flag_value("--build-number"@, build_number) + flag_value(
                                    "--project"@,
                                    project_path,
                                ) + flag_value("--workspace"@, workspace_path) + flag_value(
                                    "--scheme"@,
                                    scheme,
                                ) + flag_value("--export-options"@, export_options) + flag_value(
                                    "--version"@,
                                    lookup_trimmed(m, "version"@),
                                ) + flag_value("--platform"@, lookup_trimmed(m, "platform"@))
                                    + flag_when("--wait"@, is_true(m, "wait"@)) + flag_when(
                                    "--notify"@,
                                    is_true(m, "notify"@),
                                ) + flag_when("--clean"@, is_true(m, "clean"@)) + flag_value(
                                    "--configuration"@,
                                    lookup_trimmed(m, "configuration"@),
                                ),
                                Map::empty(),
                            ),
                        )
                    }
                },
            },
        },
    }
}

fn target_ref(target_id: &Option<String>) -> (r: Option<&str>)
    ensures
        match r {
            Some(t) => Some(t@),
            None => None::<Seq<char>>,
        } == opt_view(*target_id),
{
    match target_id {
        Some(t) => Some(t.as_str()),
        None => None,
    }
}

pub fn build_asc_publish_testflight(request: &ServiceWorkflowRequest) -> (r: Result<
    ServiceCommandPlan,
    ServiceError,
>)
    ensures
        plan_result_view(r) == publish_testflight_outcome(request@),
{
    let app = match require_resource(&request.resource, "app", "app") {
        Ok(a) => a,
        Err(e) => return Err(e),
    };
    match ensure_target_matches(target_ref(&request.target_id), "testflight") {
        Ok(()) => {},
        Err(e) => return Err(e),
    }
    let m = &request.input;
    let group = match input_trimmed(m, "group") {
        Some(g) => g,
        None => return Err(ServiceError::MissingInput("group")),
    };
    let ipa_path = input_trimmed(m, "ipa_path");
    let existing_build_id = input_trimmed(m, "build_id");
    let build_number = input_trimmed(m, "build_number");
    let export_options = input_trimmed(m, "export_options");
    let project_path = input_trimmed(m, "project_path");
    let workspace_path = input_trimmed(m, "workspace_path");
    let scheme = input_trimmed(m, "scheme");

    if project_path.is_some() && workspace_path.is_some() {
        return Err(
            ServiceError::InvalidInput(
                owned(
                    "Publish to TestFlight accepts either a project path or a workspace path, not both.",
                ),
            ),
        );
    }
    let uses_local_build = project_path.is_some() || workspace_path.is_some();
    if uses_local_build && scheme.is_none() {
        return Err(
            ServiceError::InvalidInput(
                owned("Publish to TestFlight requires a scheme when using a workspace project."),
            ),
        );
    }
    if ipa_path.is_none() && existing_build_id.is_none() && build_number.is_none()
        && !uses_local_build {
        return Err(
            ServiceError::InvalidInput(
                owned(
                    "Publish to TestFlight requires an IPA path, an existing build, a build number, or a workspace project.",
                ),
            ),
        );
    }

    let mut label = labelled("Publish ", app.label.as_str());
    label.append(" to TestFlight");
    let mut args = args_with_id(&["publish", "testflight", "--app"], &app.external_id);
    let ghost g = group@;
    push_flag_value(&mut args, "--group", Some(group));
    assert(strings_view(args@) =~= seq![
        "publish"@,
        "testflight"@,
        "--app"@,
        app.external_id@,
        "--group"@,
        g,
    ]);
    push_json_output(&mut args);
    push_flag_value(&mut args, "--ipa", ipa_path);
    push_flag_value(&mut args, "--build", existing_build_id);
    push_flag_value(&mut args, "--build-number", build_number);
    push_flag_value(&mut args, "--project", project_path);
    push_flag_value(&mut args, "--workspace", workspace_path);
    push_flag_value(&mut args, "--scheme", scheme);
    push_flag_value(&mut args, "--export-options", export_options);
    push_flag_value(&mut args, "--version", input_trimmed(m, "version"));
    push_flag_value(&mut args, "--platform", input_trimmed(m, "platform"));
    push_flag_when(&mut args, "--wait", input_is_true(m, "wait"));
    push_flag_when(&mut args, "--notify", input_is_true(m, "notify"));
    push_flag_when(&mut args, "--clean", input_is_true(m, "clean"));
    push_flag_value(&mut args, "--configuration", input_trimmed(m, "configuration"));
    Ok(asc_command_plan(label, args, StringMap::new()))
}

/// The outcome of publishing a build of the request's app to the App Store.
pub open spec fn publish_appstore_outcome(req: WorkflowRequestView) -> Result<
    CommandPlanView,
    ServiceErrorView,
> {
    let m = req.input;
    match resource_problem(req.resource, "app"@, "app"@) {
        Some(e) => Err(e),
        None => match target_problem(req.target_id, "app_store"@) {
            Some(e) => Err(e),
            None => {
                let app = req.resource->0;
                let ipa_path = lookup_trimmed(m, "ipa_path"@);
                let project_path = lookup_trimmed(m, "project_path"@);
                let workspace_path = lookup_trimmed(m, "workspace_path"@);
                let scheme = lookup_trimmed(m, "scheme"@);
                let export_options = lookup_trimmed(m, "export_options"@);
                let local = project_path is Some || workspace_path is Some;
                if project_path is Some && workspace_path is Some {
                    Err(
                        ServiceErrorView::InvalidInput(
                            "Publish to the App Store accepts either a project path or a workspace path, not both."@,
                        ),
                    )
                } else if local && scheme is None {
                    Err(
                        ServiceErrorView::InvalidInput(
                            "Publish to the App Store requires a scheme when using a workspace project."@,
                        ),
                    )
                } else if ipa_path is None && !local {
                    Err(ServiceErrorView::MissingInput("ipa_path"@))
                } else if is_true(m, "submit"@) && !is_true(m, "confirm"@) {
                    Err(
                        ServiceErrorView::InvalidInput(
                            "Confirm Submission must be enabled when Submit For Review is selected."@,
                        ),
                    )
                } else {
                    Ok(
                        asc_plan(
                            "Publish "@ + app.label + " to the App Store"@,
                            seq!["publish"@, "appstore"@, "--app"@, app.external_id]
                                + json_output() + flag_value("--ipa"@, ipa_path) + flag_value(
                                "--project"@,
                                project_path,
                            ) + flag_value("--workspace"@, workspace_path) + flag_value(
                                "--scheme"@,
                                scheme,
                            ) + flag_value("--export-options"@, export_options) + flag_value(
                                "--version"@,
                                lookup_trimmed(m, "version"@),
                            ) + flag_value("--build-number"@, lookup_trimmed(m, "build_number"@))
                                + flag_value("--platform"@, lookup_trimmed(m, "platform"@))
                                + flag_when("--wait"@, is_true(m, "wait"@)) + flag_when(
                                "--clean"@,
                                is_true(m, "clean"@),
                            ) + flag_value(
                                "--configuration"@,
                                lookup_trimmed(m, "configuration"@),
                            ) + (if is_true(m, "submit"@) {
                                seq!["--submit"@, "--confirm"@]
                            } else {
                                Seq::empty()
                            }),
                            Map::empty(),
                        ),
                    )
                }
            },
        },
    }
}

pub fn build_asc_publish_appstore(request: &ServiceWorkflowRequest) -> (r: Result<
    ServiceCommandPlan,
    ServiceError,
>)
    ensures
        plan_result_view(r) == publish_appstore_outcome(request@),
{
    let app = match require_resource(&request.resource, "app", "app") {
        Ok(a) => a,
        Err(e) => return Err(e),
    };
    match ensure_target_matches(target_ref(&request.target_id), "app_store") {
        Ok(()) => {},
        Err(e) => return Err(e),
    }
    let m = &request.input;
    let ipa_path = input_trimmed(m, "ipa_path");
    let project_path = input_trimmed(m, "project_path");
    let workspace_path = input_trimmed(m, "workspace_path");
    let scheme = input_trimmed(m, "scheme");
    let export_options = input_trimmed(m, "export_options");

    if project_path.is_some() && workspace_path.is_some() {
        return Err(
            ServiceError::InvalidInput(
                owned(
                    "Publish to the App Store accepts either a project path or a workspace path, not both.",
                ),
            ),
        );
    }
    let uses_local_build = project_path.is_some() || workspace_path.is_some();
    if uses_local_build && scheme.is_none() {
        return Err(
            ServiceError::InvalidInput(
                owned(
                    "Publish to the App Store requires a scheme when using a workspace project.",
                ),
            ),
        );
    }
    if ipa_path.is_none() && !uses_local_build {
        return Err(ServiceError::MissingInput("ipa_path"));
    }

    let mut args = args_with_id(&["publish", "appstore", "--app"], &app.external_id);
    assert(strings_view(args@) =~= seq!["publish"@, "appstore"@, "--app"@, app.external_id@]);
    push_json_output(&mut args);
    push_flag_value(&mut args, "--ipa", ipa_path);
    push_flag_value(&mut args, "--project", project_path);
    push_flag_value(&mut args, "--workspace", workspace_path);
    push_flag_value(&mut args, "--scheme", scheme);
    push_flag_value(&mut args, "--export-options", export_options);
    push_flag_value(&mut args, "--version", input_trimmed(m, "version"));
    push_flag_value(&mut args, "--build-number", input_trimmed(m, "build_number"));
    push_flag_value(&mut args, "--platform", input_trimmed(m, "platform"));
    push_flag_when(&mut args, "--wait", input_is_true(m, "wait"));
    push_flag_when(&mut args, "--clean", input_is_true(m, "clean"));
    push_flag_value(&mut args, "--configuration", input_trimmed(m, "configuration"));

    let submit = input_is_true(m, "submit");
    let confirm = input_is_true(m, "confirm");
    let ghost before = strings_view(args@);
    if submit {
        push_arg(&mut args, "--submit");
        if confirm {
            push_arg(&mut args, "--confirm");
            assert(strings_view(args@) =~= before + seq!["--submit"@, "--confirm"@]);
        } else {
            return Err(
                ServiceError::InvalidInput(
                    owned(
                        "Confirm Submission must be enabled when Submit For Review is selected.",
                    ),
                ),
            );
        }
    } else {
        assert(strings_view(args@) =~= before + Seq::<Seq<char>>::empty());
    }

    let mut label = labelled("Publish ", app.label.as_str());
    label.append(" to the App Store");
    Ok(asc_command_plan(label, args, StringMap::new()))
}

} // verus!
