//! The requests the App Store Connect page sends and the checks and
//! messages around them: listing apps and builds, creating an app (with
//! the sign-in on the web and the internal TestFlight group it may need),
//! and the choices of project and scheme in the page's forms.
use vstd::prelude::*;
use crate::asc_presentation::{
    build_testflight_workflow_input, bundle_id_match, build_setting, build_setting_of,
    infer_platform, inferred_platform, insert_nonempty, testflight_inputs,
    validate_local_project_bundle_id_match, with_nonempty,
    AppleWorkspaceProjectSummary, AppleWorkspaceSchemeSummary, AscTestFlightSourceMode,
    AscTestFlightWorkflowValues,
};
use crate::asc_workspace::{
    index_view, opt_str_view, position_of, AscAppSummary, AscWebAuthSummary, LoadState,
};
use crate::runtime_catalog::{DetectedProject, ProjectKind};
use crate::service_types::{
    opt_view, OperationRequestView, ResourceRefView, ServiceOperationRequest, ServiceResourceRef,
};
use crate::sorting::{app_order, sort_apps, sorted_by};
use crate::string_map::StringMap;
use crate::text::{owned, str_eq, trim, trim_str};

verus! {

/// The request for an operation of the App Store Connect provider with no
/// resource and no file.
pub open spec fn plain_request(operation: Seq<char>, input: Map<Seq<char>, Seq<char>>) -> OperationRequestView {
    OperationRequestView {
        provider_id: "app-store-connect"@,
        operation,
        resource: None,
        artifact: None,
        input,
    }
}

/// The request for an operation of the App Store Connect provider on the
/// app `app`.
pub open spec fn app_request(
    operation: Seq<char>,
    app: AscAppSummary,
    input: Map<Seq<char>, Seq<char>>,
) -> OperationRequestView {
    OperationRequestView {
        provider_id: "app-store-connect"@,
        operation,
        resource: Some(
            ResourceRefView {
                provider_id: "app-store-connect"@,
                kind: "app"@,
                external_id: app.id@,
                label: app.name@,
            },
        ),
        artifact: None,
        input,
    }
}

fn plain_operation(operation: &str, input: StringMap) -> (r: ServiceOperationRequest)
    ensures
        r@ == plain_request(operation@, input@),
{
    ServiceOperationRequest {
        provider_id: owned("app-store-connect"),
        operation: owned(operation),
        resource: None,
        artifact: None,
        input,
    }
}

fn app_operation(operation: &str, app: &AscAppSummary, input: StringMap) -> (r:
    ServiceOperationRequest)
    ensures
        r@ == app_request(operation@, *app, input@),
{
    ServiceOperationRequest {
        provider_id: owned("app-store-connect"),
        operation: owned(operation),
        resource: Some(
            ServiceResourceRef {
                provider_id: owned("app-store-connect"),
                kind: owned("app"),
                external_id: app.id.clone(),
                label: app.name.clone(),
            },
        ),
        artifact: None,
        input,
    }
}

/// The request that lists every app of the account, all pages of it.
pub fn list_apps_request() -> (r: ServiceOperationRequest)
    ensures
        r@ == plain_request(
            "list_apps"@,
            Map::<Seq<char>, Seq<char>>::empty().insert("paginate"@, "true"@),
        ),
{
    let mut input = StringMap::new();
    input.insert(owned("paginate"), owned("true"));
    plain_operation("list_apps", input)
}

/// The request that looks an app up by its bundle id.
pub fn app_by_bundle_id_request(bundle_id: String) -> (r: ServiceOperationRequest)
    ensures
        r@ == plain_request(
            "list_apps"@,
            Map::<Seq<char>, Seq<char>>::empty().insert("bundle_id"@, bundle_id@),
        ),
{
    let mut input = StringMap::new();
    input.insert(owned("bundle_id"), bundle_id);
    plain_operation("list_apps", input)
}

/// The request that asks whether the user is signed in on the web.
pub fn web_auth_status_request() -> (r: ServiceOperationRequest)
    ensures
        r@ == plain_request("web_auth_status"@, Map::<Seq<char>, Seq<char>>::empty()),
{
    plain_operation("web_auth_status", StringMap::new())
}

/// The inputs that ask for a page of builds: the page at `next`, or the
/// first fifty, newest first.
pub open spec fn builds_page_input(next: Option<Seq<char>>) -> Map<Seq<char>, Seq<char>> {
    match next {
        Some(url) => Map::<Seq<char>, Seq<char>>::empty().insert("next"@, url),
        None => Map::<Seq<char>, Seq<char>>::empty().insert("limit"@, "50"@).insert(
            "sort"@,
            "-uploadedDate"@,
        ),
    }
}

/// The request for a page of the builds of the app `app`: the page at
/// `next_page_url`, or the first.
pub fn builds_page_request(app: &AscAppSummary, next_page_url: Option<String>) -> (r:
    ServiceOperationRequest)
    ensures
        r@ == app_request("list_builds"@, *app, builds_page_input(opt_view(next_page_url))),
{
    let mut input = StringMap::new();
    match next_page_url {
        Some(url) => {
            input.insert(owned("next"), url);
        },
        None => {
            input.insert(owned("limit"), owned("50"));
            input.insert(owned("sort"), owned("-uploadedDate"));
        },
    }
    app_operation("list_builds", app, input)
}

/// The request that creates the internal TestFlight group `group_name` for
/// the app `app`.
pub fn create_group_request(app: &AscAppSummary, group_name: String) -> (r:
    ServiceOperationRequest)
    ensures
        r@ == app_request(
            "create_testflight_group"@,
            *app,
            Map::<Seq<char>, Seq<char>>::empty().insert("name"@, group_name@).insert(
                "internal"@,
                "true"@,
            ),
        ),
{
    let mut input = StringMap::new();
    input.insert(owned("name"), group_name);
    input.insert(owned("internal"), owned("true"));
    app_operation("create_testflight_group", app, input)
}

/// The error that is left when every attempt to create the group failed:
/// the last attempt's, else a general one.
pub fn group_creation_error(last_error: Option<String>) -> (r: String)
    ensures
        r@ == match opt_view(last_error) {
            Some(e) => e,
            None => "Failed to create internal TestFlight group."@,
        },
{
    match last_error {
        Some(e) => e,
        None => owned("Failed to create internal TestFlight group."),
    }
}

/// What the app creation form holds, its text fields trimmed.
#[derive(Clone, Debug, PartialEq, Eq)]
pub struct AscCreateAppValues {
    pub app_name: String,
    pub bundle_id: String,
    pub sku: String,
    pub platform: String,
    pub primary_locale: String,
    pub version: String,
    pub company_name: String,
    pub apple_id: String,
    pub password: String,
    pub two_factor_command: String,
    pub create_internal_group: bool,
    pub internal_group_name: String,
}

/// The ids of the projects.
pub open spec fn project_ids(projects: Seq<AppleWorkspaceProjectSummary>) -> Seq<Seq<char>> {
    projects.map_values(|p: AppleWorkspaceProjectSummary| p.id@)
}

/// The ids of the schemes.
pub open spec fn scheme_ids(schemes: Seq<AppleWorkspaceSchemeSummary>) -> Seq<Seq<char>> {
    schemes.map_values(|s: AppleWorkspaceSchemeSummary| s.id@)
}

/// The position of the project chosen by `id`, if one has that id.
pub open spec fn chosen_project(projects: Seq<AppleWorkspaceProjectSummary>, id: Option<Seq<char>>) -> Option<
    int,
> {
    match id {
        Some(i) => position_of(project_ids(projects), i, 0),
        None => None,
    }
}

/// The position of the scheme chosen by `id` in `project`, if it has one
/// with that id.
pub open spec fn chosen_scheme(project: AppleWorkspaceProjectSummary, id: Option<Seq<char>>) -> Option<
    int,
> {
    match id {
        Some(i) => position_of(scheme_ids(project.schemes@), i, 0),
        None => None,
    }
}

proof fn lemma_chosen_project(projects: Seq<AppleWorkspaceProjectSummary>, id: Option<Seq<char>>)
    ensures
        chosen_project(projects, id) matches Some(k) ==> 0 <= k < projects.len() && id == Some(
            projects[k].id@,
        ),
{
    if let Some(i) = id {
        crate::asc_workspace::lemma_position_of(project_ids(projects), i, 0);
    }
}

proof fn lemma_chosen_scheme(project: AppleWorkspaceProjectSummary, id: Option<Seq<char>>)
    ensures
        chosen_scheme(project, id) matches Some(k) ==> 0 <= k < project.schemes@.len() && id
            == Some(project.schemes@[k].id@),
{
    if let Some(i) = id {
        crate::asc_workspace::lemma_position_of(scheme_ids(project.schemes@), i, 0);
    }
}

/// The position of the project whose id is `id`.
pub fn find_project(projects: &Vec<AppleWorkspaceProjectSummary>, id: Option<&str>) -> (r: Option<
    usize,
>)
    ensures
        index_view(r) == chosen_project(projects@, opt_str_view(id)),
        r matches Some(k) ==> k < projects@.len(),
{
    proof {
        lemma_chosen_project(projects@, opt_str_view(id));
    }
    let key = match id {
        Some(k) => k,
        None => return None,
    };
    let mut i: usize = 0;
    while i < projects.len()
        invariant
            opt_str_view(id) == Some(key@),
            i <= projects@.len(),
            position_of(project_ids(projects@), key@, 0) == position_of(
                project_ids(projects@),
                key@,
                i as int,
            ),
        decreases projects@.len() - i,
    {
        if str_eq(projects[i].id.as_str(), key) {
            return Some(i);
        }
        i = i + 1;
    }
    None
}

/// The position of the scheme of `project` whose id is `id`.
pub fn find_scheme(project: &AppleWorkspaceProjectSummary, id: Option<&str>) -> (r: Option<usize>)
    ensures
        index_view(r) == chosen_scheme(*project, opt_str_view(id)),
        r matches Some(k) ==> k < project.schemes@.len(),
{
    proof {
        lemma_chosen_scheme(*project, opt_str_view(id));
    }
    let key = match id {
        Some(k) => k,
        None => return None,
    };
    let schemes = &project.schemes;
    let mut i: usize = 0;
    while i < schemes.len()
        invariant
            schemes == &project.schemes,
            opt_str_view(id) == Some(key@),
            i <= schemes@.len(),
            position_of(scheme_ids(schemes@), key@, 0) == position_of(
                scheme_ids(schemes@),
                key@,
                i as int,
            ),
        decreases schemes@.len() - i,
    {
        if str_eq(schemes[i].id.as_str(), key) {
            return Some(i);
        }
        i = i + 1;
    }
    None
}

/// Why the app creation form cannot be sent, if it cannot: no project or
/// no scheme chosen, a missing name, bundle id or SKU, a password without
/// an account, or a group to create without a name.
pub open spec fn create_app_problem(
    projects: Seq<AppleWorkspaceProjectSummary>,
    project_id: Option<Seq<char>>,
    scheme_id: Option<Seq<char>>,
    v: AscCreateAppValues,
) -> Option<Seq<char>> {
    match chosen_project(projects, project_id) {
        None => Some("Choose a workspace project before creating an app."@),
        Some(p) => if chosen_scheme(projects[p], scheme_id) is None {
            Some("Choose a scheme before creating an app."@)
        } else if v.app_name@.len() == 0 || v.bundle_id@.len() == 0 || v.sku@.len() == 0 {
            Some("App name, bundle ID, and SKU are required."@)
        } else if v.password@.len() > 0 && v.apple_id@.len() == 0 {
            Some("Apple Account Email is required when a password is provided."@)
        } else if v.create_internal_group && v.internal_group_name@.len() == 0 {
            Some("Internal TestFlight Group is required when group creation is enabled."@)
        } else {
            None
        },
    }
}

/// Checks the app creation form. On success the result is the positions
/// of the chosen project and of its chosen scheme.
pub fn validate_create_app(
    projects: &Vec<AppleWorkspaceProjectSummary>,
    project_id: Option<&str>,
    scheme_id: Option<&str>,
    v: &AscCreateAppValues,
) -> (r: Result<(usize, usize), String>)
    ensures
        match r {
            Ok((p, s)) => {
                &&& create_app_problem(projects@, opt_str_view(project_id), opt_str_view(scheme_id), *v)
                    is None
                &&& chosen_project(projects@, opt_str_view(project_id)) == Some(p as int)
                &&& chosen_scheme(projects@[p as int], opt_str_view(scheme_id)) == Some(s as int)
            },
            Err(e) => create_app_problem(
                projects@,
                opt_str_view(project_id),
                opt_str_view(scheme_id),
                *v,
            ) == Some(e@),
        },
{
    let p = match find_project(projects, project_id) {
        Some(p) => p,
        None => return Err(owned("Choose a workspace project before creating an app.")),
    };
    let s = match find_scheme(&projects[p], scheme_id) {
        Some(s) => s,
        None => return Err(owned("Choose a scheme before creating an app.")),
    };
    if v.app_name.unicode_len() == 0 || v.bundle_id.unicode_len() == 0 || v.sku.unicode_len() == 0 {
        return Err(owned("App name, bundle ID, and SKU are required."));
    }
    if v.password.unicode_len() > 0 && v.apple_id.unicode_len() == 0 {
        return Err(owned("Apple Account Email is required when a password is provided."));
    }
    if v.create_internal_group && v.internal_group_name.unicode_len() == 0 {
        return Err(owned("Internal TestFlight Group is required when group creation is enabled."));
    }
    Ok((p, s))
}

/// Whether the page must ask the user for the two-factor code while the
/// app is created: an account and a password are given but no command that
/// prints the code, and the user is not known to be signed in on the web.
pub open spec fn two_factor_prompt_needed(
    v: AscCreateAppValues,
    web_auth: LoadState<AscWebAuthSummary>,
) -> bool {
    &&& v.apple_id@.len() > 0
    &&& v.password@.len() > 0
    &&& v.two_factor_command@.len() == 0
    &&& !(web_auth == LoadState::Ready(AscWebAuthSummary { authenticated: true }))
}

/// Whether the page must ask for the two-factor code itself.
pub fn needs_two_factor_prompt(v: &AscCreateAppValues, web_auth: &LoadState<AscWebAuthSummary>) -> (b:
    bool)
    ensures
        b == two_factor_prompt_needed(*v, *web_auth),
{
    let signed_in = match web_auth {
        LoadState::Ready(summary) => summary.authenticated,
        _ => false,
    };
    v.apple_id.unicode_len() > 0 && v.password.unicode_len() > 0
        && v.two_factor_command.unicode_len() == 0 && !signed_in
}

/// The command that prints the two-factor code: the page's own when it
/// asks for the code, else the one typed in the form.
pub open spec fn effective_two_factor(v: AscCreateAppValues, prompt: Option<Seq<char>>) -> Seq<char> {
    match prompt {
        Some(c) => c,
        None => v.two_factor_command@,
    }
}

/// Whether to sign in on the web before creating the app: an account, a
/// password or a two-factor command is given.
pub open spec fn web_login_needed(v: AscCreateAppValues, prompt: Option<Seq<char>>) -> bool {
    v.apple_id@.len() > 0 || v.password@.len() > 0 || prompt is Some
        || v.two_factor_command@.len() > 0
}

/// The request that signs in on the web before the app is created, when
/// one is needed; `prompt_command` is the page's own two-factor command
/// when it asks for the code.
pub fn web_login_request(v: &AscCreateAppValues, prompt_command: &Option<String>) -> (r: Option<
    ServiceOperationRequest,
>)
    ensures
        r is Some == web_login_needed(*v, opt_view(*prompt_command)),
        r matches Some(req) ==> req@ == plain_request(
            "web_auth_login"@,
            with_nonempty(
                with_nonempty(
                    with_nonempty(Map::empty(), "apple_id"@, v.apple_id@),
                    "password"@,
                    v.password@,
                ),
                "two_factor_code_command"@,
                effective_two_factor(*v, opt_view(*prompt_command)),
            ),
        ),
{
    if !(v.apple_id.unicode_len() > 0 || v.password.unicode_len() > 0 || prompt_command.is_some()
        || v.two_factor_command.unicode_len() > 0) {
        return None;
    }
    let command = match prompt_command {
        Some(c) => c.clone(),
        None => v.two_factor_command.clone(),
    };
    let mut input = StringMap::new();
    insert_nonempty(&mut input, "apple_id", &v.apple_id);
    insert_nonempty(&mut input, "password", &v.password);
    insert_nonempty(&mut input, "two_factor_code_command", &command);
    Some(plain_operation("web_auth_login", input))
}

/// The inputs of the request that creates the app: each field of the form
/// that is not empty.
pub open spec fn create_app_input(v: AscCreateAppValues, two_factor: Seq<char>) -> Map<
    Seq<char>,
    Seq<char>,
> {
    let m = with_nonempty(Map::empty(), "name"@, v.app_name@);
    let m = with_nonempty(m, "bundle_id"@, v.bundle_id@);
    let m = with_nonempty(m, "sku"@, v.sku@);
    let m = with_nonempty(m, "platform"@, v.platform@);
    let m = with_nonempty(m, "primary_locale"@, v.primary_locale@);
    let m = with_nonempty(m, "version"@, v.version@);
    let m = with_nonempty(m, "company_name"@, v.company_name@);
    let m = with_nonempty(m, "apple_id"@, v.apple_id@);
    let m = with_nonempty(m, "password"@, v.password@);
    with_nonempty(m, "two_factor_code_command"@, two_factor)
}

/// The request that creates the app; `prompt_command` is the page's own
/// two-factor command when it asks for the code.
pub fn create_app_request(v: &AscCreateAppValues, prompt_command: &Option<String>) -> (r:
    ServiceOperationRequest)
    ensures
        r@ == plain_request(
            "create_app"@,
            create_app_input(*v, effective_two_factor(*v, opt_view(*prompt_command))),
        ),
{
    let command = match prompt_command {
        Some(c) => c.clone(),
        None => v.two_factor_command.clone(),
    };
    let mut input = StringMap::new();
    insert_nonempty(&mut input, "name", &v.app_name);
    insert_nonempty(&mut input, "bundle_id", &v.bundle_id);
    insert_nonempty(&mut input, "sku", &v.sku);
    insert_nonempty(&mut input, "platform", &v.platform);
    insert_nonempty(&mut input, "primary_locale", &v.primary_locale);
    insert_nonempty(&mut input, "version", &v.version);
    insert_nonempty(&mut input, "company_name", &v.company_name);
    insert_nonempty(&mut input, "apple_id", &v.apple_id);
    insert_nonempty(&mut input, "password", &v.password);
    insert_nonempty(&mut input, "two_factor_code_command", &command);
    plain_operation("create_app", input)
}

/// Whether `app` may be the app just created with this bundle id, name and
/// SKU: it has the bundle id or the SKU, or the name, or a name that App
/// Store Connect made from it by adding ` - ` and more.
pub open spec fn may_be_created_app(
    app: AscAppSummary,
    bundle_id: Seq<char>,
    app_name: Seq<char>,
    sku: Seq<char>,
) -> bool {
    ||| app.bundle_id@ == bundle_id
    ||| app.sku@ == sku
    ||| app.name@ == app_name
    ||| (app_name + " - "@).is_prefix_of(app.name@)
}

fn starts_with(s: &str, prefix: &str) -> (b: bool)
    ensures
        b == prefix@.is_prefix_of(s@),
{
    let n = s.unicode_len();
    let m = prefix.unicode_len();
    if m > n {
        return false;
    }
    let mut i: usize = 0;
    while i < m
        invariant
            n == s@.len(),
            m == prefix@.len(),
            m <= n,
            i <= m,
            forall|j: int| 0 <= j < i ==> s@[j] == prefix@[j],
        decreases m - i,
    {
        if s.get_char(i) != prefix.get_char(i) {
            assert(s@[i as int] != prefix@[i as int]);
            return false;
        }
        i = i + 1;
    }
    assert(prefix@ == s@.subrange(0, m as int));
    true
}

/// Whether `app` may be the app just created.
pub fn created_app_matches(app: &AscAppSummary, bundle_id: &str, app_name: &str, sku: &str) -> (b:
    bool)
    ensures
        b == may_be_created_app(*app, bundle_id@, app_name@, sku@),
{
    let mut prefix = owned(app_name);
    prefix.append(" - ");
    str_eq(app.bundle_id.as_str(), bundle_id) || str_eq(app.sku.as_str(), sku) || str_eq(
        app.name.as_str(),
        app_name,
    ) || starts_with(app.name.as_str(), prefix.as_str())
}

/// The position of the first app at or after `start` that may be the app
/// just created.
pub open spec fn created_app_position(
    apps: Seq<AscAppSummary>,
    bundle_id: Seq<char>,
    app_name: Seq<char>,
    sku: Seq<char>,
    start: int,
) -> Option<int>
    decreases apps.len() - start,
{
    if start < 0 || start >= apps.len() {
        None
    } else if may_be_created_app(apps[start], bundle_id, app_name, sku) {
        Some(start)
    } else {
        created_app_position(apps, bundle_id, app_name, sku, start + 1)
    }
}

/// The position of the first listed app that may be the app just created.
pub fn find_created_app(apps: &Vec<AscAppSummary>, bundle_id: &str, app_name: &str, sku: &str) -> (r:
    Option<usize>)
    ensures
        index_view(r) == created_app_position(apps@, bundle_id@, app_name@, sku@, 0),
{
    let mut i: usize = 0;
    while i < apps.len()
        invariant
            i <= apps@.len(),
            created_app_position(apps@, bundle_id@, app_name@, sku@, 0) == created_app_position(
                apps@,
                bundle_id@,
                app_name@,
                sku@,
                i as int,
            ),
        decreases apps@.len() - i,
    {
        if created_app_matches(&apps[i], bundle_id, app_name, sku) {
            return Some(i);
        }
        i = i + 1;
    }
    None
}

/// What the page says once the app was created for the project labelled
/// `project_label`, with the reason the group could not be created, if it
/// could not.
pub open spec fn created_app_text(
    app_name: Seq<char>,
    project_label: Seq<char>,
    group_warning: Option<Seq<char>>,
) -> Seq<char> {
    match group_warning {
        Some(w) => "Created "@ + app_name + " for "@ + project_label
            + ". Internal group creation failed: "@ + w,
        None => "Created "@ + app_name + " for "@ + project_label + "."@,
    }
}

/// What the page says once the app was created.
pub fn create_app_success_message(
    app_name: &str,
    project_label: &str,
    group_warning: Option<&str>,
) -> (r: String)
    ensures
        r@ == created_app_text(app_name@, project_label@, opt_str_view(group_warning)),
{
    let mut m = owned("Created ");
    m.append(app_name);
    m.append(" for ");
    m.append(project_label);
    match group_warning {
        Some(w) => {
            m.append(". Internal group creation failed: ");
            m.append(w);
        },
        None => {
            m.append(".");
        },
    }
    m
}

/// What a form does with its project and scheme once the projects have
/// loaded.
#[derive(Clone, Copy, Debug, PartialEq, Eq, Structural)]
pub enum ProjectFormChoice {
    /// No project: the form chooses no project and no scheme.
    Clear,
    /// The chosen project has no scheme: the form is left as it is.
    Unchanged,
    /// The form takes the defaults of the scheme at the second position of
    /// the project at the first.
    Defaults(usize, usize),
}

/// The project a form keeps once the projects have loaded: the one chosen
/// while there is one with its id, else the first; and the scheme: the one
/// chosen while that project has it, else its first.
pub open spec fn project_form_choice_of(
    projects: Seq<AppleWorkspaceProjectSummary>,
    project_id: Option<Seq<char>>,
    scheme_id: Option<Seq<char>>,
) -> ProjectFormChoice {
    if projects.len() == 0 {
        ProjectFormChoice::Clear
    } else {
        let p = match chosen_project(projects, project_id) {
            Some(k) => k,
            None => 0,
        };
        match chosen_scheme(projects[p], scheme_id) {
            Some(s) => ProjectFormChoice::Defaults(p as usize, s as usize),
            None => if projects[p].schemes@.len() > 0 {
                ProjectFormChoice::Defaults(p as usize, 0)
            } else {
                ProjectFormChoice::Unchanged
            },
        }
    }
}

/// What a form with the chosen project `project_id` and scheme `scheme_id`
/// does once the projects have loaded.
pub fn project_form_choice(
    projects: &Vec<AppleWorkspaceProjectSummary>,
    project_id: Option<&str>,
    scheme_id: Option<&str>,
) -> (r: ProjectFormChoice)
    ensures
        r == project_form_choice_of(projects@, opt_str_view(project_id), opt_str_view(scheme_id)),
        r matches ProjectFormChoice::Defaults(p, s) ==> p < projects@.len()
            && s < projects@[p as int].schemes@.len(),
{
    if projects.len() == 0 {
        return ProjectFormChoice::Clear;
    }
    let p = match find_project(projects, project_id) {
        Some(k) => k,
        None => 0,
    };
    match find_scheme(&projects[p], scheme_id) {
        Some(s) => ProjectFormChoice::Defaults(p, s),
        None => if projects[p].schemes.len() > 0 {
            ProjectFormChoice::Defaults(p, 0)
        } else {
            ProjectFormChoice::Unchanged
        },
    }
}

/// The project a form switches to when the user picks the project
/// `project_id`: its position, when there is such a project and it has a
/// scheme (whose first the form takes); else the form is left as it is.
pub fn pick_project(projects: &Vec<AppleWorkspaceProjectSummary>, project_id: &str) -> (r: Option<
    usize,
>)
    ensures
        match chosen_project(projects@, Some(project_id@)) {
            Some(p) => if projects@[p].schemes@.len() > 0 {
                index_view(r) == Some(p)
            } else {
                r is None
            },
            None => r is None,
        },
        r matches Some(p) ==> p < projects@.len() && projects@[p as int].schemes@.len() > 0,
{
    match find_project(projects, Some(project_id)) {
        Some(p) => if projects[p].schemes.len() > 0 {
            Some(p)
        } else {
            None
        },
        None => None,
    }
}

/// The scheme a form switches to when the user picks the scheme
/// `scheme_id` of its chosen project `project_id`: the positions of the
/// project and the scheme, when both exist; else the form is left as it
/// is.
pub fn pick_scheme(
    projects: &Vec<AppleWorkspaceProjectSummary>,
    project_id: Option<&str>,
    scheme_id: &str,
) -> (r: Option<(usize, usize)>)
    ensures
        match chosen_project(projects@, opt_str_view(project_id)) {
            Some(p) => match chosen_scheme(projects@[p], Some(scheme_id@)) {
                Some(s) => r == Some((p as usize, s as usize)),
                None => r is None,
            },
            None => r is None,
        },
        r matches Some((p, s)) ==> p < projects@.len() && s < projects@[p as int].schemes@.len(),
{
    let p = match find_project(projects, project_id) {
        Some(p) => p,
        None => return None,
    };
    match find_scheme(&projects[p], Some(scheme_id)) {
        Some(s) => Some((p, s)),
        None => None,
    }
}

/// Why a TestFlight release of the app with bundle id `app_bundle_id` may
/// not go ahead: from a local project, the chosen project (and its chosen
/// scheme, else its first) must exist and the scheme must build that app.
pub open spec fn release_selection_problem(
    mode: AscTestFlightSourceMode,
    projects: Seq<AppleWorkspaceProjectSummary>,
    project_id: Option<Seq<char>>,
    scheme_id: Option<Seq<char>>,
    app_bundle_id: Seq<char>,
) -> Result<(), Seq<char>> {
    if mode != AscTestFlightSourceMode::LocalProject {
        Ok(())
    } else {
        match chosen_project(projects, project_id) {
            None => Err("Workspace Project is required"@),
            Some(p) => {
                let project = projects[p];
                let s = match chosen_scheme(project, scheme_id) {
                    Some(s) => Some(s),
                    None => if project.schemes@.len() > 0 {
                        Some(0int)
                    } else {
                        None
                    },
                };
                match s {
                    None => Err("Scheme is required"@),
                    Some(s) => bundle_id_match(app_bundle_id, project.schemes@[s]),
                }
            },
        }
    }
}

/// Checks that a TestFlight release from a local project builds the chosen
/// app.
pub fn validate_testflight_release_selection(
    mode: AscTestFlightSourceMode,
    projects: &Vec<AppleWorkspaceProjectSummary>,
    project_id: Option<&str>,
    scheme_id: Option<&str>,
    app_bundle_id: &str,
) -> (r: Result<(), String>)
    ensures
        match r {
            Ok(()) => release_selection_problem(
                mode,
                projects@,
                opt_str_view(project_id),
                opt_str_view(scheme_id),
                app_bundle_id@,
            ) == Ok::<(), Seq<char>>(()),
            Err(e) => release_selection_problem(
                mode,
                projects@,
                opt_str_view(project_id),
                opt_str_view(scheme_id),
                app_bundle_id@,
            ) == Err::<(), Seq<char>>(e@),
        },
{
    match mode {
        AscTestFlightSourceMode::LocalProject => {},
        _ => return Ok(()),
    }
    let p = match find_project(projects, project_id) {
        Some(p) => p,
        None => return Err(owned("Workspace Project is required")),
    };
    let project = &projects[p];
    let s = match find_scheme(project, scheme_id) {
        Some(s) => s,
        None => if project.schemes.len() > 0 {
            0
        } else {
            return Err(owned("Scheme is required"));
        },
    };
    validate_local_project_bundle_id_match(app_bundle_id, &project.schemes[s])
}

/// A scheme and the build settings `xcodebuild` printed for it (empty when
/// it could not be asked).
pub open spec fn scheme_summary_matches(
    s: AppleWorkspaceSchemeSummary,
    scheme: Seq<char>,
    settings: Seq<char>,
) -> bool {
    &&& s.id@ == scheme
    &&& s.label@ == scheme
    &&& opt_view(s.bundle_id) == build_setting_of(settings, "PRODUCT_BUNDLE_IDENTIFIER"@)
    &&& opt_view(s.marketing_version) == build_setting_of(settings, "MARKETING_VERSION"@)
    &&& opt_view(s.build_number) == build_setting_of(settings, "CURRENT_PROJECT_VERSION"@)
    &&& opt_view(s.platform) == inferred_platform(settings)
}

/// The summary of the scheme `scheme` from its Release build settings.
pub fn scheme_summary(scheme: String, settings: &str) -> (r: AppleWorkspaceSchemeSummary)
    ensures
        scheme_summary_matches(r, scheme@, settings@),
{
    AppleWorkspaceSchemeSummary {
        id: scheme.clone(),
        label: scheme,
        bundle_id: build_setting(settings, "PRODUCT_BUNDLE_IDENTIFIER"),
        marketing_version: build_setting(settings, "MARKETING_VERSION"),
        build_number: build_setting(settings, "CURRENT_PROJECT_VERSION"),
        platform: infer_platform(settings),
    }
}

/// The arguments of `xcodebuild` that print the Release build settings of
/// `scheme` in the project or workspace at `project_path`.
pub open spec fn scheme_settings_args_of(
    project_path: Seq<char>,
    kind: ProjectKind,
    scheme: Seq<char>,
) -> Seq<Seq<char>> {
    let head = match kind {
        ProjectKind::AppleWorkspace => seq!["-workspace"@, project_path],
        ProjectKind::AppleProject => seq!["-project"@, project_path],
        ProjectKind::GpuiApplication => Seq::empty(),
    };
    head + seq!["-scheme"@, scheme, "-showBuildSettings"@, "-configuration"@, "Release"@]
}

/// The arguments of `xcodebuild` that print the Release build settings of
/// `scheme`.
pub fn scheme_settings_args(project_path: &str, kind: ProjectKind, scheme: &str) -> (r: Vec<String>)
    ensures
        crate::string_map::strings_view(r@) == scheme_settings_args_of(project_path@, kind, scheme@),
{
    let mut r: Vec<String> = Vec::new();
    match kind {
        ProjectKind::AppleWorkspace => {
            r.push(owned("-workspace"));
            r.push(owned(project_path));
        },
        ProjectKind::AppleProject => {
            r.push(owned("-project"));
            r.push(owned(project_path));
        },
        ProjectKind::GpuiApplication => {},
    }
    r.push(owned("-scheme"));
    r.push(owned(scheme));
    r.push(owned("-showBuildSettings"));
    r.push(owned("-configuration"));
    r.push(owned("Release"));
    assert(crate::string_map::strings_view(r@) =~= scheme_settings_args_of(
        project_path@,
        kind,
        scheme@,
    ));
    r
}

/// The project the App Store Connect page offers for a detected project
/// with the given schemes: only Apple projects and workspaces that have a
/// scheme.
pub fn workspace_project_summary(
    project: &DetectedProject,
    schemes: Vec<AppleWorkspaceSchemeSummary>,
) -> (r: Option<AppleWorkspaceProjectSummary>)
    ensures
        r is Some <==> (project.kind != ProjectKind::GpuiApplication && schemes@.len() > 0),
        r matches Some(p) ==> {
            &&& p.id@ == project.id@
            &&& p.label@ == project.label@
            &&& p.project_path@ == project.project_path@
            &&& p.project_kind == project.kind
            &&& p.schemes@ == schemes@
        },
{
    match project.kind {
        ProjectKind::GpuiApplication => return None,
        _ => {},
    }
    if schemes.len() == 0 {
        return None;
    }
    Some(
        AppleWorkspaceProjectSummary {
            id: project.id.clone(),
            label: project.label.clone(),
            project_path: project.project_path.clone(),
            project_kind: project.kind,
            schemes,
        },
    )
}

/// What the TestFlight release form holds besides its project and scheme,
/// its text fields trimmed.
#[derive(Clone, Debug, PartialEq, Eq)]
pub struct AscReleaseFormFields {
    pub source_mode: AscTestFlightSourceMode,
    pub ipa_path: String,
    pub version: String,
    pub build_id: String,
    pub build_number: String,
    pub group: String,
    pub configuration: String,
    pub export_options: String,
    pub wait_for_processing: bool,
    pub notify_testers: bool,
    pub clean_build: bool,
}

fn copy_text(o: &Option<String>) -> (r: Option<String>)
    ensures
        r == *o,
{
    match o {
        Some(s) => Some(s.clone()),
        None => None,
    }
}

fn copy_scheme(s: &AppleWorkspaceSchemeSummary) -> (r: AppleWorkspaceSchemeSummary)
    ensures
        r == *s,
{
    AppleWorkspaceSchemeSummary {
        id: s.id.clone(),
        label: s.label.clone(),
        bundle_id: copy_text(&s.bundle_id),
        marketing_version: copy_text(&s.marketing_version),
        build_number: copy_text(&s.build_number),
        platform: copy_text(&s.platform),
    }
}

/// The values the TestFlight release form hands on.
pub open spec fn release_values_of(
    projects: Seq<AppleWorkspaceProjectSummary>,
    project_id: Option<Seq<char>>,
    scheme_id: Option<Seq<char>>,
    fields: AscReleaseFormFields,
) -> AscTestFlightWorkflowValues {
    let (project_kind, project_path, scheme) = match chosen_project(projects, project_id) {
        Some(p) => (
            Some(projects[p].project_kind),
            Some(projects[p].project_path),
            match chosen_scheme(projects[p], scheme_id) {
                Some(k) => Some(projects[p].schemes@[k]),
                None => None,
            },
        ),
        None => (None, None, None),
    };
    AscTestFlightWorkflowValues {
        source_mode: fields.source_mode,
        project_kind,
        project_path,
        scheme,
        ipa_path: fields.ipa_path,
        version: fields.version,
        build_id: fields.build_id,
        build_number: fields.build_number,
        group: fields.group,
        configuration: fields.configuration,
        export_options: fields.export_options,
        wait_for_processing: fields.wait_for_processing,
        notify_testers: fields.notify_testers,
        clean_build: fields.clean_build,
    }
}

/// The values the TestFlight release form hands on: the chosen project's
/// kind and path and its chosen scheme, where they exist, with the form's
/// fields.
pub fn release_workflow_values(
    projects: &Vec<AppleWorkspaceProjectSummary>,
    project_id: Option<&str>,
    scheme_id: Option<&str>,
    fields: AscReleaseFormFields,
) -> (r: AscTestFlightWorkflowValues)
    ensures
        r == release_values_of(projects@, opt_str_view(project_id), opt_str_view(scheme_id), fields),
{
    let (project_kind, project_path, scheme) = match find_project(projects, project_id) {
        Some(p) => {
            let project = &projects[p];
            let scheme = match find_scheme(project, scheme_id) {
                Some(k) => Some(copy_scheme(&project.schemes[k])),
                None => None,
            };
            (Some(project.project_kind), Some(project.project_path.clone()), scheme)
        },
        None => (None, None, None),
    };
    AscTestFlightWorkflowValues {
        source_mode: fields.source_mode,
        project_kind,
        project_path,
        scheme,
        ipa_path: fields.ipa_path,
        version: fields.version,
        build_id: fields.build_id,
        build_number: fields.build_number,
        group: fields.group,
        configuration: fields.configuration,
        export_options: fields.export_options,
        wait_for_processing: fields.wait_for_processing,
        notify_testers: fields.notify_testers,
        clean_build: fields.clean_build,
    }
}

/// The attributes of an app in the `asc` tool's JSON.
#[derive(Clone, Debug, PartialEq, Eq)]
pub struct AscAppAttributes {
    pub name: String,
    pub bundle_id: String,
    pub sku: String,
    pub primary_locale: Option<String>,
}

/// An app in the `asc` tool's JSON.
#[derive(Clone, Debug, PartialEq, Eq)]
pub struct AscAppRecord {
    pub id: String,
    pub attributes: AscAppAttributes,
}

/// The apps that `asc apps list` prints.
#[derive(Clone, Debug, PartialEq, Eq)]
pub struct AscAppsResponse {
    pub data: Vec<AscAppRecord>,
}

/// The summary of an app record.
pub open spec fn record_summary(r: AscAppRecord) -> AscAppSummary {
    AscAppSummary {
        id: r.id,
        name: r.attributes.name,
        bundle_id: r.attributes.bundle_id,
        sku: r.attributes.sku,
        primary_locale: r.attributes.primary_locale,
    }
}

fn summary_of(r: AscAppRecord) -> (s: AscAppSummary)
    ensures
        s == record_summary(r),
{
    AscAppSummary {
        id: r.id,
        name: r.attributes.name,
        bundle_id: r.attributes.bundle_id,
        sku: r.attributes.sku,
        primary_locale: r.attributes.primary_locale,
    }
}

/// The apps of a listing, ordered by name, then bundle id.
pub fn apps_from_response(response: AscAppsResponse) -> (r: Vec<AscAppSummary>)
    ensures
        r@ == sorted_by(response.data@.map_values(|a: AscAppRecord| record_summary(a)), app_order()),
{
    let ghost records = response.data@;
    let mut rest = response.data;
    let mut apps: Vec<AscAppSummary> = Vec::new();
    let ghost mut i: int = 0;
    while rest.len() > 0
        invariant
            0 <= i <= records.len(),
            rest@ == records.skip(i),
            apps@ == records.take(i).map_values(|a: AscAppRecord| record_summary(a)),
        decreases rest@.len(),
    {
        let record = rest.remove(0);
        proof {
            assert(record == records[i]);
            assert(rest@ =~= records.skip(i + 1));
        }
        apps.push(summary_of(record));
        proof {
            assert(apps@ =~= records.take(i + 1).map_values(|a: AscAppRecord| record_summary(a)));
            i = i + 1;
        }
    }
    assert(records.take(i) =~= records);
    sort_apps(apps)
}

/// The first app of a listing, if there is one.
pub fn first_app_from_response(response: AscAppsResponse) -> (r: Option<AscAppSummary>)
    ensures
        match r {
            Some(a) => response.data@.len() > 0 && a == record_summary(response.data@[0]),
            None => response.data@.len() == 0,
        },
{
    let mut data = response.data;
    if data.len() == 0 {
        return None;
    }
    let first = data.remove(0);
    Some(summary_of(first))
}

/// The code the two-factor dialog saves when the user submits what they
/// typed: the text trimmed, or nothing (the dialog stays open) when that
/// is empty.
pub fn submitted_two_factor_code(typed: &str) -> (r: Option<String>)
    ensures
        match r {
            Some(code) => code@ == trim(typed@) && code@.len() > 0,
            None => trim(typed@).len() == 0,
        },
{
    let code = trim_str(typed);
    if code.unicode_len() == 0 {
        None
    } else {
        Some(code)
    }
}

/// What the two-factor dialog writes to the code file as it closes: the
/// word `cancel` when no code was saved (so that the waiting command ends),
/// else nothing.
pub fn two_factor_dismiss_code(file_has_code: bool) -> (r: Option<String>)
    ensures
        match r {
            Some(code) => !file_has_code && code@ == "cancel"@,
            None => file_has_code,
        },
{
    if file_has_code {
        None
    } else {
        Some(owned("cancel"))
    }
}

/// The input of a workflow that the page submits: for the TestFlight
/// workflow, the release form's, once its project and scheme were checked
/// against the chosen app; for any other, the generic form's.
pub open spec fn submission_input(
    workflow_id: Seq<char>,
    app_bundle_id: Seq<char>,
    projects: Seq<AppleWorkspaceProjectSummary>,
    project_id: Option<Seq<char>>,
    scheme_id: Option<Seq<char>>,
    fields: AscReleaseFormFields,
    form_input: Result<Map<Seq<char>, Seq<char>>, Seq<char>>,
) -> Result<Map<Seq<char>, Seq<char>>, Seq<char>> {
    if workflow_id == "publish_testflight"@ {
        match release_selection_problem(
            fields.source_mode,
            projects,
            project_id,
            scheme_id,
            app_bundle_id,
        ) {
            Err(e) => Err(e),
            Ok(()) => testflight_inputs(release_values_of(projects, project_id, scheme_id, fields)),
        }
    } else {
        form_input
    }
}

/// The view of a form's input or error.
pub open spec fn input_result_view(r: Result<StringMap, String>) -> Result<
    Map<Seq<char>, Seq<char>>,
    Seq<char>,
> {
    match r {
        Ok(m) => Ok(m@),
        Err(e) => Err(e@),
    }
}

/// The input of the workflow `workflow_id` that the page submits for the
/// app `app`, or the error its form shows.
pub fn workflow_submission_input(
    workflow_id: &str,
    app: &AscAppSummary,
    projects: &Vec<AppleWorkspaceProjectSummary>,
    project_id: Option<&str>,
    scheme_id: Option<&str>,
    fields: AscReleaseFormFields,
    form_input: Result<StringMap, String>,
) -> (r: Result<StringMap, String>)
    ensures
        input_result_view(r) == submission_input(
            workflow_id@,
            app.bundle_id@,
            projects@,
            opt_str_view(project_id),
            opt_str_view(scheme_id),
            fields,
            input_result_view(form_input),
        ),
{
    if !str_eq(workflow_id, "publish_testflight") {
        return form_input;
    }
    match validate_testflight_release_selection(
        fields.source_mode,
        projects,
        project_id,
        scheme_id,
        app.bundle_id.as_str(),
    ) {
        Err(e) => Err(e),
        Ok(()) => build_testflight_workflow_input(
            release_workflow_values(projects, project_id, scheme_id, fields),
        ),
    }
}

/// How many times the page asks for the app it just created, and how many
/// times it tries to create the internal TestFlight group.
pub const CREATION_ATTEMPTS: u32 = 10;

/// How many seconds the page waits after an attempt that did not succeed.
pub const RETRY_DELAY_SECONDS: u64 = 1;

/// What to do after an attempt.
#[derive(Clone, Debug, PartialEq, Eq)]
pub enum RetryStep<T> {
    /// Stop now with this result.
    Stop(T),
    /// Wait this many seconds, then make the next attempt.
    WaitAndRetry(u64),
    /// Wait this many seconds, then stop with this result.
    WaitAndStop(u64, T),
}

/// After the attempt numbered `attempt` (from 1) to find the app just
/// created, which found `found`: stop with it when found; else wait a
/// second and look again, or, after the last attempt, wait a second and
/// stop without an app.
pub open spec fn created_app_step_of(attempt: u32, found: Option<AscAppSummary>) -> RetryStep<
    Option<AscAppSummary>,
> {
    match found {
        Some(a) => RetryStep::Stop(Some(a)),
        None => if attempt < CREATION_ATTEMPTS {
            RetryStep::WaitAndRetry(RETRY_DELAY_SECONDS)
        } else {
            RetryStep::WaitAndStop(RETRY_DELAY_SECONDS, None)
        },
    }
}

/// Decides what follows an attempt to find the app just created.
pub fn created_app_step(attempt: u32, found: Option<AscAppSummary>) -> (r: RetryStep<
    Option<AscAppSummary>,
>)
    requires
        1 <= attempt <= CREATION_ATTEMPTS,
    ensures
        r == created_app_step_of(attempt, found),
{
    match found {
        Some(a) => RetryStep::Stop(Some(a)),
        None => if attempt < CREATION_ATTEMPTS {
            RetryStep::WaitAndRetry(RETRY_DELAY_SECONDS)
        } else {
            RetryStep::WaitAndStop(RETRY_DELAY_SECONDS, None)
        },
    }
}

/// After the attempt numbered `attempt` (from 1) to create the internal
/// group, which gave `outcome`: stop on success; else wait a second and try
/// again, or, after the last attempt, wait a second and stop with that
/// attempt's error.
pub open spec fn group_step_of(attempt: u32, outcome: Result<(), String>) -> RetryStep<
    Result<(), String>,
> {
    match outcome {
        Ok(()) => RetryStep::Stop(Ok(())),
        Err(e) => if attempt < CREATION_ATTEMPTS {
            RetryStep::WaitAndRetry(RETRY_DELAY_SECONDS)
        } else {
            RetryStep::WaitAndStop(RETRY_DELAY_SECONDS, Err(e))
        },
    }
}

/// Decides what follows an attempt to create the internal group.
pub fn group_step(attempt: u32, outcome: Result<(), String>) -> (r: RetryStep<Result<(), String>>)
    requires
        1 <= attempt <= CREATION_ATTEMPTS,
    ensures
        r == group_step_of(attempt, outcome),
{
    match outcome {
        Ok(()) => RetryStep::Stop(Ok(())),
        Err(e) => if attempt < CREATION_ATTEMPTS {
            RetryStep::WaitAndRetry(RETRY_DELAY_SECONDS)
        } else {
            RetryStep::WaitAndStop(RETRY_DELAY_SECONDS, Err(e))
        },
    }
}

} // verus!
