//! The state of the App Store Connect workspace page apart from its views:
//! which navigation item, app, target and workflow are chosen, and which
//! targets and workflows the page offers.
use vstd::prelude::*;
use crate::asc_presentation::{
    asc_cli_missing_message, cli_probe_outcome, command_output_detail, decode_utf8_lossy,
    distribution_pending, is_testflight_distribution_pending_error, output_detail,
    parse_asc_cli_probe, summarize_workflow_error, summarize_workflow_output, utf8_lossy,
    workflow_error_summary, workflow_output_summary, AppleWorkspaceProjectSummary, AscBuildPage,
    AscBuildSummary, AscCliSummary,
};
use crate::asc_views::AscAuthSummary;
use crate::string_map::StringMap;
use crate::service_types::{
    opt_view, workflow_supports, ResourceRefView, RunDescriptorView,
    ServiceProviderDescriptor, ServiceResourceRef, ServiceRunDescriptor, ServiceRunState,
    ServiceTargetDescriptor, ServiceWorkflowDescriptor, ServiceWorkflowKind,
    ServiceWorkflowRequest, WorkflowRequestView,
};
use crate::text::{owned, str_eq, trim, trim_str};

verus! {

/// An app of the App Store Connect account.
#[derive(Clone, Debug, PartialEq, Eq)]
pub struct AscAppSummary {
    pub id: String,
    pub name: String,
    pub bundle_id: String,
    pub sku: String,
    pub primary_locale: Option<String>,
}

/// Something that is loading, has loaded, or failed to load.
#[derive(Clone, Debug)]
pub enum LoadState<T> {
    Loading,
    Ready(T),
    Error(String),
}

/// What the services page has chosen: the navigation item, the app, the
/// target and the workflow.
#[derive(Clone, Debug, PartialEq, Eq)]
pub struct ServicesPageState {
    pub navigation_id: String,
    pub selected_resource_id: Option<String>,
    pub selected_target_id: Option<String>,
    pub selected_workflow_id: Option<String>,
}

/// The first position at or after `start` in `ids` that holds `id`.
pub open spec fn position_of(ids: Seq<Seq<char>>, id: Seq<char>, start: int) -> Option<int>
    decreases ids.len() - start,
{
    if start < 0 || start >= ids.len() {
        None
    } else if ids[start] == id {
        Some(start)
    } else {
        position_of(ids, id, start + 1)
    }
}

/// `position_of` finds the first occurrence at or after `start`, and none
/// when there is none.
pub proof fn lemma_position_of(ids: Seq<Seq<char>>, id: Seq<char>, start: int)
    requires
        0 <= start,
    ensures
        match position_of(ids, id, start) {
            Some(k) => start <= k < ids.len() && ids[k] == id && forall|j: int|
                start <= j < k ==> ids[j] != id,
            None => forall|j: int| start <= j < ids.len() ==> ids[j] != id,
        },
    decreases ids.len() - start,
{
    if start < ids.len() && ids[start] != id {
        lemma_position_of(ids, id, start + 1);
    }
}

/// An index as a mathematical integer.
pub open spec fn index_view(r: Option<usize>) -> Option<int> {
    match r {
        Some(i) => Some(i as int),
        None => None,
    }
}

/// The text that an optional string slice holds.
pub open spec fn opt_str_view(o: Option<&str>) -> Option<Seq<char>> {
    match o {
        Some(s) => Some(s@),
        None => None,
    }
}

/// The ids of the apps.
pub open spec fn app_ids(apps: Seq<AscAppSummary>) -> Seq<Seq<char>> {
    apps.map_values(|a: AscAppSummary| a.id@)
}

/// The position of the first app whose id is `id`.
pub fn find_app(apps: &Vec<AscAppSummary>, id: &str) -> (r: Option<usize>)
    ensures
        index_view(r) == position_of(app_ids(apps@), id@, 0),
{
    let mut i: usize = 0;
    while i < apps.len()
        invariant
            i <= apps@.len(),
            position_of(app_ids(apps@), id@, 0) == position_of(app_ids(apps@), id@, i as int),
        decreases apps@.len() - i,
    {
        if str_eq(apps[i].id.as_str(), id) {
            return Some(i);
        }
        i = i + 1;
    }
    None
}

/// The choice among `ids` that follows the choice `selected`: kept when
/// one of `ids` is it, else the first of `ids`, else nothing.
pub open spec fn kept_choice(ids: Seq<Seq<char>>, selected: Option<Seq<char>>) -> Option<
    Seq<char>,
> {
    if selected matches Some(s) && position_of(ids, s, 0) is Some {
        selected
    } else if ids.len() > 0 {
        Some(ids[0])
    } else {
        None
    }
}

/// The app chosen once the app list `apps` has loaded: the one chosen
/// before while the list holds it, else the list's first.
pub fn kept_app_selection(apps: &Vec<AscAppSummary>, selected: Option<&str>) -> (r: Option<String>)
    ensures
        opt_view(r) == kept_choice(app_ids(apps@), opt_str_view(selected)),
{
    if let Some(s) = selected {
        if find_app(apps, s).is_some() {
            return Some(owned(s));
        }
    }
    if apps.len() > 0 {
        Some(apps[0].id.clone())
    } else {
        None
    }
}

/// The ids of the navigation items of a provider.
pub open spec fn navigation_ids(d: ServiceProviderDescriptor) -> Seq<Seq<char>> {
    d.shell.navigation_items@.map_values(|n: crate::service_types::ServiceNavigationItemDescriptor| n.id@)
}

/// The navigation item shown: the chosen one when the provider has it, else
/// the provider's default.
pub open spec fn shown_navigation(d: ServiceProviderDescriptor, nav: Seq<char>) -> Seq<char> {
    if position_of(navigation_ids(d), nav, 0) is Some {
        nav
    } else {
        d.shell.default_navigation_item_id@
    }
}

fn has_navigation_item(d: &ServiceProviderDescriptor, nav: &str) -> (b: bool)
    ensures
        b == position_of(navigation_ids(*d), nav@, 0) is Some,
{
    let items = &d.shell.navigation_items;
    let mut i: usize = 0;
    while i < items.len()
        invariant
            items == &d.shell.navigation_items,
            i <= items@.len(),
            position_of(navigation_ids(*d), nav@, 0) == position_of(
                navigation_ids(*d),
                nav@,
                i as int,
            ),
        decreases items@.len() - i,
    {
        if str_eq(items[i].id.as_str(), nav) {
            return true;
        }
        i = i + 1;
    }
    false
}

/// Whether the workflow `w` belongs to the navigation item `nav`: release
/// workflows belong to the release item, and no workflow to any other.
pub open spec fn in_navigation(nav: Seq<char>, w: ServiceWorkflowDescriptor) -> bool {
    nav == "release"@ && w.kind == ServiceWorkflowKind::Release
}

fn is_release_navigation(nav: &str) -> (b: bool)
    ensures
        b == (nav@ == "release"@),
{
    str_eq(nav, "release")
}

fn is_release_kind(kind: ServiceWorkflowKind) -> (b: bool)
    ensures
        b == (kind == ServiceWorkflowKind::Release),
{
    match kind {
        ServiceWorkflowKind::Release => true,
        _ => false,
    }
}

/// A target or a workflow that the page offers to choose.
#[derive(Clone, Debug, PartialEq, Eq)]
pub struct ServiceWorkflowOption {
    pub id: String,
    pub label: String,
    pub detail: Option<String>,
}

/// The text of an option.
pub struct WorkflowOptionView {
    pub id: Seq<char>,
    pub label: Seq<char>,
    pub detail: Option<Seq<char>>,
}

impl View for ServiceWorkflowOption {
    type V = WorkflowOptionView;

    open spec fn view(&self) -> WorkflowOptionView {
        WorkflowOptionView { id: self.id@, label: self.label@, detail: opt_view(self.detail) }
    }
}

/// The texts of a list of options.
pub open spec fn options_view(v: Seq<ServiceWorkflowOption>) -> Seq<WorkflowOptionView> {
    v.map_values(|o: ServiceWorkflowOption| o@)
}

/// The ids of a list of options.
pub open spec fn option_ids(v: Seq<WorkflowOptionView>) -> Seq<Seq<char>> {
    v.map_values(|o: WorkflowOptionView| o.id)
}

/// Whether some workflow of the navigation item `nav` runs against the
/// target `id`.
pub open spec fn target_offered(
    workflows: Seq<ServiceWorkflowDescriptor>,
    nav: Seq<char>,
    id: Seq<char>,
) -> bool {
    exists|i: int|
        #![trigger workflows[i]]
        0 <= i < workflows.len() && in_navigation(nav, workflows[i])
            && workflows[i].target_ids@.contains(id)
}

/// The option that a target gives when it is offered.
pub open spec fn target_choice(workflows: Seq<ServiceWorkflowDescriptor>, nav: Seq<char>) -> spec_fn(
    ServiceTargetDescriptor,
) -> Option<WorkflowOptionView> {
    |t: ServiceTargetDescriptor|
        if target_offered(workflows, nav, t.id@) {
            Some(WorkflowOptionView { id: t.id@, label: t.label@, detail: opt_view(t.detail) })
        } else {
            None
        }
}

/// The targets offered under the navigation item `nav`, in the provider's
/// order.
pub open spec fn available_targets_of(d: ServiceProviderDescriptor, nav: Seq<char>) -> Seq<
    WorkflowOptionView,
> {
    d.targets@.filter_map(target_choice(d.workflows@, nav))
}

fn offers_target(workflows: &Vec<ServiceWorkflowDescriptor>, nav: &str, id: &str) -> (b: bool)
    ensures
        b == target_offered(workflows@, nav@, id@),
{
    if !is_release_navigation(nav) {
        return false;
    }
    let mut i: usize = 0;
    while i < workflows.len()
        invariant
            nav@ == "release"@,
            i <= workflows@.len(),
            forall|j: int|
                0 <= j < i ==> !(in_navigation(nav@, #[trigger] workflows@[j])
                    && workflows@[j].target_ids@.contains(id@)),
        decreases workflows@.len() - i,
    {
        if is_release_kind(workflows[i].kind) && workflows[i].target_ids.contains(id) {
            assert(in_navigation(nav@, workflows@[i as int]));
            return true;
        }
        i = i + 1;
    }
    false
}

fn clone_opt(o: &Option<String>) -> (r: Option<String>)
    ensures
        opt_view(r) == opt_view(*o),
{
    match o {
        Some(s) => Some(s.clone()),
        None => None,
    }
}

/// The targets offered under the navigation item `nav`: those that some of
/// its workflows run against, in the provider's order.
pub fn available_targets(d: &ServiceProviderDescriptor, nav: &str) -> (r: Vec<ServiceWorkflowOption>)
    ensures
        options_view(r@) == available_targets_of(*d, nav@),
{
    let targets = &d.targets;
    let ghost f = target_choice(d.workflows@, nav@);
    let mut r: Vec<ServiceWorkflowOption> = Vec::new();
    let mut i: usize = 0;
    while i < targets.len()
        invariant
            targets == &d.targets,
            f == target_choice(d.workflows@, nav@),
            i <= targets@.len(),
            options_view(r@) == targets@.take(i as int).filter_map(f),
        decreases targets@.len() - i,
    {
        proof {
            targets@.lemma_filter_map_take_succ(f, i as int);
        }
        let t = &targets[i];
        if offers_target(&d.workflows, nav, t.id.as_str()) {
            r.push(ServiceWorkflowOption {
                id: t.id.clone(),
                label: t.label.clone(),
                detail: clone_opt(&t.detail),
            });
        }
        assert(options_view(r@) == targets@.take(i + 1).filter_map(f));
        i = i + 1;
    }
    assert(targets@.take(targets@.len() as int) == targets@);
    r
}

/// The option that a workflow gives when it belongs to `nav` and runs
/// against `target`.
pub open spec fn workflow_choice(nav: Seq<char>, target: Option<Seq<char>>) -> spec_fn(
    ServiceWorkflowDescriptor,
) -> Option<WorkflowOptionView> {
    |w: ServiceWorkflowDescriptor|
        if in_navigation(nav, w) && workflow_supports(w.target_ids@, target) {
            Some(WorkflowOptionView { id: w.id@, label: w.label@, detail: Some(w.detail@) })
        } else {
            None
        }
}

/// The workflows offered under `nav` for the chosen target, in the
/// provider's order.
pub open spec fn available_workflows_of(
    d: ServiceProviderDescriptor,
    nav: Seq<char>,
    target: Option<Seq<char>>,
) -> Seq<WorkflowOptionView> {
    d.workflows@.filter_map(workflow_choice(nav, target))
}

/// The workflows offered under the navigation item `nav` that run against
/// the chosen target `target`.
pub fn available_workflows(
    d: &ServiceProviderDescriptor,
    nav: &str,
    target: Option<&str>,
) -> (r: Vec<ServiceWorkflowOption>)
    ensures
        options_view(r@) == available_workflows_of(*d, nav@, opt_str_view(target)),
{
    let workflows = &d.workflows;
    let ghost f = workflow_choice(nav@, opt_str_view(target));
    let release = is_release_navigation(nav);
    let mut r: Vec<ServiceWorkflowOption> = Vec::new();
    let mut i: usize = 0;
    while i < workflows.len()
        invariant
            workflows == &d.workflows,
            f == workflow_choice(nav@, opt_str_view(target)),
            release == (nav@ == "release"@),
            i <= workflows@.len(),
            options_view(r@) == workflows@.take(i as int).filter_map(f),
        decreases workflows@.len() - i,
    {
        proof {
            workflows@.lemma_filter_map_take_succ(f, i as int);
        }
        let w = &workflows[i];
        if release && is_release_kind(w.kind) && w.supports_target(target) {
            r.push(
                ServiceWorkflowOption {
                    id: w.id.clone(),
                    label: w.label.clone(),
                    detail: Some(w.detail.clone()),
                },
            );
        }
        assert(options_view(r@) == workflows@.take(i + 1).filter_map(f));
        i = i + 1;
    }
    assert(workflows@.take(workflows@.len() as int) == workflows@);
    r
}

fn option_position(options: &Vec<ServiceWorkflowOption>, id: &str) -> (r: Option<usize>)
    ensures
        index_view(r) == position_of(option_ids(options_view(options@)), id@, 0),
{
    let mut i: usize = 0;
    while i < options.len()
        invariant
            i <= options@.len(),
            position_of(option_ids(options_view(options@)), id@, 0) == position_of(
                option_ids(options_view(options@)),
                id@,
                i as int,
            ),
        decreases options@.len() - i,
    {
        if str_eq(options[i].id.as_str(), id) {
            return Some(i);
        }
        i = i + 1;
    }
    None
}

fn kept_option(options: &Vec<ServiceWorkflowOption>, selected: &Option<String>) -> (r: Option<
    String,
>)
    ensures
        opt_view(r) == kept_choice(option_ids(options_view(options@)), opt_view(*selected)),
{
    if let Some(s) = selected {
        if option_position(options, s.as_str()).is_some() {
            return Some(s.clone());
        }
    }
    if options.len() > 0 {
        Some(options[0].id.clone())
    } else {
        None
    }
}

fn opt_as_str(o: &Option<String>) -> (r: Option<&str>)
    ensures
        opt_str_view(r) == opt_view(*o),
{
    match o {
        Some(s) => Some(s.as_str()),
        None => None,
    }
}

/// The target chosen after the page settles under `nav`.
pub open spec fn settled_target(
    d: ServiceProviderDescriptor,
    nav: Seq<char>,
    target: Option<Seq<char>>,
) -> Option<Seq<char>> {
    kept_choice(option_ids(available_targets_of(d, nav)), target)
}

/// The workflow chosen after the page settles under `nav`, once the target
/// has settled.
pub open spec fn settled_workflow(
    d: ServiceProviderDescriptor,
    nav: Seq<char>,
    target: Option<Seq<char>>,
    workflow: Option<Seq<char>>,
) -> Option<Seq<char>> {
    kept_choice(
        option_ids(available_workflows_of(d, nav, settled_target(d, nav, target))),
        workflow,
    )
}

/// Settles the chosen target and workflow: each stays while it is offered,
/// else becomes the first offered, else none. Nothing else changes.
pub fn normalize_workflow_state(d: &ServiceProviderDescriptor, state: &mut ServicesPageState)
    ensures
        final(state).navigation_id@ == old(state).navigation_id@,
        opt_view(final(state).selected_resource_id) == opt_view(old(state).selected_resource_id),
        opt_view(final(state).selected_target_id) == settled_target(
            *d,
            old(state).navigation_id@,
            opt_view(old(state).selected_target_id),
        ),
        opt_view(final(state).selected_workflow_id) == settled_workflow(
            *d,
            old(state).navigation_id@,
            opt_view(old(state).selected_target_id),
            opt_view(old(state).selected_workflow_id),
        ),
{
    let targets = available_targets(d, state.navigation_id.as_str());
    let target = kept_option(&targets, &state.selected_target_id);
    state.selected_target_id = target;
    let workflows = available_workflows(
        d,
        state.navigation_id.as_str(),
        opt_as_str(&state.selected_target_id),
    );
    let workflow = kept_option(&workflows, &state.selected_workflow_id);
    state.selected_workflow_id = workflow;
}

/// Settles the page's choices: an unknown navigation item becomes the
/// provider's default; once the apps have loaded, the chosen app stays
/// while the list holds it, else becomes the first; then the target and
/// the workflow settle.
pub fn normalize_state(
    d: &ServiceProviderDescriptor,
    apps_state: &LoadState<Vec<AscAppSummary>>,
    state: &mut ServicesPageState,
)
    ensures
        final(state).navigation_id@ == shown_navigation(*d, old(state).navigation_id@),
        opt_view(final(state).selected_resource_id) == match apps_state {
            LoadState::Ready(apps) => kept_choice(
                app_ids(apps@),
                opt_view(old(state).selected_resource_id),
            ),
            _ => opt_view(old(state).selected_resource_id),
        },
        opt_view(final(state).selected_target_id) == settled_target(
            *d,
            final(state).navigation_id@,
            opt_view(old(state).selected_target_id),
        ),
        opt_view(final(state).selected_workflow_id) == settled_workflow(
            *d,
            final(state).navigation_id@,
            opt_view(old(state).selected_target_id),
            opt_view(old(state).selected_workflow_id),
        ),
{
    if !has_navigation_item(d, state.navigation_id.as_str()) {
        state.navigation_id = d.shell.default_navigation_item_id.clone();
    }
    if let LoadState::Ready(apps) = apps_state {
        let kept = kept_app_selection(apps, opt_as_str(&state.selected_resource_id));
        state.selected_resource_id = kept;
    }
    normalize_workflow_state(d, state);
}

/// The position of the first workflow of the navigation item `nav`, at or
/// after `start`, whose id is `id`.
pub open spec fn navigation_workflow_position(
    workflows: Seq<ServiceWorkflowDescriptor>,
    nav: Seq<char>,
    id: Seq<char>,
    start: int,
) -> Option<int>
    decreases workflows.len() - start,
{
    if start < 0 || start >= workflows.len() {
        None
    } else if in_navigation(nav, workflows[start]) && workflows[start].id@ == id {
        Some(start)
    } else {
        navigation_workflow_position(workflows, nav, id, start + 1)
    }
}

/// `navigation_workflow_position` finds the first such workflow at or after
/// `start`, and none when there is none.
pub proof fn lemma_navigation_workflow_position(
    workflows: Seq<ServiceWorkflowDescriptor>,
    nav: Seq<char>,
    id: Seq<char>,
    start: int,
)
    requires
        0 <= start,
    ensures
        match navigation_workflow_position(workflows, nav, id, start) {
            Some(k) => start <= k < workflows.len() && in_navigation(nav, workflows[k])
                && workflows[k].id@ == id && forall|j: int|
                start <= j < k ==> !(in_navigation(nav, workflows[j]) && workflows[j].id@ == id),
            None => forall|j: int|
                start <= j < workflows.len() ==> !(in_navigation(nav, workflows[j])
                    && workflows[j].id@ == id),
        },
    decreases workflows.len() - start,
{
    if start < workflows.len() && !(in_navigation(nav, workflows[start]) && workflows[start].id@
        == id) {
        lemma_navigation_workflow_position(workflows, nav, id, start + 1);
    }
}

/// The workflow the page has chosen, among those of its navigation item:
/// its position in the provider's workflows.
pub open spec fn chosen_workflow(d: ServiceProviderDescriptor, state: ServicesPageState) -> Option<
    int,
> {
    match opt_view(state.selected_workflow_id) {
        Some(id) => navigation_workflow_position(d.workflows@, state.navigation_id@, id, 0),
        None => None,
    }
}

/// The position of the chosen workflow among the provider's workflows.
pub fn selected_workflow_descriptor(d: &ServiceProviderDescriptor, state: &ServicesPageState) -> (r:
    Option<usize>)
    ensures
        index_view(r) == chosen_workflow(*d, *state),
{
    let id = match &state.selected_workflow_id {
        Some(id) => id.as_str(),
        None => return None,
    };
    let release = is_release_navigation(state.navigation_id.as_str());
    let workflows = &d.workflows;
    let mut i: usize = 0;
    while i < workflows.len()
        invariant
            workflows == &d.workflows,
            opt_view(state.selected_workflow_id) == Some(id@),
            release == (state.navigation_id@ == "release"@),
            i <= workflows@.len(),
            chosen_workflow(*d, *state) == navigation_workflow_position(
                workflows@,
                state.navigation_id@,
                id@,
                i as int,
            ),
        decreases workflows@.len() - i,
    {
        if release && is_release_kind(workflows[i].kind) && str_eq(workflows[i].id.as_str(), id) {
            return Some(i);
        }
        i = i + 1;
    }
    None
}

/// Whether the user is signed in to App Store Connect on the web.
#[derive(Clone, Copy, Debug, PartialEq, Eq, Structural)]
pub struct AscWebAuthSummary {
    pub authenticated: bool,
}

/// What is known of the local `asc` installation.
#[derive(Clone, Debug, PartialEq, Eq)]
pub enum AscCliState {
    Checking,
    Ready(AscCliSummary),
    Missing(String),
    Installing,
    InstallFailed(String),
}

/// The builds shown for an app: those loaded so far, where the next page
/// is, and whether it is being loaded or failed to load.
#[derive(Clone, Debug, PartialEq, Eq)]
pub struct AscBuildListState {
    pub builds: Vec<AscBuildSummary>,
    pub next_page_url: Option<String>,
    pub is_loading_more: bool,
    pub load_more_error: Option<String>,
}

/// No builds, and nothing more to load.
pub open spec fn empty_build_list(b: AscBuildListState) -> bool {
    b.builds@.len() == 0 && b.next_page_url is None && !b.is_loading_more
        && b.load_more_error is None
}

impl AscBuildListState {
    /// No builds, and nothing more to load.
    pub fn new() -> (b: AscBuildListState)
        ensures
            empty_build_list(b),
    {
        AscBuildListState {
            builds: Vec::new(),
            next_page_url: None,
            is_loading_more: false,
            load_more_error: None,
        }
    }
}

/// The state of the App Store Connect workspace page apart from its views
/// and forms: the provider it shows, the `asc` tool, the check of the
/// API-key profile, the sign-in on the web, the local projects, the apps,
/// the builds of the chosen app, and the latest workflow run.
#[derive(Debug)]
pub struct AscWorkspace {
    pub descriptor: ServiceProviderDescriptor,
    pub cli_state: AscCliState,
    pub auth_state: LoadState<AscAuthSummary>,
    pub web_auth_state: LoadState<AscWebAuthSummary>,
    pub workspace_projects_state: LoadState<Vec<AppleWorkspaceProjectSummary>>,
    pub apps_state: LoadState<Vec<AscAppSummary>>,
    pub builds_state: LoadState<AscBuildListState>,
    pub latest_run: Option<ServiceRunDescriptor>,
}

/// The apps the page lists: those loaded, or none while they load or after
/// they failed to.
pub open spec fn listed_apps(w: AscWorkspace) -> Seq<AscAppSummary> {
    match w.apps_state {
        LoadState::Ready(apps) => apps@,
        _ => Seq::empty(),
    }
}

/// The position, among the listed apps, of the app the page has chosen.
pub open spec fn chosen_app(w: AscWorkspace, state: ServicesPageState) -> Option<int> {
    match opt_view(state.selected_resource_id) {
        Some(id) => position_of(app_ids(listed_apps(w)), id, 0),
        None => None,
    }
}

/// The builds the page shows as the chosen one: the first loaded.
pub open spec fn chosen_build(w: AscWorkspace) -> Option<AscBuildSummary> {
    match w.builds_state {
        LoadState::Ready(b) => if b.builds@.len() > 0 {
            Some(b.builds@[0])
        } else {
            None
        },
        _ => None,
    }
}

/// The workspace as it starts: everything is being checked or loaded, no
/// builds are shown and nothing has run.
pub open spec fn starting(w: AscWorkspace) -> bool {
    &&& w.cli_state == AscCliState::Checking
    &&& w.auth_state is Loading
    &&& w.web_auth_state is Loading
    &&& w.workspace_projects_state is Loading
    &&& w.apps_state is Loading
    &&& w.builds_state matches LoadState::Ready(b) && empty_build_list(b)
    &&& w.latest_run is None
}

/// What loading gave, as the page holds it.
pub open spec fn load_state_of<T>(r: Result<T, String>) -> LoadState<T> {
    match r {
        Ok(v) => LoadState::Ready(v),
        Err(e) => LoadState::Error(e),
    }
}

/// The workspaces agree on the provider, the tool, the sign-in, the
/// projects and the apps.
pub open spec fn same_sources(a: AscWorkspace, b: AscWorkspace) -> bool {
    &&& a.descriptor == b.descriptor
    &&& a.cli_state == b.cli_state
    &&& a.auth_state == b.auth_state
    &&& a.web_auth_state == b.web_auth_state
    &&& a.workspace_projects_state == b.workspace_projects_state
    &&& a.apps_state == b.apps_state
}

/// The pages agree on everything but the chosen app.
pub open spec fn same_choices_but_app(a: ServicesPageState, b: ServicesPageState) -> bool {
    &&& a.navigation_id == b.navigation_id
    &&& a.selected_target_id == b.selected_target_id
    &&& a.selected_workflow_id == b.selected_workflow_id
}

/// How starting to load the builds of the app `app_id` changes the
/// workspace `w0` and page `s0` into `w1` and `s1`, with the answer `r`:
/// when no listed app has that id, no builds are shown, nothing is chosen
/// anew and the answer is `None`; otherwise that app becomes the chosen
/// one, its builds are loading, the latest run is forgotten, and the answer
/// is the app's position.
pub open spec fn began_loading_builds(
    w0: AscWorkspace,
    s0: ServicesPageState,
    app_id: Seq<char>,
    w1: AscWorkspace,
    s1: ServicesPageState,
    r: Option<usize>,
) -> bool {
    &&& same_sources(w0, w1)
    &&& match position_of(app_ids(listed_apps(w0)), app_id, 0) {
        None => {
            &&& r is None
            &&& w1.builds_state matches LoadState::Ready(b) && empty_build_list(b)
            &&& w1.latest_run == w0.latest_run
            &&& s1 == s0
        },
        Some(i) => {
            &&& index_view(r) == Some(i)
            &&& w1.builds_state is Loading
            &&& w1.latest_run is None
            &&& opt_view(s1.selected_resource_id) == Some(app_id)
            &&& same_choices_but_app(s0, s1)
        },
    }
}

/// Whether another page of the chosen app's builds can be loaded now.
pub open spec fn can_load_more(w: AscWorkspace, state: ServicesPageState) -> bool {
    &&& chosen_app(w, state) is Some
    &&& w.builds_state matches LoadState::Ready(b) && !b.is_loading_more
        && b.next_page_url is Some
}

/// Whether a page of builds at `url` for the app `app_id` is still wanted:
/// that app is chosen and that page is the next one.
pub open spec fn more_is_current(
    w: AscWorkspace,
    state: ServicesPageState,
    app_id: Seq<char>,
    url: Seq<char>,
) -> bool {
    &&& opt_view(state.selected_resource_id) == Some(app_id)
    &&& w.builds_state matches LoadState::Ready(b) && opt_view(b.next_page_url) == Some(url)
}

/// How asking for the next page of builds changes the workspace `w0` into
/// `w1`, with the answer `r`: nothing happens unless a page can be loaded;
/// then the page is marked as loading, its earlier error is forgotten, and
/// the answer is the chosen app's position and the page's address.
pub open spec fn began_loading_more(
    w0: AscWorkspace,
    state: ServicesPageState,
    w1: AscWorkspace,
    r: Option<(usize, String)>,
) -> bool {
    &&& same_sources(w0, w1)
    &&& w1.latest_run == w0.latest_run
    &&& if !can_load_more(w0, state) {
        r is None && w1 == w0
    } else {
        match (w0.builds_state, w1.builds_state, r) {
            (LoadState::Ready(b0), LoadState::Ready(b1), Some((i, url))) => {
                &&& Some(i as int) == chosen_app(w0, state)
                &&& opt_view(b0.next_page_url) == Some(url@)
                &&& b1.builds@ == b0.builds@
                &&& opt_view(b1.next_page_url) == opt_view(b0.next_page_url)
                &&& b1.is_loading_more
                &&& b1.load_more_error is None
            },
            _ => false,
        }
    }
}

/// How the reply `result` for the page at `url` of the app `app_id`
/// changes the workspace `w0` into `w1`: a reply that is no longer wanted
/// changes nothing; otherwise the page stops loading, and its builds come
/// after those shown and its next page becomes the next one, or its error
/// is shown beside the builds.
pub open spec fn took_in_more(
    w0: AscWorkspace,
    state: ServicesPageState,
    app_id: Seq<char>,
    url: Seq<char>,
    result: Result<AscBuildPage, String>,
    w1: AscWorkspace,
) -> bool {
    if !more_is_current(w0, state, app_id, url) {
        w1 == w0
    } else {
        &&& same_sources(w0, w1)
        &&& w1.latest_run == w0.latest_run
        &&& match (w0.builds_state, w1.builds_state) {
            (LoadState::Ready(b0), LoadState::Ready(b1)) => {
                &&& !b1.is_loading_more
                &&& match result {
                    Ok(page) => {
                        &&& b1.builds@ == b0.builds@ + page.builds@
                        &&& opt_view(b1.next_page_url) == opt_view(page.next_page_url)
                        &&& b1.load_more_error is None
                    },
                    Err(e) => {
                        &&& b1.builds@ == b0.builds@
                        &&& opt_view(b1.next_page_url) == opt_view(b0.next_page_url)
                        &&& opt_view(b1.load_more_error) == Some(e@)
                    },
                }
            },
            _ => false,
        }
    }
}

impl AscWorkspace {
    /// The workspace of the provider `descriptor`, before anything loaded.
    pub fn new(descriptor: ServiceProviderDescriptor) -> (w: AscWorkspace)
        ensures
            w.descriptor == descriptor,
            starting(w),
    {
        AscWorkspace {
            descriptor,
            cli_state: AscCliState::Checking,
            auth_state: LoadState::Loading,
            web_auth_state: LoadState::Loading,
            workspace_projects_state: LoadState::Loading,
            apps_state: LoadState::Loading,
            builds_state: LoadState::Ready(AscBuildListState::new()),
            latest_run: None,
        }
    }

    /// Whether the `asc` tool is installed and answers.
    pub fn cli_ready(&self) -> (b: bool)
        ensures
            b == (self.cli_state is Ready),
    {
        match self.cli_state {
            AscCliState::Ready(_) => true,
            _ => false,
        }
    }

    /// The position of the chosen app among the listed apps.
    pub fn selected_app(&self, state: &ServicesPageState) -> (r: Option<usize>)
        ensures
            index_view(r) == chosen_app(*self, *state),
            r matches Some(i) ==> i < listed_apps(*self).len(),
    {
        match (&self.apps_state, &state.selected_resource_id) {
            (LoadState::Ready(apps), Some(id)) => {
                proof {
                    lemma_position_of(app_ids(apps@), id@, 0);
                }
                find_app(apps, id.as_str())
            },
            _ => None,
        }
    }

    /// The build shown as the chosen one: the first loaded, if any.
    pub fn selected_build(&self) -> (r: Option<&AscBuildSummary>)
        ensures
            match r {
                Some(b) => chosen_build(*self) == Some(*b),
                None => chosen_build(*self) is None,
            },
    {
        match &self.builds_state {
            LoadState::Ready(b) => if b.builds.len() > 0 {
                Some(&b.builds[0])
            } else {
                None
            },
            _ => None,
        }
    }

    /// Chooses the target `target_id`. Choosing the target already chosen
    /// changes nothing; another target settles the workflow and forgets the
    /// latest run.
    pub fn select_target(&mut self, state: &mut ServicesPageState, target_id: String)
        ensures
            opt_view(old(state).selected_target_id) == Some(target_id@) ==> *final(state) == *old(
                state,
            ) && *final(self) == *old(self),
            opt_view(old(state).selected_target_id) != Some(target_id@) ==> {
                &&& final(state).navigation_id@ == old(state).navigation_id@
                &&& opt_view(final(state).selected_resource_id) == opt_view(
                    old(state).selected_resource_id,
                )
                &&& opt_view(final(state).selected_target_id) == settled_target(
                    old(self).descriptor,
                    old(state).navigation_id@,
                    Some(target_id@),
                )
                &&& opt_view(final(state).selected_workflow_id) == settled_workflow(
                    old(self).descriptor,
                    old(state).navigation_id@,
                    Some(target_id@),
                    opt_view(old(state).selected_workflow_id),
                )
                &&& final(self).latest_run is None
                &&& final(self).descriptor == old(self).descriptor
                &&& final(self).apps_state == old(self).apps_state
                &&& final(self).builds_state == old(self).builds_state
            },
    {
        if let Some(current) = &state.selected_target_id {
            if str_eq(current.as_str(), target_id.as_str()) {
                return;
            }
        }
        state.selected_target_id = Some(target_id);
        normalize_workflow_state(&self.descriptor, state);
        self.latest_run = None;
    }

    /// Chooses the workflow `workflow_id`. Choosing the workflow already
    /// chosen changes nothing; another forgets the latest run.
    pub fn select_workflow(&mut self, state: &mut ServicesPageState, workflow_id: String)
        ensures
            opt_view(old(state).selected_workflow_id) == Some(workflow_id@) ==> *final(state)
                == *old(state) && *final(self) == *old(self),
            opt_view(old(state).selected_workflow_id) != Some(workflow_id@) ==> {
                &&& final(state).navigation_id@ == old(state).navigation_id@
                &&& opt_view(final(state).selected_resource_id) == opt_view(
                    old(state).selected_resource_id,
                )
                &&& opt_view(final(state).selected_target_id) == opt_view(
                    old(state).selected_target_id,
                )
                &&& opt_view(final(state).selected_workflow_id) == Some(workflow_id@)
                &&& final(self).latest_run is None
                &&& final(self).descriptor == old(self).descriptor
                &&& final(self).apps_state == old(self).apps_state
                &&& final(self).builds_state == old(self).builds_state
            },
    {
        if let Some(current) = &state.selected_workflow_id {
            if str_eq(current.as_str(), workflow_id.as_str()) {
                return;
            }
        }
        state.selected_workflow_id = Some(workflow_id);
        self.latest_run = None;
    }

    /// Starts loading the builds of the app `app_id`. When no listed app
    /// has that id, no builds are shown and nothing is loaded (`None`).
    /// Otherwise the app becomes the chosen one, its builds are loading,
    /// the latest run is forgotten, and the result is the app's position.
    pub fn begin_load_builds(&mut self, state: &mut ServicesPageState, app_id: &str) -> (r: Option<
        usize,
    >)
        ensures
            began_loading_builds(*old(self), *old(state), app_id@, *final(self), *final(state), r),
    {
        let found = match &self.apps_state {
            LoadState::Ready(apps) => find_app(apps, app_id),
            _ => None,
        };
        match found {
            None => {
                self.builds_state = LoadState::Ready(AscBuildListState::new());
                None
            },
            Some(i) => {
                state.selected_resource_id = Some(owned(app_id));
                self.builds_state = LoadState::Loading;
                self.latest_run = None;
                Some(i)
            },
        }
    }

    /// Takes in the first page of builds of the app `app_id`, or the error
    /// that loading it gave. A reply for an app that is no longer chosen
    /// changes nothing.
    pub fn finish_load_builds(
        &mut self,
        state: &ServicesPageState,
        app_id: &str,
        result: Result<AscBuildPage, String>,
    )
        ensures
            opt_view(state.selected_resource_id) != Some(app_id@) ==> *final(self) == *old(self),
            opt_view(state.selected_resource_id) == Some(app_id@) ==> {
                &&& same_sources(*old(self), *final(self))
                &&& final(self).latest_run == old(self).latest_run
                &&& match result {
                    Ok(page) => final(self).builds_state matches LoadState::Ready(b) && {
                        &&& b.builds@ == page.builds@
                        &&& opt_view(b.next_page_url) == opt_view(page.next_page_url)
                        &&& !b.is_loading_more
                        &&& b.load_more_error is None
                    },
                    Err(e) => final(self).builds_state == LoadState::<AscBuildListState>::Error(e),
                }
            },
    {
        let current = match &state.selected_resource_id {
            Some(id) => str_eq(id.as_str(), app_id),
            None => false,
        };
        if !current {
            return;
        }
        self.builds_state = match result {
            Ok(page) => LoadState::Ready(
                AscBuildListState {
                    builds: page.builds,
                    next_page_url: page.next_page_url,
                    is_loading_more: false,
                    load_more_error: None,
                },
            ),
            Err(e) => LoadState::Error(e),
        };
    }

    /// Starts loading the next page of builds of the chosen app. Nothing
    /// happens (`None`) unless an app is chosen, its builds have loaded,
    /// another page exists and none is loading; then the page is marked as
    /// loading, its earlier error forgotten, and the result is the app's
    /// position and the page's address.
    pub fn begin_load_more(&mut self, state: &ServicesPageState) -> (r: Option<(usize, String)>)
        ensures
            began_loading_more(*old(self), *state, *final(self), r),
    {
        let app = match self.selected_app(state) {
            Some(i) => i,
            None => return None,
        };
        let mut builds_state = LoadState::Loading;
        std::mem::swap(&mut builds_state, &mut self.builds_state);
        match builds_state {
            LoadState::Ready(b) => {
                if b.is_loading_more || b.next_page_url.is_none() {
                    self.builds_state = LoadState::Ready(b);
                    return None;
                }
                let url = match &b.next_page_url {
                    Some(u) => u.clone(),
                    None => return None,
                };
                self.builds_state = LoadState::Ready(
                    AscBuildListState {
                        builds: b.builds,
                        next_page_url: b.next_page_url,
                        is_loading_more: true,
                        load_more_error: None,
                    },
                );
                Some((app, url))
            },
            other => {
                self.builds_state = other;
                None
            },
        }
    }

    /// Takes in the page of builds at `requested_url` for the app `app_id`,
    /// or the error that loading it gave. A reply for an app that is no
    /// longer chosen, or for a page that is no longer the next one, changes
    /// nothing. Otherwise the page is no longer loading; its builds come
    /// after those already shown and its next page becomes the next one, or
    /// the error is shown beside the builds.
    pub fn finish_load_more(
        &mut self,
        state: &ServicesPageState,
        app_id: &str,
        requested_url: &str,
        result: Result<AscBuildPage, String>,
    )
        ensures
            took_in_more(*old(self), *state, app_id@, requested_url@, result, *final(self)),
    {
        let current = match &state.selected_resource_id {
            Some(id) => str_eq(id.as_str(), app_id),
            None => false,
        };
        if !current {
            return;
        }
        let mut builds_state = LoadState::Loading;
        std::mem::swap(&mut builds_state, &mut self.builds_state);
        match builds_state {
            LoadState::Ready(b) => {
                let same_page = match &b.next_page_url {
                    Some(u) => str_eq(u.as_str(), requested_url),
                    None => false,
                };
                if !same_page {
                    self.builds_state = LoadState::Ready(b);
                    return;
                }
                let AscBuildListState { builds, next_page_url, is_loading_more: _, load_more_error: _ } = b;
                let mut builds = builds;
                match result {
                    Ok(page) => {
                        let AscBuildPage { builds: more, next_page_url: next } = page;
                        let mut more = more;
                        builds.append(&mut more);
                        self.builds_state = LoadState::Ready(
                            AscBuildListState {
                                builds,
                                next_page_url: next,
                                is_loading_more: false,
                                load_more_error: None,
                            },
                        );
                    },
                    Err(e) => {
                        self.builds_state = LoadState::Ready(
                            AscBuildListState {
                                builds,
                                next_page_url,
                                is_loading_more: false,
                                load_more_error: Some(e),
                            },
                        );
                    },
                }
            },
            other => {
                self.builds_state = other;
            },
        }
    }

    /// Chooses the app `resource_id` and starts loading its builds, as
    /// `begin_load_builds` does. Nothing happens (`None`) while the `asc`
    /// tool is not ready or when that app is already chosen.
    pub fn select_resource(&mut self, state: &mut ServicesPageState, resource_id: String) -> (r:
        Option<usize>)
        ensures
            !(old(self).cli_state is Ready) || opt_view(old(state).selected_resource_id) == Some(
                resource_id@,
            ) ==> r is None && *final(self) == *old(self) && *final(state) == *old(state),
            old(self).cli_state is Ready && opt_view(old(state).selected_resource_id) != Some(
                resource_id@,
            ) ==> began_loading_builds(
                *old(self),
                *old(state),
                resource_id@,
                *final(self),
                *final(state),
                r,
            ),
    {
        if !self.cli_ready() {
            return None;
        }
        if let Some(current) = &state.selected_resource_id {
            if str_eq(current.as_str(), resource_id.as_str()) {
                return None;
            }
        }
        self.begin_load_builds(state, resource_id.as_str())
    }

    /// Starts loading the builds of the chosen app again, as
    /// `begin_load_builds` does; nothing happens (`None`) when no app is
    /// chosen.
    pub fn refresh_builds(&mut self, state: &mut ServicesPageState) -> (r: Option<usize>)
        ensures
            old(state).selected_resource_id is None ==> r is None && *final(self) == *old(self)
                && *final(state) == *old(state),
            old(state).selected_resource_id matches Some(id) ==> began_loading_builds(
                *old(self),
                *old(state),
                id@,
                *final(self),
                *final(state),
                r,
            ),
    {
        let id = match &state.selected_resource_id {
            Some(id) => id.clone(),
            None => return None,
        };
        self.begin_load_builds(state, id.as_str())
    }

    /// Starts checking everything again: the tool, the sign-in, the
    /// projects and the apps are loading, no builds are shown and the latest
    /// run is forgotten.
    pub fn begin_refresh(&mut self)
        ensures
            final(self).descriptor == old(self).descriptor,
            starting(*final(self)),
    {
        self.cli_state = AscCliState::Checking;
        self.auth_state = LoadState::Loading;
        self.web_auth_state = LoadState::Loading;
        self.workspace_projects_state = LoadState::Loading;
        self.apps_state = LoadState::Loading;
        self.builds_state = LoadState::Ready(AscBuildListState::new());
        self.latest_run = None;
    }

    /// Takes in what a refresh found: the tool's state, and, when the tool
    /// is ready, the sign-in and the apps (`None` when it is not); the
    /// projects are always loaded. Without the tool, the sign-in shows that
    /// the tool is missing, no apps are listed or chosen and no builds are
    /// shown. With it, the chosen app stays while the list holds it, else
    /// the first app is chosen, and its builds are loading. The result is
    /// the app whose builds are to be loaded.
    pub fn finish_refresh(
        &mut self,
        state: &mut ServicesPageState,
        cli_state: AscCliState,
        auth: Option<Result<AscAuthSummary, String>>,
        web_auth: Option<Result<AscWebAuthSummary, String>>,
        projects: Result<Vec<AppleWorkspaceProjectSummary>, String>,
        apps: Option<Result<Vec<AscAppSummary>, String>>,
    ) -> (r: Option<String>)
        requires
            cli_state is Ready ==> auth is Some && web_auth is Some && apps is Some,
        ensures
            final(self).cli_state == cli_state,
            final(self).descriptor == old(self).descriptor,
            final(self).latest_run == old(self).latest_run,
            final(self).workspace_projects_state == load_state_of(projects),
            final(state).navigation_id == old(state).navigation_id,
            final(state).selected_target_id == old(state).selected_target_id,
            final(state).selected_workflow_id == old(state).selected_workflow_id,
            !(cli_state is Ready) ==> {
                &&& final(self).auth_state matches LoadState::Error(m) && m@
                    == "This provider requires a local ASC CLI installation."@
                &&& final(self).web_auth_state matches LoadState::Error(m) && m@
                    == "This provider requires a local ASC CLI installation."@
                &&& final(self).apps_state matches LoadState::Ready(a) && a@.len() == 0
                &&& final(self).builds_state matches LoadState::Ready(b) && empty_build_list(b)
                &&& final(state).selected_resource_id is None
                &&& r is None
            },
            cli_state is Ready ==> {
                &&& final(self).auth_state == load_state_of(auth.unwrap())
                &&& final(self).web_auth_state == load_state_of(web_auth.unwrap())
                &&& final(self).apps_state == load_state_of(apps.unwrap())
                &&& match apps.unwrap() {
                    Ok(list) => {
                        &&& opt_view(r) == kept_choice(
                            app_ids(list@),
                            opt_view(old(state).selected_resource_id),
                        )
                        &&& opt_view(final(state).selected_resource_id) == opt_view(r)
                        &&& if r is Some {
                            final(self).builds_state is Loading
                        } else {
                            final(self).builds_state matches LoadState::Ready(b) && empty_build_list(b)
                        }
                    },
                    Err(_) => {
                        &&& r is None
                        &&& final(state).selected_resource_id is None
                        &&& final(self).builds_state matches LoadState::Ready(b) && empty_build_list(
                            b,
                        )
                    },
                }
            },
    {
        let ready = match &cli_state {
            AscCliState::Ready(_) => true,
            _ => false,
        };
        self.cli_state = cli_state;
        self.workspace_projects_state = match projects {
            Ok(p) => LoadState::Ready(p),
            Err(e) => LoadState::Error(e),
        };
        if !ready {
            self.auth_state = LoadState::Error(asc_cli_missing_message());
            self.web_auth_state = LoadState::Error(asc_cli_missing_message());
            self.apps_state = LoadState::Ready(Vec::new());
            self.builds_state = LoadState::Ready(AscBuildListState::new());
            state.selected_resource_id = None;
            return None;
        }
        self.auth_state = match auth {
            Some(Ok(summary)) => LoadState::Ready(summary),
            Some(Err(e)) => LoadState::Error(e),
            None => LoadState::Loading,
        };
        self.web_auth_state = match web_auth {
            Some(Ok(summary)) => LoadState::Ready(summary),
            Some(Err(e)) => LoadState::Error(e),
            None => LoadState::Loading,
        };
        match apps {
            Some(Ok(list)) => {
                let next = kept_app_selection(&list, opt_as_str(&state.selected_resource_id));
                self.apps_state = LoadState::Ready(list);
                state.selected_resource_id = clone_opt(&next);
                self.builds_state = if next.is_some() {
                    LoadState::Loading
                } else {
                    LoadState::Ready(AscBuildListState::new())
                };
                next
            },
            Some(Err(e)) => {
                self.apps_state = LoadState::Error(e);
                state.selected_resource_id = None;
                self.builds_state = LoadState::Ready(AscBuildListState::new());
                None
            },
            None => None,
        }
    }
}

/// The request to run the workflow `workflow_id` against the target
/// `target_id` for the app `app`, with the form's input.
pub fn workflow_request(
    app: &AscAppSummary,
    workflow_id: String,
    target_id: Option<String>,
    input: StringMap,
) -> (r: ServiceWorkflowRequest)
    ensures
        r@ == (WorkflowRequestView {
            provider_id: "app-store-connect"@,
            workflow: workflow_id@,
            target_id: opt_view(target_id),
            resource: Some(
                ResourceRefView {
                    provider_id: "app-store-connect"@,
                    kind: "app"@,
                    external_id: app.id@,
                    label: app.name@,
                },
            ),
            artifact: None,
            input: input@,
        }),
{
    ServiceWorkflowRequest {
        provider_id: owned("app-store-connect"),
        workflow: workflow_id,
        target_id,
        resource: Some(
            ServiceResourceRef {
                provider_id: owned("app-store-connect"),
                kind: owned("app"),
                external_id: app.id.clone(),
                label: app.name.clone(),
            },
        ),
        artifact: None,
        input,
    }
}

/// What the page says while a workflow runs.
pub open spec fn running_detail(workflow_id: Seq<char>, label: Seq<char>, app_name: Seq<char>) -> Seq<
    char,
> {
    if workflow_id == "publish_testflight"@ {
        "Building, exporting, uploading, and preparing TestFlight distribution for "@ + app_name
            + "."@
    } else {
        "Running "@ + label + " for "@ + app_name + "."@
    }
}

/// The run of `workflow` against `target_id` for the app named `app_name`,
/// as it starts.
pub fn running_run(workflow: &ServiceWorkflowDescriptor, target_id: Option<String>, app_name: &str) -> (r:
    ServiceRunDescriptor)
    ensures
        r@ == (RunDescriptorView {
            workflow: workflow.id@,
            target_id: opt_view(target_id),
            state: ServiceRunState::Running,
            headline: workflow.label@,
            detail: running_detail(workflow.id@, workflow.label@, app_name@),
            output: None,
        }),
{
    let detail = if str_eq(workflow.id.as_str(), "publish_testflight") {
        let mut d = owned(
            "Building, exporting, uploading, and preparing TestFlight distribution for ",
        );
        d.append(app_name);
        d.append(".");
        d
    } else {
        let mut d = owned("Running ");
        d.append(workflow.label.as_str());
        d.append(" for ");
        d.append(app_name);
        d.append(".");
        d
    };
    ServiceRunDescriptor {
        workflow: workflow.id.clone(),
        target_id,
        state: ServiceRunState::Running,
        headline: workflow.label.clone(),
        detail,
        output: None,
    }
}

/// What a finished run tells its form: it succeeded, or it failed with the
/// given message.
#[derive(Clone, Debug, PartialEq, Eq)]
pub enum WorkflowFormOutcome {
    Succeeded,
    Failed(String),
}

/// What the page says when a TestFlight build was uploaded but cannot yet
/// be handed to testers.
pub open spec fn distribution_pending_text() -> Seq<char> {
    "Build uploaded to App Store Connect, but Apple has not finished making it assignable to TestFlight groups yet. Re-run when processing finishes or enable Wait for processing."@
}

/// Whether the error `error` of the workflow `workflow_id` only says that
/// the uploaded build is not yet ready for TestFlight groups.
pub open spec fn pending_distribution(workflow_id: Seq<char>, error: Seq<char>) -> bool {
    workflow_id == "publish_testflight"@ && distribution_pending(error)
}

/// The finished run of the workflow `workflow_id` (labelled `label`)
/// against `target_id`, from its output, or its error when it failed.
pub open spec fn finished_run_view(
    workflow_id: Seq<char>,
    target_id: Option<Seq<char>>,
    label: Seq<char>,
    output: Seq<char>,
    error: Option<Seq<char>>,
) -> RunDescriptorView {
    match error {
        Some(e) => if pending_distribution(workflow_id, e) {
            RunDescriptorView {
                workflow: workflow_id,
                target_id,
                state: ServiceRunState::Warning,
                headline: label + " uploaded"@,
                detail: distribution_pending_text(),
                output: None,
            }
        } else {
            RunDescriptorView {
                workflow: workflow_id,
                target_id,
                state: ServiceRunState::Failed,
                headline: label + " failed"@,
                detail: workflow_error_summary(e),
                output: None,
            }
        },
        None => RunDescriptorView {
            workflow: workflow_id,
            target_id,
            state: ServiceRunState::Succeeded,
            headline: label + " finished"@,
            detail: workflow_output_summary(output),
            output: None,
        },
    }
}

/// The error that a finished run of the workflow `workflow_id` reports to
/// its form: none after a success, or when the only trouble is that the
/// uploaded build is not yet ready for TestFlight groups; else the summary
/// of the error.
pub open spec fn form_error_of(workflow_id: Seq<char>, error: Option<Seq<char>>) -> Option<Seq<char>> {
    match error {
        Some(e) => if pending_distribution(workflow_id, e) {
            None
        } else {
            Some(workflow_error_summary(e))
        },
        None => None,
    }
}

/// The run of a workflow once it finished, and what its form is told: a
/// run that failed only because the uploaded build is not yet ready for
/// TestFlight groups is a warning and counts as a success of the form.
pub fn finished_run(
    workflow_id: &str,
    target_id: Option<String>,
    label: &str,
    output: &str,
    error: Option<&str>,
) -> (r: (ServiceRunDescriptor, WorkflowFormOutcome))
    ensures
        r.0@ == finished_run_view(
            workflow_id@,
            opt_view(target_id),
            label@,
            output@,
            opt_str_view(error),
        ),
        match r.1 {
            WorkflowFormOutcome::Succeeded => form_error_of(workflow_id@, opt_str_view(error)) is None,
            WorkflowFormOutcome::Failed(m) => form_error_of(workflow_id@, opt_str_view(error))
                == Some(m@),
        },
{
    match error {
        Some(e) => {
            let detail = summarize_workflow_error(e);
            let pending = str_eq(workflow_id, "publish_testflight")
                && is_testflight_distribution_pending_error(e);
            if pending {
                let mut headline = owned(label);
                headline.append(" uploaded");
                let run = ServiceRunDescriptor {
                    workflow: owned(workflow_id),
                    target_id,
                    state: ServiceRunState::Warning,
                    headline,
                    detail: owned(
                        "Build uploaded to App Store Connect, but Apple has not finished making it assignable to TestFlight groups yet. Re-run when processing finishes or enable Wait for processing.",
                    ),
                    output: None,
                };
                (run, WorkflowFormOutcome::Succeeded)
            } else {
                let mut headline = owned(label);
                headline.append(" failed");
                let run = ServiceRunDescriptor {
                    workflow: owned(workflow_id),
                    target_id,
                    state: ServiceRunState::Failed,
                    headline,
                    detail: detail.clone(),
                    output: None,
                };
                (run, WorkflowFormOutcome::Failed(detail))
            }
        },
        None => {
            let mut headline = owned(label);
            headline.append(" finished");
            let run = ServiceRunDescriptor {
                workflow: owned(workflow_id),
                target_id,
                state: ServiceRunState::Succeeded,
                headline,
                detail: summarize_workflow_output(output),
                output: None,
            };
            (run, WorkflowFormOutcome::Succeeded)
        },
    }
}

/// Whether the run `run` belongs to the chosen workflow and target.
pub open spec fn run_is_shown(run: ServiceRunDescriptor, state: ServicesPageState) -> bool {
    &&& opt_view(state.selected_workflow_id) == Some(run.workflow@)
    &&& opt_view(run.target_id) == opt_view(state.selected_target_id)
}

fn opt_eq(a: &Option<String>, b: &Option<String>) -> (r: bool)
    ensures
        r == (opt_view(*a) == opt_view(*b)),
{
    match (a, b) {
        (Some(x), Some(y)) => str_eq(x.as_str(), y.as_str()),
        (None, None) => true,
        _ => false,
    }
}

fn copy_run(run: &ServiceRunDescriptor) -> (r: ServiceRunDescriptor)
    ensures
        r@ == run@,
{
    ServiceRunDescriptor {
        workflow: run.workflow.clone(),
        target_id: clone_opt(&run.target_id),
        state: run.state,
        headline: run.headline.clone(),
        detail: run.detail.clone(),
        output: clone_opt(&run.output),
    }
}

/// What the workflow panel of the page shows, apart from the form's
/// fields.
#[derive(Debug)]
pub struct ServiceWorkflowPanel {
    pub provider_id: String,
    pub target_label: String,
    pub selected_target_id: Option<String>,
    pub targets: Vec<ServiceWorkflowOption>,
    pub workflow_label: String,
    pub selected_workflow_id: Option<String>,
    pub workflows: Vec<ServiceWorkflowOption>,
    pub execute_label: String,
    pub run: Option<ServiceRunDescriptor>,
    pub disabled_reason: Option<String>,
}

/// Whether the page shows the workflow panel: the tool is ready, some
/// workflow is offered, and the chosen one is among the navigation item's.
pub open spec fn panel_shown(w: AscWorkspace, state: ServicesPageState) -> bool {
    &&& w.cli_state is Ready
    &&& available_workflows_of(
        w.descriptor,
        state.navigation_id@,
        opt_view(state.selected_target_id),
    ).len() > 0
    &&& chosen_workflow(w.descriptor, state) is Some
}

impl AscWorkspace {
    /// The workflow panel: the targets and workflows offered and chosen,
    /// the chosen workflow's label on the button, the latest run when it
    /// belongs to the chosen workflow and target, and why the button is
    /// off (no app is chosen for a workflow that needs one).
    pub fn workflow_panel(&self, state: &ServicesPageState) -> (r: Option<ServiceWorkflowPanel>)
        ensures
            r is Some <==> panel_shown(*self, *state),
            r matches Some(p) ==> {
                let i = chosen_workflow(self.descriptor, *state)->0;
                &&& p.provider_id@ == self.descriptor.id@
                &&& p.target_label@ == "Target"@
                &&& p.workflow_label@ == "Workflow"@
                &&& opt_view(p.selected_target_id) == opt_view(state.selected_target_id)
                &&& opt_view(p.selected_workflow_id) == opt_view(state.selected_workflow_id)
                &&& options_view(p.targets@) == available_targets_of(
                    self.descriptor,
                    state.navigation_id@,
                )
                &&& options_view(p.workflows@) == available_workflows_of(
                    self.descriptor,
                    state.navigation_id@,
                    opt_view(state.selected_target_id),
                )
                &&& p.execute_label@ == self.descriptor.workflows@[i].label@
                &&& match self.latest_run {
                    Some(run) => if run_is_shown(run, *state) {
                        p.run matches Some(q) && q@ == run@
                    } else {
                        p.run is None
                    },
                    None => p.run is None,
                }
                &&& opt_view(p.disabled_reason) == if chosen_app(*self, *state) is None
                    && self.descriptor.workflows@[i].resource_kind is Some {
                    Some("Select an app first."@)
                } else {
                    None
                }
            },
    {
        if !self.cli_ready() {
            return None;
        }
        let workflows = available_workflows(
            &self.descriptor,
            state.navigation_id.as_str(),
            opt_as_str(&state.selected_target_id),
        );
        if workflows.len() == 0 {
            return None;
        }
        let i = match selected_workflow_descriptor(&self.descriptor, state) {
            Some(i) => i,
            None => return None,
        };
        proof {
            lemma_navigation_workflow_position(
                self.descriptor.workflows@,
                state.navigation_id@,
                opt_view(state.selected_workflow_id)->0,
                0,
            );
        }
        let descriptor = &self.descriptor.workflows[i];
        let disabled_reason = if self.selected_app(state).is_none()
            && descriptor.resource_kind.is_some() {
            Some(owned("Select an app first."))
        } else {
            None
        };
        let run = match &self.latest_run {
            Some(run) => {
                let same_workflow = match &state.selected_workflow_id {
                    Some(id) => str_eq(run.workflow.as_str(), id.as_str()),
                    None => false,
                };
                if same_workflow && opt_eq(&run.target_id, &state.selected_target_id) {
                    Some(copy_run(run))
                } else {
                    None
                }
            },
            None => None,
        };
        Some(
            ServiceWorkflowPanel {
                provider_id: self.descriptor.id.clone(),
                target_label: owned("Target"),
                selected_target_id: clone_opt(&state.selected_target_id),
                targets: available_targets(&self.descriptor, state.navigation_id.as_str()),
                workflow_label: owned("Workflow"),
                selected_workflow_id: clone_opt(&state.selected_workflow_id),
                workflows,
                execute_label: descriptor.label.clone(),
                run,
                disabled_reason,
            },
        )
    }
}

/// An app in the menu of apps.
#[derive(Clone, Debug, PartialEq, Eq)]
pub struct ServiceResourceMenuEntry {
    pub id: String,
    pub label: String,
    pub detail: Option<String>,
}

/// The menu of apps: its title, what its button reads, its entries, and
/// whether it is off.
#[derive(Clone, Debug, PartialEq, Eq)]
pub struct ServiceResourceMenuModel {
    pub singular_label: String,
    pub current_label: String,
    pub entries: Vec<ServiceResourceMenuEntry>,
    pub disabled: bool,
}

/// What the button of the menu of apps reads: the chosen app's name, or
/// what to do, given the labels of one and of many apps.
pub open spec fn menu_label(
    w: AscWorkspace,
    state: ServicesPageState,
    singular: Seq<char>,
    plural: Seq<char>,
) -> Seq<char> {
    match w.apps_state {
        LoadState::Loading => "Loading "@ + plural + "\u{2026}"@,
        LoadState::Error(_) => "Select "@ + singular,
        LoadState::Ready(apps) => if apps@.len() == 0 {
            "No "@ + plural
        } else {
            match chosen_app(w, state) {
                Some(i) => apps@[i].name@,
                None => "Select "@ + singular,
            }
        },
    }
}

/// Whether an entry of the menu shows the app `a`.
pub open spec fn entry_shows(e: ServiceResourceMenuEntry, a: AscAppSummary) -> bool {
    e.id@ == a.id@ && e.label@ == a.name@ && opt_view(e.detail) == Some(a.bundle_id@)
}

impl AscWorkspace {
    /// The menu of apps, when the tool is ready and the provider has a kind
    /// of resource: one entry per listed app, with its bundle id; the menu
    /// is off while the apps load or when there are none.
    pub fn resource_menu(&self, state: &ServicesPageState) -> (r: Option<ServiceResourceMenuModel>)
        ensures
            r is Some <==> (self.cli_state is Ready && self.descriptor.shell.resource_kind is Some),
            r matches Some(m) ==> {
                let kind = self.descriptor.shell.resource_kind->0;
                &&& m.singular_label@ == kind.singular_label@
                &&& m.current_label@ == menu_label(
                    *self,
                    *state,
                    kind.singular_label@,
                    kind.plural_label@,
                )
                &&& m.entries@.len() == listed_apps(*self).len()
                &&& forall|k: int|
                    0 <= k < m.entries@.len() ==> entry_shows(
                        #[trigger] m.entries@[k],
                        listed_apps(*self)[k],
                    )
                &&& m.disabled == (self.apps_state is Loading || listed_apps(*self).len() == 0)
            },
    {
        if !self.cli_ready() {
            return None;
        }
        let kind = match &self.descriptor.shell.resource_kind {
            Some(k) => k,
            None => return None,
        };
        let current_label = match &self.apps_state {
            LoadState::Loading => {
                let mut l = owned("Loading ");
                l.append(kind.plural_label.as_str());
                l.append("\u{2026}");
                l
            },
            LoadState::Error(_) => {
                let mut l = owned("Select ");
                l.append(kind.singular_label.as_str());
                l
            },
            LoadState::Ready(apps) => if apps.len() == 0 {
                let mut l = owned("No ");
                l.append(kind.plural_label.as_str());
                l
            } else {
                match self.selected_app(state) {
                    Some(i) => apps[i].name.clone(),
                    None => {
                        let mut l = owned("Select ");
                        l.append(kind.singular_label.as_str());
                        l
                    },
                }
            },
        };
        let mut entries: Vec<ServiceResourceMenuEntry> = Vec::new();
        let disabled = match &self.apps_state {
            LoadState::Ready(apps) => {
                let mut k: usize = 0;
                while k < apps.len()
                    invariant
                        self.apps_state == LoadState::Ready(*apps),
                        k <= apps@.len(),
                        entries@.len() == k,
                        forall|j: int|
                            0 <= j < k ==> entry_shows(#[trigger] entries@[j], apps@[j]),
                    decreases apps@.len() - k,
                {
                    entries.push(
                        ServiceResourceMenuEntry {
                            id: apps[k].id.clone(),
                            label: apps[k].name.clone(),
                            detail: Some(apps[k].bundle_id.clone()),
                        },
                    );
                    k = k + 1;
                }
                apps.len() == 0
            },
            LoadState::Loading => true,
            LoadState::Error(_) => true,
        };
        Some(
            ServiceResourceMenuModel {
                singular_label: kind.singular_label.clone(),
                current_label,
                entries,
                disabled,
            },
        )
    }
}

/// The section of the page shown.
#[derive(Clone, Copy, Debug, PartialEq, Eq, Structural)]
pub enum AscSection {
    /// What the `asc` tool is and how to install it.
    CliRequirement,
    Builds,
    Release,
    Overview,
}

/// The section shown: the tool's requirement while it is not ready, else
/// the one of the navigation item (the overview for any other item).
pub open spec fn shown_section(cli_ready: bool, nav: Seq<char>) -> AscSection {
    if !cli_ready {
        AscSection::CliRequirement
    } else if nav == "builds"@ {
        AscSection::Builds
    } else if nav == "release"@ {
        AscSection::Release
    } else {
        AscSection::Overview
    }
}

impl AscWorkspace {
    /// The section the page shows.
    pub fn section(&self, state: &ServicesPageState) -> (r: AscSection)
        ensures
            r == shown_section(self.cli_state is Ready, state.navigation_id@),
    {
        if !self.cli_ready() {
            AscSection::CliRequirement
        } else if str_eq(state.navigation_id.as_str(), "builds") {
            AscSection::Builds
        } else if str_eq(state.navigation_id.as_str(), "release") {
            AscSection::Release
        } else {
            AscSection::Overview
        }
    }

    /// Whether the page shows the TestFlight release form in place of the
    /// generic workflow form.
    pub fn shows_testflight_form(state: &ServicesPageState) -> (b: bool)
        ensures
            b == (opt_view(state.selected_workflow_id) == Some("publish_testflight"@)),
    {
        match &state.selected_workflow_id {
            Some(id) => str_eq(id.as_str(), "publish_testflight"),
            None => false,
        }
    }

    /// Starts installing the `asc` tool, unless an installation is already
    /// under way (`false`).
    pub fn begin_install_cli(&mut self) -> (started: bool)
        ensures
            started == !(old(self).cli_state is Installing),
            started ==> final(self).cli_state == AscCliState::Installing,
            !started ==> *final(self) == *old(self),
            final(self).descriptor == old(self).descriptor,
            final(self).apps_state == old(self).apps_state,
            final(self).builds_state == old(self).builds_state,
            final(self).latest_run == old(self).latest_run,
    {
        if let AscCliState::Installing = self.cli_state {
            return false;
        }
        self.cli_state = AscCliState::Installing;
        true
    }

    /// Takes in how the installation ended. After a success the page is to
    /// be refreshed (`true`); a failure is shown as such.
    pub fn finish_install_cli(&mut self, result: Result<(), String>) -> (refresh: bool)
        ensures
            refresh == (result is Ok),
            result is Ok ==> *final(self) == *old(self),
            result matches Err(e) ==> final(self).cli_state == AscCliState::InstallFailed(e),
            final(self).descriptor == old(self).descriptor,
            final(self).apps_state == old(self).apps_state,
            final(self).builds_state == old(self).builds_state,
            final(self).latest_run == old(self).latest_run,
    {
        match result {
            Ok(()) => true,
            Err(e) => {
                self.cli_state = AscCliState::InstallFailed(e);
                false
            },
        }
    }
}

/// How the installation ends, from the state of the tool found after it.
pub open spec fn install_outcome_of(found: AscCliState) -> Result<(), Seq<char>> {
    match found {
        AscCliState::Ready(_) => Ok(()),
        AscCliState::Missing(d) => Err(d@),
        AscCliState::InstallFailed(d) => Err(d@),
        _ => Err("ASC CLI installation did not finish cleanly."@),
    }
}

/// How the installation ends, from the state of the tool found after it.
pub fn install_outcome(found: AscCliState) -> (r: Result<(), String>)
    ensures
        match r {
            Ok(()) => install_outcome_of(found) == Ok::<(), Seq<char>>(()),
            Err(e) => install_outcome_of(found) == Err::<(), Seq<char>>(e@),
        },
{
    match found {
        AscCliState::Ready(_) => Ok(()),
        AscCliState::Missing(d) => Err(d),
        AscCliState::InstallFailed(d) => Err(d),
        _ => Err(owned("ASC CLI installation did not finish cleanly.")),
    }
}

/// The error when Homebrew, which installs the tool, cannot be started.
pub fn homebrew_missing_message() -> (r: String)
    ensures
        r@
            == "Automatic ASC CLI installation currently requires Homebrew. Install it manually from https://github.com/rudrankriyam/App-Store-Connect-CLI#1-install."@,
{
    owned(
        "Automatic ASC CLI installation currently requires Homebrew. Install it manually from https://github.com/rudrankriyam/App-Store-Connect-CLI#1-install.",
    )
}

/// The error when `brew install asc` cannot be started.
pub fn homebrew_start_failure_message() -> (r: String)
    ensures
        r@ == "Failed to start Homebrew while installing ASC CLI"@,
{
    owned("Failed to start Homebrew while installing ASC CLI")
}

/// The error when `brew install asc` fails, from what it printed.
pub fn homebrew_install_failure_message(stdout: &[u8], stderr: &[u8]) -> (r: String)
    ensures
        r@ == "Homebrew failed to install ASC CLI: "@ + output_detail(
            utf8_lossy(stdout@),
            utf8_lossy(stderr@),
            "`brew install asc` exited unsuccessfully"@,
        ),
{
    let mut m = owned("Homebrew failed to install ASC CLI: ");
    let detail = command_output_detail(stdout, stderr, "`brew install asc` exited unsuccessfully");
    m.append(detail.as_str());
    m
}

/// How a command that was to be run ended: it could not be started (with
/// the reason), or it finished with its exit status and output.
#[derive(Clone, Debug, PartialEq, Eq)]
pub enum CommandOutcome {
    NotStarted(String),
    Finished { success: bool, stdout: Vec<u8>, stderr: Vec<u8> },
}

/// The texts of what is known of the `asc` tool.
pub enum CliStateView {
    Checking,
    Ready(Seq<char>, Seq<char>),
    Missing(Seq<char>),
    Installing,
    InstallFailed(Seq<char>),
}

impl View for AscCliState {
    type V = CliStateView;

    open spec fn view(&self) -> CliStateView {
        match self {
            AscCliState::Checking => CliStateView::Checking,
            AscCliState::Ready(s) => CliStateView::Ready(s.path@, s.version@),
            AscCliState::Missing(d) => CliStateView::Missing(d@),
            AscCliState::Installing => CliStateView::Installing,
            AscCliState::InstallFailed(d) => CliStateView::InstallFailed(d@),
        }
    }
}

/// What the page says when the tool is missing.
pub open spec fn cli_missing_text() -> Seq<char> {
    "This provider requires a local ASC CLI installation."@
}

/// The state of the tool after looking for `asc` on the login shell's path,
/// when that already decides it; `None` when its version is to be asked.
pub open spec fn state_after_path_probe(path: CommandOutcome) -> Option<CliStateView> {
    match path {
        CommandOutcome::NotStarted(e) => Some(
            CliStateView::Missing(cli_missing_text() + " "@ + e@),
        ),
        CommandOutcome::Finished { success, .. } => if success {
            None
        } else {
            Some(CliStateView::Missing(cli_missing_text()))
        },
    }
}

/// The state of the tool after asking `asc version`, given what the search
/// for `asc` printed (`path_stdout`).
pub open spec fn state_after_version_probe(path_stdout: Seq<u8>, version: CommandOutcome) -> CliStateView {
    match version {
        CommandOutcome::NotStarted(e) => CliStateView::Missing(cli_missing_text() + " "@ + e@),
        CommandOutcome::Finished { success, stdout, stderr } => if !success {
            CliStateView::InstallFailed(
                "ASC CLI was found at "@ + trim(utf8_lossy(path_stdout))
                    + ", but `asc version` failed: "@ + output_detail(
                    utf8_lossy(stdout@),
                    utf8_lossy(stderr@),
                    "`asc version` exited unsuccessfully"@,
                ),
            )
        } else {
            match cli_probe_outcome(utf8_lossy(path_stdout), utf8_lossy(stdout@)) {
                Ok((p, v)) => CliStateView::Ready(p, v),
                Err(m) => CliStateView::InstallFailed(m),
            }
        },
    }
}

fn missing_with_reason(reason: &str) -> (r: AscCliState)
    ensures
        r@ == CliStateView::Missing(cli_missing_text() + " "@ + reason@),
{
    let mut m = asc_cli_missing_message();
    m.append(" ");
    m.append(reason);
    AscCliState::Missing(m)
}

/// Decides the tool's state from the search for `asc` on the login
/// shell's path, or that its version is to be asked (`None`).
pub fn cli_state_after_path_probe(path: &CommandOutcome) -> (r: Option<AscCliState>)
    ensures
        match r {
            Some(st) => state_after_path_probe(*path) == Some(st@),
            None => state_after_path_probe(*path) is None,
        },
{
    match path {
        CommandOutcome::NotStarted(e) => Some(missing_with_reason(e.as_str())),
        CommandOutcome::Finished { success, .. } => if *success {
            None
        } else {
            Some(AscCliState::Missing(asc_cli_missing_message()))
        },
    }
}

/// Decides the tool's state from what `asc version` gave, once `asc` was
/// found (`path_stdout` is what the search printed).
pub fn cli_state_after_version_probe(path_stdout: &[u8], version: &CommandOutcome) -> (r: AscCliState)
    ensures
        r@ == state_after_version_probe(path_stdout@, *version),
{
    match version {
        CommandOutcome::NotStarted(e) => missing_with_reason(e.as_str()),
        CommandOutcome::Finished { success, stdout, stderr } => {
            let path_text = decode_utf8_lossy(path_stdout);
            if !*success {
                let mut m = owned("ASC CLI was found at ");
                let path = trim_str(path_text.as_str());
                m.append(path.as_str());
                m.append(", but `asc version` failed: ");
                let detail = command_output_detail(
                    stdout.as_slice(),
                    stderr.as_slice(),
                    "`asc version` exited unsuccessfully",
                );
                m.append(detail.as_str());
                AscCliState::InstallFailed(m)
            } else {
                let version_text = decode_utf8_lossy(stdout.as_slice());
                match parse_asc_cli_probe(path_text.as_str(), version_text.as_str()) {
                    Ok(summary) => AscCliState::Ready(summary),
                    Err(m) => AscCliState::InstallFailed(m),
                }
            }
        },
    }
}

} // verus!
