//! Properties that hold across the library's operations.
use vstd::prelude::*;
use crate::asc_commands::{
    authenticate_outcome, publish_appstore_outcome, publish_testflight_outcome, target_problem,
};
use crate::asc_descriptor::is_asc_descriptor;
use crate::asc_presentation::{
    AscTestFlightSourceMode, AscTestFlightWorkflowValues, local_project_inputs, testflight_inputs,
    with_flag, with_nonempty,
};
use crate::text::trim;
use crate::asc_flows::{create_app_input, two_factor_prompt_needed, web_login_needed, AscCreateAppValues};
use crate::asc_workspace::{
    began_loading_more, finished_run_view, form_error_of, kept_choice, lemma_position_of,
    position_of, took_in_more, AscWorkspace, LoadState, ServicesPageState,
};
use crate::instance::{instance_outcome, next_instance_step, InstanceStage, InstanceStep, IsOnlyInstance};
use crate::service_types::ServiceRunState;
use crate::sorting::{
    app_order, irreflexive, is_sorted_by, lemma_sorted_by_is_sorted,
    lemma_sorted_by_len, lemma_sorted_by_permutes, lemma_text_before_irreflexive,
    lemma_text_before_transitive, project_order, sorted_by, text_before, transitive,
};
use crate::hub::{auth_action_outcome, operation_outcome, workflow_outcome};
use crate::plan_args::lookup_trimmed;
use crate::runtime_catalog::{
    ProjectKind, RuntimeAction, escape_quotes, execution_outcome, first_project, first_target, quote,
    shell_quoted, ProjectView, ExecutionRequestView, RuntimeErrorView,
};
use crate::service_types::{
    AuthActionRequestView, OperationRequestView, ServiceAuthAction, ServiceProviderDescriptor, WorkflowRequestView, workflow_supports,
};

verus! {

/// Every plan that the App Store Connect provider makes, for an operation,
/// a workflow or an authentication action, runs `asc` and names no working
/// directory.
pub proof fn lemma_asc_plans_run_asc(
    op: OperationRequestView,
    wf: WorkflowRequestView,
    auth: AuthActionRequestView,
)
    ensures
        operation_outcome(op) matches Ok(p) ==> p.command == "asc"@ && p.cwd is None,
        workflow_outcome(wf) matches Ok(p) ==> p.command == "asc"@ && p.cwd is None,
        auth_action_outcome(auth) matches Ok(p) ==> p.command == "asc"@ && p.cwd is None,
{
}

/// A workflow request is refused when the advertised workflow it names
/// does not support the request's target.
pub proof fn lemma_unsupported_target_is_refused(
    d: ServiceProviderDescriptor,
    i: int,
    req: WorkflowRequestView,
)
    requires
        is_asc_descriptor(d),
        0 <= i < d.workflows@.len(),
        req.workflow == d.workflows@[i].id@,
        !workflow_supports(d.workflows@[i].target_ids@, req.target_id),
    ensures
        workflow_outcome(req) is Err,
{
    reveal_strlit("publish_testflight");
    reveal_strlit("publish_appstore");
    reveal_strlit("testflight");
    reveal_strlit("app_store");
    let w = d.workflows@[i];
    if i == 0 {
        assert(w.target_ids@.contains("testflight"@));
        assert(req.target_id != Some("testflight"@));
        assert(target_problem(req.target_id, "testflight"@) is Some);
    } else {
        assert(w.target_ids@.contains("app_store"@));
        assert(req.target_id != Some("app_store"@));
        assert(req.workflow[8] != "publish_testflight"@[8]);
        assert(target_problem(req.target_id, "app_store"@) is Some);
    }
}

/// An authentication request lacking an input that the advertised
/// Authenticate action marks required is refused, and one that has every
/// required input is accepted.
pub proof fn lemma_required_auth_inputs(d: ServiceProviderDescriptor, req: AuthActionRequestView)
    requires
        is_asc_descriptor(d),
        req.action == ServiceAuthAction::Authenticate,
    ensures
        (forall|k: int|
            0 <= k < d.auth->0.actions@[0].inputs@.len() && d.auth->0.actions@[0].inputs@[k].required
                ==> req.input.dom().contains(d.auth->0.actions@[0].inputs@[k].key@))
            <==> auth_action_outcome(req) is Ok,
{
    let inputs = d.auth->0.actions@[0].inputs@;
    if auth_action_outcome(req) is Ok {
        assert forall|k: int| 0 <= k < inputs.len() && inputs[k].required implies req.input.dom().contains(
            inputs[k].key@,
        ) by {
            assert(0 <= k < 4);
        }
    } else {
        if req.input.dom().contains("profile_name"@) && req.input.dom().contains("key_id"@)
            && req.input.dom().contains("issuer_id"@) && req.input.dom().contains(
            "private_key_path"@,
        ) {
            assert(authenticate_outcome(req.input) is Ok);
        } else if !req.input.dom().contains("profile_name"@) {
            assert(inputs[0].required);
        } else if !req.input.dom().contains("key_id"@) {
            assert(inputs[1].required);
        } else if !req.input.dom().contains("issuer_id"@) {
            assert(inputs[2].required);
        } else {
            assert(inputs[3].required);
        }
    }
}

/// Publishing to TestFlight is refused when the beta groups that the
/// workflow marks required are missing or blank.
pub proof fn lemma_testflight_requires_group(req: WorkflowRequestView)
    requires
        lookup_trimmed(req.input, "group"@) is None,
    ensures
        publish_testflight_outcome(req) is Err,
{
}

/// Publishing to the App Store is refused when it has neither the IPA that
/// the workflow marks required nor a local project to build one from.
pub proof fn lemma_appstore_requires_a_source(req: WorkflowRequestView)
    requires
        lookup_trimmed(req.input, "ipa_path"@) is None,
        lookup_trimmed(req.input, "project_path"@) is None,
        lookup_trimmed(req.input, "workspace_path"@) is None,
    ensures
        publish_appstore_outcome(req) is Err,
{
}

/// How a POSIX shell reads a word: inside single quotes every character
/// stands for itself up to the closing quote; outside them a quote opens
/// a quoted part and a backslash takes the next character literally.
pub open spec fn shell_read(s: Seq<char>, quoted: bool) -> Seq<char>
    decreases s.len(),
{
    if s.len() == 0 {
        Seq::empty()
    } else if quoted {
        if s[0] == '\'' {
            shell_read(s.drop_first(), false)
        } else {
            seq![s[0]] + shell_read(s.drop_first(), true)
        }
    } else if s[0] == '\'' {
        shell_read(s.drop_first(), true)
    } else if s[0] == '\\' && s.len() >= 2 {
        seq![s[1]] + shell_read(s.subrange(2, s.len() as int), false)
    } else {
        seq![s[0]] + shell_read(s.drop_first(), false)
    }
}

proof fn lemma_read_escaped(v: Seq<char>, w: Seq<char>)
    ensures
        shell_read(escape_quotes(v) + w, true) == v + shell_read(w, true),
    decreases v.len(),
{
    if v.len() == 0 {
        assert(escape_quotes(v) + w =~= w);
        assert(v + shell_read(w, true) =~= shell_read(w, true));
    } else {
        let c = v.last();
        let init = v.drop_last();
        let piece = if c == '\'' {
            seq!['\'', '\\', '\'', '\'']
        } else {
            seq![c]
        };
        assert(escape_quotes(v) + w =~= escape_quotes(init) + (piece + w));
        lemma_read_escaped(init, piece + w);
        if c == '\'' {
            let s0 = piece + w;
            assert(s0[0] == '\'');
            assert(s0.drop_first() =~= seq!['\\', '\'', '\''] + w);
            let s1 = seq!['\\', '\'', '\''] + w;
            assert(s1[0] == '\\' && s1[1] == '\'');
            assert(s1.subrange(2, s1.len() as int) =~= seq!['\''] + w);
            let s2 = seq!['\''] + w;
            assert(s2.drop_first() =~= w);
            assert(shell_read(s2, false) == shell_read(w, true));
            assert(shell_read(s1, false) == seq!['\''] + shell_read(w, true));
            assert(shell_read(s0, true) == seq!['\''] + shell_read(w, true));
        } else {
            let s0 = piece + w;
            assert(s0[0] == c);
            assert(s0.drop_first() =~= w);
        }
        assert(init + (seq![c] + shell_read(w, true)) =~= v + shell_read(w, true));
    }
}

/// A POSIX shell reads the word that `shell_escape` makes back as the
/// original text.
pub proof fn lemma_shell_quoting_round_trip(v: Seq<char>)
    ensures
        shell_read(shell_quoted(v), false) == v,
{
    let s = shell_quoted(v);
    assert(s[0] == '\'');
    assert(s.drop_first() =~= escape_quotes(v) + quote());
    assert(shell_read(s, false) == shell_read(s.drop_first(), true));
    lemma_read_escaped(v, quote());
    assert(quote().drop_first() =~= Seq::<char>::empty());
    assert(shell_read(quote(), true) == shell_read(Seq::<char>::empty(), false));
    assert(v + Seq::<char>::empty() =~= v);
}

/// Running a target needs a device: a run request without one, for a
/// project and target that exist and can run, is answered with
/// `DeviceRequired`.
pub proof fn lemma_run_requires_a_device(ps: Seq<ProjectView>, req: ExecutionRequestView)
    requires
        req.action == RuntimeAction::Run,
        req.device_id is None,
        first_project(ps, req.project_id) matches Some(p) && first_target(
            p.targets,
            req.target_id,
        ) is Some && p.run is Available,
    ensures
        execution_outcome(ps, req) == Err::<crate::runtime_catalog::ExecutionPlanView, _>(
            RuntimeErrorView::DeviceRequired,
        ),
{
}

/// Every execution plan runs either a login `zsh` script or `cargo`.
pub proof fn lemma_execution_plans_use_zsh_or_cargo(ps: Seq<ProjectView>, req: ExecutionRequestView)
    ensures
        execution_outcome(ps, req) matches Ok(p) ==> (p.command == "zsh"@ && p.args.len() == 2
            && p.args[0] == "-lc"@) || (p.command == "cargo"@ && p.args.len() == 5),
{
}


/// What the TestFlight release form produces, the TestFlight publishing
/// workflow accepts: when the form's texts are trimmed (as the form trims
/// them) and the chosen project path and scheme name are not blank, the
/// workflow inputs that `build_testflight_workflow_input` makes, sent for
/// an app to the TestFlight target, give a command plan.
pub proof fn lemma_release_form_inputs_are_accepted(
    v: AscTestFlightWorkflowValues,
    req: WorkflowRequestView,
)
    requires
        testflight_inputs(v) is Ok,
        req.input == testflight_inputs(v)->Ok_0,
        req.target_id == Some("testflight"@),
        req.resource matches Some(r) && r.kind == "app"@,
        trim(v.group@) == v.group@,
        trim(v.ipa_path@) == v.ipa_path@,
        trim(v.build_id@) == v.build_id@,
        trim(v.build_number@) == v.build_number@,
        v.project_path matches Some(p) ==> trim(p@) == p@ && p@.len() > 0,
        v.scheme matches Some(s) ==> trim(s.label@) == s.label@ && s.label@.len() > 0,
    ensures
        publish_testflight_outcome(req) is Ok,
{
    reveal_strlit("group");
    reveal_strlit("ipa_path");
    reveal_strlit("build_id");
    reveal_strlit("build_number");
    reveal_strlit("project_path");
    reveal_strlit("workspace_path");
    reveal_strlit("scheme");
    reveal_strlit("version");
    reveal_strlit("configuration");
    reveal_strlit("export_options");
    reveal_strlit("platform");
    reveal_strlit("clean");
    reveal_strlit("wait");
    reveal_strlit("notify");
    assert("group"@[0] != "clean"@[0]);
    assert("scheme"@[0] != "notify"@[0]);
    assert("ipa_path"@[0] != "build_id"@[0]);
    assert("ipa_path"@[0] != "platform"@[0]);
    assert("build_id"@[0] != "platform"@[0]);
    assert("build_number"@[0] != "project_path"@[0]);
    assert("workspace_path"@[0] != "export_options"@[0]);
    let m = req.input;
    assert(m.dom().contains("group"@) && m["group"@] == v.group@);
    assert(lookup_trimmed(m, "group"@) == Some(v.group@));
    match v.source_mode {
        AscTestFlightSourceMode::LocalProject => {
            let kind = v.project_kind->0;
            let path = v.project_path->0@;
            let label = v.scheme->0.label@;
            let base = Map::<Seq<char>, Seq<char>>::empty().insert("group"@, v.group@);
            assert(local_project_inputs(v, base) is Ok);
            let lm = local_project_inputs(v, base)->Ok_0;
            assert(m == with_flag(
                with_flag(lm, "wait"@, v.wait_for_processing),
                "notify"@,
                v.notify_testers,
            ));
            let path_key = if kind == ProjectKind::AppleWorkspace {
                "workspace_path"@
            } else {
                "project_path"@
            };
            let m1 = base.insert(path_key, path).insert("scheme"@, label);
            assert(m1.dom().contains(path_key) && m1[path_key] == path);
            let m2 = with_nonempty(m1, "version"@, v.version@);
            assert(m2.dom().contains(path_key) && m2[path_key] == path);
            let m3 = with_nonempty(m2, "configuration"@, v.configuration@);
            assert(m3.dom().contains(path_key) && m3[path_key] == path);
            let m4 = m3.insert("export_options"@, v.export_options@);
            assert(m4.dom().contains(path_key) && m4[path_key] == path);
            assert("platform"@.len() != path_key.len());
            let m5 = match v.scheme->0.platform {
                Some(p) => m4.insert("platform"@, p@),
                None => m4,
            };
            assert(m5.dom().contains(path_key) && m5[path_key] == path);
            assert(lm == with_flag(m5, "clean"@, v.clean_build));
            let other = if kind == ProjectKind::AppleWorkspace {
                "project_path"@
            } else {
                "workspace_path"@
            };
            assert("platform"@.len() != other.len());
            assert("export_options"@ != other) by {
                assert("export_options"@[0] != other[0]);
            }
            assert(!m5.dom().contains(other));
            assert(m.dom().contains("scheme"@) && m["scheme"@] == label);
            assert(lookup_trimmed(m, "scheme"@) == Some(label));
            if kind == ProjectKind::AppleWorkspace {
                assert(m.dom().contains("workspace_path"@) && m["workspace_path"@] == path);
                assert(!m.dom().contains("project_path"@));
                assert(lookup_trimmed(m, "workspace_path"@) == Some(path));
            } else {
                assert(m.dom().contains("project_path"@) && m["project_path"@] == path);
                assert(!m.dom().contains("workspace_path"@));
                assert(lookup_trimmed(m, "project_path"@) == Some(path));
            }
        },
        AscTestFlightSourceMode::IpaFile => {
            assert(m.dom().contains("ipa_path"@) && m["ipa_path"@] == v.ipa_path@);
            assert(lookup_trimmed(m, "ipa_path"@) == Some(v.ipa_path@));
            assert(!m.dom().contains("project_path"@));
            assert(!m.dom().contains("workspace_path"@));
        },
        AscTestFlightSourceMode::ExistingBuild => {
            assert(!m.dom().contains("project_path"@));
            assert(!m.dom().contains("workspace_path"@));
            let base = Map::<Seq<char>, Seq<char>>::empty().insert("group"@, v.group@);
            let e1 = with_nonempty(base, "build_id"@, v.build_id@);
            let e2 = with_nonempty(e1, "build_number"@, v.build_number@);
            assert(m == with_flag(
                with_flag(e2, "wait"@, v.wait_for_processing),
                "notify"@,
                v.notify_testers,
            ));
            assert("build_id"@.len() != "build_number"@.len());
            if v.build_id@.len() > 0 {
                assert(e2.dom().contains("build_id"@) && e2["build_id"@] == v.build_id@);
                assert(m.dom().contains("build_id"@) && m["build_id"@] == v.build_id@);
                assert(lookup_trimmed(m, "build_id"@) == Some(v.build_id@));
            } else {
                assert(m.dom().contains("build_number"@) && m["build_number"@]
                    == v.build_number@);
                assert(lookup_trimmed(m, "build_number"@) == Some(v.build_number@));
            }
        },
    }
}

/// Whether `id` occurs in `ids`, as `position_of` finds it.
pub proof fn lemma_position_of_finds_members(ids: Seq<Seq<char>>, id: Seq<char>)
    ensures
        position_of(ids, id, 0) is Some <==> ids.contains(id),
{
    lemma_position_of(ids, id, 0);
    if ids.contains(id) {
        let k = choose|k: int| 0 <= k < ids.len() && ids[k] == id;
        assert(ids[k] == id);
    }
}

/// Once a list has loaded, the choice made in it is one of its members
/// whenever it has any, none when it is empty, and a member that was
/// chosen stays chosen. This is what keeps the chosen app, target and
/// workflow valid when the apps reload or the navigation changes.
pub proof fn lemma_kept_choice_is_listed(ids: Seq<Seq<char>>, selected: Option<Seq<char>>)
    ensures
        kept_choice(ids, selected) matches Some(x) ==> ids.contains(x),
        kept_choice(ids, selected) is None <==> ids.len() == 0,
        selected matches Some(s) && ids.contains(s) ==> kept_choice(ids, selected) == selected,
{
    if let Some(s) = selected {
        lemma_position_of_finds_members(ids, s);
    }
    if ids.len() > 0 {
        assert(ids.contains(ids[0]));
    }
}

/// Asking for the next page of builds and taking in the reply appends the
/// page's builds after those shown, in order, and leaves the list ready
/// for the page after it: nothing shown is lost or reordered.
pub proof fn lemma_paging_appends_in_order(
    w0: AscWorkspace,
    state: ServicesPageState,
    w1: AscWorkspace,
    i: usize,
    url: String,
    page: crate::asc_presentation::AscBuildPage,
    w2: AscWorkspace,
)
    requires
        began_loading_more(w0, state, w1, Some((i, url))),
        took_in_more(w1, state, state.selected_resource_id->0@, url@, Ok(page), w2),
    ensures
        w0.builds_state matches LoadState::Ready(b0) && w2.builds_state matches LoadState::Ready(b2)
            ==> b2.builds@ == b0.builds@ + page.builds@ && !b2.is_loading_more
            && crate::service_types::opt_view(b2.next_page_url) == crate::service_types::opt_view(
            page.next_page_url,
        ) && b2.load_more_error is None,
        w2.apps_state == w0.apps_state,
        w2.descriptor == w0.descriptor,
{
}

/// A reply for a page of builds that is no longer wanted (another app was
/// chosen, or another page is next) leaves the workspace as it was.
pub proof fn lemma_stale_pages_are_ignored(
    w0: AscWorkspace,
    state: ServicesPageState,
    app_id: Seq<char>,
    url: Seq<char>,
    result: Result<crate::asc_presentation::AscBuildPage, String>,
    w1: AscWorkspace,
)
    requires
        took_in_more(w0, state, app_id, url, result, w1),
        crate::service_types::opt_view(state.selected_resource_id) != Some(app_id),
    ensures
        w1 == w0,
{
}

/// While a page of builds is loading, asking for more changes nothing:
/// at most one page is loaded at a time.
pub proof fn lemma_one_page_at_a_time(
    w0: AscWorkspace,
    state: ServicesPageState,
    w1: AscWorkspace,
    r: Option<(usize, String)>,
)
    requires
        w0.builds_state matches LoadState::Ready(b) && b.is_loading_more,
        began_loading_more(w0, state, w1, r),
    ensures
        r is None,
        w1 == w0,
{
}

/// The form of a finished workflow reports an error exactly when the run
/// is shown as failed.
pub proof fn lemma_form_error_iff_run_failed(
    workflow_id: Seq<char>,
    target_id: Option<Seq<char>>,
    label: Seq<char>,
    output: Seq<char>,
    error: Option<Seq<char>>,
)
    ensures
        form_error_of(workflow_id, error) is Some <==> finished_run_view(
            workflow_id,
            target_id,
            label,
            output,
            error,
        ).state == ServiceRunState::Failed,
        error is None ==> finished_run_view(workflow_id, target_id, label, output, error).state
            == ServiceRunState::Succeeded,
{
}

/// The single-instance check, run from its first step with what the first
/// probe, the claim of the port and the second probe give, ends as
/// `instance_outcome` says: this process is another instance exactly when a
/// probe got the handshake, and it serves the handshake itself exactly when
/// it claimed the port.
pub proof fn lemma_instance_check_outcome(first: bool, bound: bool, second: bool)
    ensures
        ({
            let s1 = next_instance_step(InstanceStage::FirstProbe, first);
            match s1 {
                InstanceStep::Done(r) => r == instance_outcome(first, bound, second),
                InstanceStep::Then(InstanceStage::Bind) => {
                    let s2 = next_instance_step(InstanceStage::Bind, bound);
                    match s2 {
                        InstanceStep::Listen => instance_outcome(first, bound, second)
                            == IsOnlyInstance::Yes,
                        InstanceStep::Then(InstanceStage::SecondProbe) => next_instance_step(
                            InstanceStage::SecondProbe,
                            second,
                        ) == InstanceStep::Done(instance_outcome(first, bound, second)),
                        _ => false,
                    }
                },
                _ => false,
            }
        }),
        instance_outcome(first, bound, second) == IsOnlyInstance::No <==> (first || (!bound
            && second)),
{
}

/// The request that creates an app, and the one that signs in on the web,
/// carry no empty input: empty fields of the form are left out.
pub proof fn lemma_create_app_sends_no_empty_input(v: AscCreateAppValues, two_factor: Seq<char>)
    ensures
        forall|k: Seq<char>|
            #[trigger] create_app_input(v, two_factor).contains_key(k) ==> create_app_input(
                v,
                two_factor,
            )[k].len() > 0,
{
}

/// Whenever the page asks for the two-factor code itself, it signs in on
/// the web before creating the app.
pub proof fn lemma_prompt_implies_web_login(
    v: AscCreateAppValues,
    web_auth: LoadState<crate::asc_workspace::AscWebAuthSummary>,
    command: Seq<char>,
)
    requires
        two_factor_prompt_needed(v, web_auth),
    ensures
        web_login_needed(v, Some(command)),
{
}

/// The order of apps (by name, then bundle id) and the order of projects
/// (by label) are strict: nothing comes before itself, and coming before is
/// transitive.
pub proof fn lemma_listing_orders_are_strict()
    ensures
        transitive(app_order()),
        irreflexive(app_order()),
        transitive(project_order()),
        irreflexive(project_order()),
{
    assert forall|a: crate::asc_workspace::AscAppSummary, b: crate::asc_workspace::AscAppSummary, c: crate::asc_workspace::AscAppSummary|
        #[trigger] app_order()(a, b) && #[trigger] app_order()(b, c) implies app_order()(a, c) by {
        if text_before(a.name@, b.name@) && text_before(b.name@, c.name@) {
            lemma_text_before_transitive(a.name@, b.name@, c.name@);
        }
        if a.name@ == b.name@ && b.name@ == c.name@ && text_before(a.bundle_id@, b.bundle_id@)
            && text_before(b.bundle_id@, c.bundle_id@) {
            lemma_text_before_transitive(a.bundle_id@, b.bundle_id@, c.bundle_id@);
        }
    }
    assert forall|a: crate::asc_workspace::AscAppSummary| !#[trigger] app_order()(a, a) by {
        lemma_text_before_irreflexive(a.name@);
        lemma_text_before_irreflexive(a.bundle_id@);
    }
    assert forall|a: crate::asc_presentation::AppleWorkspaceProjectSummary, b: crate::asc_presentation::AppleWorkspaceProjectSummary, c: crate::asc_presentation::AppleWorkspaceProjectSummary|
        #[trigger] project_order()(a, b) && #[trigger] project_order()(b, c) implies project_order()(a, c) by {
        lemma_text_before_transitive(a.label@, b.label@, c.label@);
    }
    assert forall|a: crate::asc_presentation::AppleWorkspaceProjectSummary| !#[trigger] project_order()(a, a) by {
        lemma_text_before_irreflexive(a.label@);
    }
}

/// The apps are listed in order of name, then bundle id, and the projects
/// in order of label; the listing holds every app (every project) as often
/// as the account (the workspace) does.
pub proof fn lemma_listings_are_sorted_permutations(
    apps: Seq<crate::asc_workspace::AscAppSummary>,
    projects: Seq<crate::asc_presentation::AppleWorkspaceProjectSummary>,
)
    ensures
        is_sorted_by(sorted_by(apps, app_order()), app_order()),
        sorted_by(apps, app_order()).to_multiset() == apps.to_multiset(),
        sorted_by(apps, app_order()).len() == apps.len(),
        is_sorted_by(sorted_by(projects, project_order()), project_order()),
        sorted_by(projects, project_order()).to_multiset() == projects.to_multiset(),
        sorted_by(projects, project_order()).len() == projects.len(),
{
    lemma_listing_orders_are_strict();
    lemma_sorted_by_is_sorted(apps, app_order());
    lemma_sorted_by_permutes(apps, app_order());
    lemma_sorted_by_len(apps, app_order());
    lemma_sorted_by_is_sorted(projects, project_order());
    lemma_sorted_by_permutes(projects, project_order());
    lemma_sorted_by_len(projects, project_order());
}

/// The toolbar's mode switcher selects the active mode at the position it
/// shows it, and each position that selects a mode is that mode's.
pub proof fn lemma_mode_switcher_round_trip(mode: crate::presentation::WorkspaceMode, index: int)
    ensures
        crate::presentation::mode_at(crate::presentation::position_of_mode(mode)) == Some(mode),
        crate::presentation::mode_at(index) matches Some(m) ==> crate::presentation::position_of_mode(m)
            == index,
{
}

/// Cataloguing the detections of two lists of workspace roots one after
/// the other gives the catalogue of the first followed by that of the
/// second, none dropped, reordered or merged; cataloguing nothing gives no
/// project.
pub proof fn lemma_discover_concatenates(
    a: Seq<Seq<crate::runtime_catalog::DetectedProject>>,
    b: Seq<Seq<crate::runtime_catalog::DetectedProject>>,
)
    ensures
        crate::runtime_catalog::flatten_projects(a + b) == crate::runtime_catalog::flatten_projects(a)
            + crate::runtime_catalog::flatten_projects(b),
        crate::runtime_catalog::flatten_projects(Seq::empty()) == Seq::<
            crate::runtime_catalog::DetectedProject,
        >::empty(),
    decreases b.len(),
{
    if b.len() > 0 {
        lemma_discover_concatenates(a, b.drop_last());
        assert((a + b).drop_last() =~= a + b.drop_last());
        assert((a + b).last() == b.last());
        assert(crate::runtime_catalog::flatten_projects(a + b) =~= crate::runtime_catalog::flatten_projects(a)
            + crate::runtime_catalog::flatten_projects(b));
    } else {
        assert(a + b =~= a);
    }
}

/// The same over the detections as `RuntimeCatalog::discover` takes them:
/// the views of the lists of two runs of detection, joined, flatten to the
/// joined flattenings.
pub proof fn lemma_discover_concatenates_detections(
    a: Seq<Vec<crate::runtime_catalog::DetectedProject>>,
    b: Seq<Vec<crate::runtime_catalog::DetectedProject>>,
)
    ensures
        crate::runtime_catalog::flatten_projects(
            (a + b).map_values(|g: Vec<crate::runtime_catalog::DetectedProject>| g@),
        ) == crate::runtime_catalog::flatten_projects(
            a.map_values(|g: Vec<crate::runtime_catalog::DetectedProject>| g@),
        ) + crate::runtime_catalog::flatten_projects(
            b.map_values(|g: Vec<crate::runtime_catalog::DetectedProject>| g@),
        ),
{
    let f = |g: Vec<crate::runtime_catalog::DetectedProject>| g@;
    assert((a + b).map_values(f) =~= a.map_values(f) + b.map_values(f));
    lemma_discover_concatenates(a.map_values(f), b.map_values(f));
}

/// Cataloguing two lists of workspace roots one after the other gives the
/// catalogue of the first followed by that of the second; no roots give no
/// project; and the projects of a single root are its Apple projects
/// followed by its GPUI ones, none dropped, reordered or merged.
pub proof fn lemma_discover_roots_concatenates(
    a: Seq<crate::runtime_catalog::RootDetections>,
    b: Seq<crate::runtime_catalog::RootDetections>,
    r: crate::runtime_catalog::RootDetections,
)
    ensures
        crate::runtime_catalog::roots_projects(a + b) == crate::runtime_catalog::roots_projects(a)
            + crate::runtime_catalog::roots_projects(b),
        crate::runtime_catalog::roots_projects(Seq::empty()) == Seq::<
            crate::runtime_catalog::DetectedProject,
        >::empty(),
        crate::runtime_catalog::roots_projects(seq![r]) == r.apple@ + r.gpui@,
{
    let f = |x: crate::runtime_catalog::RootDetections| crate::runtime_catalog::root_projects(x);
    assert((a + b).map_values(f) =~= a.map_values(f) + b.map_values(f));
    lemma_discover_concatenates(a.map_values(f), b.map_values(f));
    assert(Seq::<crate::runtime_catalog::RootDetections>::empty().map_values(f) =~= Seq::<
        Seq<crate::runtime_catalog::DetectedProject>,
    >::empty());
    let one = seq![r].map_values(f);
    assert(one.drop_last() =~= Seq::<Seq<crate::runtime_catalog::DetectedProject>>::empty());
    assert(crate::runtime_catalog::flatten_projects(one) =~= r.apple@ + r.gpui@);
}

/// The page stops asking for a created app, and stops trying to create its
/// internal group, once it succeeds or after the tenth attempt: no step
/// after a success or after the last attempt asks for another, and a
/// failed group creation ends with the last attempt's error.
pub proof fn lemma_creation_retries_are_bounded(
    attempt: u32,
    found: Option<crate::asc_workspace::AscAppSummary>,
    outcome: Result<(), String>,
)
    requires
        1 <= attempt <= crate::asc_flows::CREATION_ATTEMPTS,
    ensures
        crate::asc_flows::created_app_step_of(attempt, found) is WaitAndRetry ==> found is None
            && attempt < crate::asc_flows::CREATION_ATTEMPTS,
        crate::asc_flows::group_step_of(attempt, outcome) is WaitAndRetry ==> outcome is Err
            && attempt < crate::asc_flows::CREATION_ATTEMPTS,
        attempt == crate::asc_flows::CREATION_ATTEMPTS && outcome is Err ==> crate::asc_flows::group_step_of(
            attempt,
            outcome,
        ) == crate::asc_flows::RetryStep::WaitAndStop(
            crate::asc_flows::RETRY_DELAY_SECONDS,
            outcome,
        ),
{
}

/// Whether `flag` is directly followed by `value` somewhere in `args`.
pub open spec fn has_pair(args: Seq<Seq<char>>, flag: Seq<char>, value: Seq<char>) -> bool {
    exists|i: int| 0 <= i && i + 1 < args.len() && #[trigger] args[i] == flag && args[i + 1] == value
}

proof fn lemma_pair_after(q: Seq<Seq<char>>, flag: Seq<char>, value: Seq<char>, args: Seq<Seq<char>>)
    requires
        (q + seq![flag, value]).is_prefix_of(args),
    ensures
        has_pair(args, flag, value),
{
    let i = q.len() as int;
    assert((q + seq![flag, value])[i] == flag);
    assert((q + seq![flag, value])[i + 1] == value);
    assert(args[i] == flag && args[i + 1] == value);
}

proof fn lemma_find_from_some(s: Seq<char>, pat: Seq<char>, from: int, k: int)
    requires
        0 <= from <= k,
        k + pat.len() <= s.len(),
        s.subrange(k, k + pat.len()) == pat,
    ensures
        crate::text::find_from(s, pat, from) is Some,
    decreases k - from,
{
    if from < k && !(pat.len() == 0 || s.subrange(from, from + pat.len()) == pat) {
        lemma_find_from_some(s, pat, from + 1, k);
    }
}

proof fn lemma_contains_after(q: Seq<char>, pat: Seq<char>, s: Seq<char>)
    requires
        (q + pat).is_prefix_of(s),
    ensures
        crate::text::contains_text(s, pat),
{
    let k = q.len() as int;
    assert(s.subrange(k, k + pat.len()) =~= pat) by {
        assert forall|j: int| 0 <= j < pat.len() implies s.subrange(k, k + pat.len())[j] == pat[j] by {
            assert((q + pat)[k + j] == pat[j]);
        }
    }
    lemma_find_from_some(s, pat, 0, k);
}

/// Running a target of an Apple project on a simulator builds it for that
/// very simulator: the script's `xcodebuild` line asks for the destination
/// with the simulator's id, and selects the project's workspace or project
/// file as its kind says.
pub proof fn lemma_simulator_run_builds_for_that_simulator(
    ps: Seq<ProjectView>,
    req: ExecutionRequestView,
    p: ProjectView,
    d: crate::runtime_catalog::DeviceView,
)
    requires
        req.action == RuntimeAction::Run,
        first_project(ps, req.project_id) == Some(p),
        p.kind != ProjectKind::GpuiApplication,
        req.device_id matches Some(did) && crate::runtime_catalog::first_device(p.devices, did)
            == Some(d),
        d.kind == crate::runtime_catalog::RuntimeDeviceKind::Simulator,
        execution_outcome(ps, req) is Ok,
    ensures
        execution_outcome(ps, req)->Ok_0.args.len() == 2,
        crate::text::contains_text(
            execution_outcome(ps, req)->Ok_0.args[1],
            " -destination id="@ + shell_quoted(d.id),
        ),
        crate::text::contains_text(
            execution_outcome(ps, req)->Ok_0.args[1],
            crate::runtime_catalog::selector(p.kind, p.project_path) + " -scheme "@ + shell_quoted(
                first_target(p.targets, req.target_id)->0.label,
            ) + " -destination id="@ + shell_quoted(d.id),
        ),
        crate::text::contains_text(
            execution_outcome(ps, req)->Ok_0.args[1],
            if p.kind == ProjectKind::AppleWorkspace {
                "xcodebuild -workspace "@
            } else {
                "xcodebuild -project "@
            } + shell_quoted(p.project_path),
        ),
{
    let t = first_target(p.targets, req.target_id)->0;
    let script = execution_outcome(ps, req)->Ok_0.args[1];
    let dd = shell_quoted(crate::runtime_catalog::derived_data_path(p.workspace_root, t.label));
    let sel = crate::runtime_catalog::selector(p.kind, p.project_path);
    let tgt = shell_quoted(t.label);
    let sim = shell_quoted(d.id);
    assert(script == crate::runtime_catalog::simulator_script(dd, sel, tgt, sim));
    let head = "set -euo pipefail\nmkdir -p "@ + dd + "\nopen -a Simulator\nxcrun simctl boot "@ + sim
        + " >/dev/null 2>&1 || true\nxcrun simctl bootstatus "@ + sim + " -b\n"@;
    let q = head + sel + " -scheme "@ + tgt;
    let pat = " -destination id="@ + sim;
    assert((q + pat).is_prefix_of(script)) by {
        assert(script.subrange(0, (q + pat).len() as int) =~= q + pat);
    }
    lemma_contains_after(q, pat, script);
    let frag = sel + " -scheme "@ + tgt + " -destination id="@ + sim;
    assert(q + pat =~= head + frag);
    lemma_contains_after(head, frag, script);
    assert((head + sel).is_prefix_of(script)) by {
        assert(script.subrange(0, (head + sel).len() as int) =~= head + sel);
    }
    lemma_contains_after(head, sel, script);
}

/// Building a target of an Apple project runs `xcodebuild` on the
/// project's own file: `-workspace` for a workspace and `-project` for a
/// project, with the project's path as one shell word.
pub proof fn lemma_apple_build_selects_the_project_kind(
    ps: Seq<ProjectView>,
    req: ExecutionRequestView,
    p: ProjectView,
)
    requires
        req.action == RuntimeAction::Build,
        first_project(ps, req.project_id) == Some(p),
        p.kind != ProjectKind::GpuiApplication,
        execution_outcome(ps, req) is Ok,
    ensures
        execution_outcome(ps, req)->Ok_0.args.len() == 2,
        crate::text::contains_text(
            execution_outcome(ps, req)->Ok_0.args[1],
            if p.kind == ProjectKind::AppleWorkspace {
                "xcodebuild -workspace "@
            } else {
                "xcodebuild -project "@
            } + shell_quoted(p.project_path),
        ),
{
    let t = first_target(p.targets, req.target_id)->0;
    let script = execution_outcome(ps, req)->Ok_0.args[1];
    let head = "set -euo pipefail\n"@;
    let sel = crate::runtime_catalog::selector(p.kind, p.project_path);
    assert((head + sel).is_prefix_of(script)) by {
        assert(script.subrange(0, (head + sel).len() as int) =~= head + sel);
    }
    lemma_contains_after(head, sel, script);
}

proof fn lemma_prefixes_extend<T>()
    ensures
        forall|a: Seq<T>, b: Seq<T>| #[trigger] a.is_prefix_of(a + b),
        forall|x: Seq<T>, y: Seq<T>, z: Seq<T>|
            x.is_prefix_of(y) ==> #[trigger] x.is_prefix_of(y + z),
{
    assert forall|a: Seq<T>, b: Seq<T>| #[trigger] a.is_prefix_of(a + b) by {
        assert((a + b).subrange(0, a.len() as int) =~= a);
    }
    assert forall|x: Seq<T>, y: Seq<T>, z: Seq<T>|
        x.is_prefix_of(y) implies #[trigger] x.is_prefix_of(y + z) by {
        assert((y + z).subrange(0, x.len() as int) =~= y.subrange(0, x.len() as int));
    }
}

/// The arguments of an accepted TestFlight publication, as flags with
/// their values.
proof fn testflight_args(req: WorkflowRequestView) -> (args: Seq<Seq<char>>)
    requires
        req.workflow == "publish_testflight"@,
        workflow_outcome(req) is Ok,
    ensures
        args == workflow_outcome(req)->Ok_0.args,
        args == crate::asc_commands::publish_testflight_outcome(req)->Ok_0.args,
{
    workflow_outcome(req)->Ok_0.args
}

/// A TestFlight publication passes each source it is given to `asc` under
/// its own flag: the trimmed build number after `--build-number`, the
/// trimmed build id after `--build`, and the trimmed IPA path after
/// `--ipa`.
#[verifier::rlimit(40)]
pub proof fn lemma_testflight_passes_each_source(req: WorkflowRequestView)
    requires
        req.workflow == "publish_testflight"@,
        workflow_outcome(req) is Ok,
    ensures
        lookup_trimmed(req.input, "build_number"@) matches Some(b) ==> has_pair(
            workflow_outcome(req)->Ok_0.args,
            "--build-number"@,
            b,
        ),
        lookup_trimmed(req.input, "build_id"@) matches Some(b) ==> has_pair(
            workflow_outcome(req)->Ok_0.args,
            "--build"@,
            b,
        ),
        lookup_trimmed(req.input, "ipa_path"@) matches Some(ipa) ==> has_pair(
            workflow_outcome(req)->Ok_0.args,
            "--ipa"@,
            ipa,
        ),
{
    let m = req.input;
    let args = testflight_args(req);
    lemma_prefixes_extend::<Seq<char>>();
    let app = req.resource->0;
    let group = lookup_trimmed(m, "group"@)->0;
    let base = seq!["publish"@, "testflight"@, "--app"@, app.external_id, "--group"@, group]
        + crate::asc_commands::json_output();
    let ipa = lookup_trimmed(m, "ipa_path"@);
    let build_id = lookup_trimmed(m, "build_id"@);
    let q1 = base + crate::plan_args::flag_value("--ipa"@, ipa);
    let q2 = q1 + crate::plan_args::flag_value("--build"@, build_id);
    let q3 = q2 + crate::plan_args::flag_value(
        "--build-number"@,
        lookup_trimmed(m, "build_number"@),
    );
    assert(q3.is_prefix_of(args));
    if let Some(b) = lookup_trimmed(m, "build_number"@) {
        lemma_pair_after(q2, "--build-number"@, b, args);
    }
    if let Some(b) = build_id {
        assert(q2.is_prefix_of(args));
        lemma_pair_after(q1, "--build"@, b, args);
    }
    if let Some(i) = ipa {
        assert(q1.is_prefix_of(args));
        lemma_pair_after(base, "--ipa"@, i, args);
    }
}

/// An App Store publication passes the IPA it is given to `asc`: the
/// trimmed IPA path follows `--ipa`.
pub proof fn lemma_appstore_passes_the_ipa(req: WorkflowRequestView)
    requires
        req.workflow == "publish_appstore"@,
        workflow_outcome(req) is Ok,
    ensures
        lookup_trimmed(req.input, "ipa_path"@) matches Some(ipa) ==> has_pair(
            workflow_outcome(req)->Ok_0.args,
            "--ipa"@,
            ipa,
        ),
{
    let m = req.input;
    let args = workflow_outcome(req)->Ok_0.args;
    reveal_strlit("publish_appstore");
    reveal_strlit("publish_testflight");
    assert(req.workflow.len() != "publish_testflight"@.len());
    assert(args == crate::asc_commands::publish_appstore_outcome(req)->Ok_0.args);
    lemma_prefixes_extend::<Seq<char>>();
    let app = req.resource->0;
    let base = seq!["publish"@, "appstore"@, "--app"@, app.external_id]
        + crate::asc_commands::json_output();
    let q1 = base + crate::plan_args::flag_value("--ipa"@, lookup_trimmed(m, "ipa_path"@));
    assert(q1.is_prefix_of(args));
    if let Some(i) = lookup_trimmed(m, "ipa_path"@) {
        lemma_pair_after(base, "--ipa"@, i, args);
    }
}

/// Creating an app passes each of its required fields to `asc` under its
/// own flag: the trimmed name after `--name`, the trimmed bundle id after
/// `--bundle-id` and the trimmed SKU after `--sku`.
pub proof fn lemma_create_app_passes_each_field(req: OperationRequestView)
    requires
        req.operation == "create_app"@,
        operation_outcome(req) is Ok,
    ensures
        lookup_trimmed(req.input, "name"@) matches Some(v) && has_pair(
            operation_outcome(req)->Ok_0.args,
            "--name"@,
            v,
        ),
        lookup_trimmed(req.input, "bundle_id"@) matches Some(v) && has_pair(
            operation_outcome(req)->Ok_0.args,
            "--bundle-id"@,
            v,
        ),
        lookup_trimmed(req.input, "sku"@) matches Some(v) && has_pair(
            operation_outcome(req)->Ok_0.args,
            "--sku"@,
            v,
        ),
{
    let m = req.input;
    let args = operation_outcome(req)->Ok_0.args;
    reveal_strlit("create_app");
    reveal_strlit("auth_status");
    reveal_strlit("web_auth_status");
    reveal_strlit("web_auth_login");
    reveal_strlit("list_apps");
    assert(req.operation[0] != "auth_status"@[0]);
    assert(req.operation[0] != "web_auth_status"@[0]);
    assert(req.operation[0] != "web_auth_login"@[0]);
    assert(req.operation[0] != "list_apps"@[0]);
    assert(args == crate::asc_commands::create_app_outcome(m)->Ok_0.args);
    lemma_prefixes_extend::<Seq<char>>();
    let name = lookup_trimmed(m, "name"@)->0;
    let bundle = lookup_trimmed(m, "bundle_id"@)->0;
    let sku = lookup_trimmed(m, "sku"@)->0;
    let head = seq![
        "web"@,
        "apps"@,
        "create"@,
        "--name"@,
        name,
        "--bundle-id"@,
        bundle,
        "--sku"@,
        sku,
    ];
    assert(head.is_prefix_of(args));
    let q0 = seq!["web"@, "apps"@, "create"@];
    let q1 = q0 + seq!["--name"@, name];
    let q2 = q1 + seq!["--bundle-id"@, bundle];
    assert((q0 + seq!["--name"@, name]).is_prefix_of(head));
    assert((q1 + seq!["--bundle-id"@, bundle]).is_prefix_of(head)) by {
        assert(head.subrange(0, 7) =~= q1 + seq!["--bundle-id"@, bundle]);
    }
    assert(q2 + seq!["--sku"@, sku] =~= head);
    assert forall|x: Seq<Seq<char>>| x.is_prefix_of(head) implies #[trigger] x.is_prefix_of(args) by {
        assert(args.subrange(0, head.len() as int) =~= head);
        assert(args.subrange(0, x.len() as int) =~= head.subrange(0, x.len() as int));
    }
    assert((q0 + seq!["--name"@, name]).is_prefix_of(args));
    lemma_pair_after(q0, "--name"@, name, args);
    assert((q1 + seq!["--bundle-id"@, bundle]).is_prefix_of(args));
    lemma_pair_after(q1, "--bundle-id"@, bundle, args);
    assert((q2 + seq!["--sku"@, sku]).is_prefix_of(args));
    lemma_pair_after(q2, "--sku"@, sku, args);
}

} // verus!
