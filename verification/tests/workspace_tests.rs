use service_hub::asc_descriptor::asc_descriptor;
use service_hub::asc_presentation::{AscBuildPage, AscBuildSummary, AscCliSummary};
use service_hub::asc_workspace::{
    available_targets, available_workflows, cli_state_after_path_probe,
    cli_state_after_version_probe, find_app, finished_run, homebrew_install_failure_message,
    homebrew_missing_message, install_outcome, kept_app_selection, normalize_state,
    normalize_workflow_state, running_run, selected_workflow_descriptor, workflow_request,
    AscAppSummary, AscBuildListState, AscCliState, AscSection, AscWebAuthSummary, AscWorkspace,
    CommandOutcome, LoadState, ServicesPageState, WorkflowFormOutcome,
};
use service_hub::asc_views::AscAuthSummary;
use service_hub::{ServiceRunState, StringMap};

fn app(id: &str, name: &str, bundle_id: &str) -> AscAppSummary {
    AscAppSummary {
        id: id.to_string(),
        name: name.to_string(),
        bundle_id: bundle_id.to_string(),
        sku: format!("sku-{id}"),
        primary_locale: None,
    }
}

fn build(id: &str) -> AscBuildSummary {
    AscBuildSummary {
        id: id.to_string(),
        build_number: "1".to_string(),
        marketing_version: None,
        platform: None,
        processing_state: "VALID".to_string(),
        uploaded_date: "2026-01-01T00:00:00Z".to_string(),
        expiration_date: None,
        testflight_internal_state: None,
        testflight_external_state: None,
        app_store_version_id: None,
        app_store_state: None,
    }
}

fn profile() -> AscAuthSummary {
    AscAuthSummary {
        healthy: true,
        authenticated: true,
        headline: "Signed in".to_string(),
        detail: "Profile ok".to_string(),
        warnings: Vec::new(),
    }
}

fn page(nav: &str) -> ServicesPageState {
    ServicesPageState {
        navigation_id: nav.to_string(),
        selected_resource_id: None,
        selected_target_id: None,
        selected_workflow_id: None,
    }
}

fn ready_workspace(apps: Vec<AscAppSummary>) -> AscWorkspace {
    let mut w = AscWorkspace::new(asc_descriptor());
    w.cli_state = AscCliState::Ready(AscCliSummary {
        path: "/opt/homebrew/bin/asc".to_string(),
        version: "1.0.0".to_string(),
    });
    w.apps_state = LoadState::Ready(apps);
    w
}

fn shown_builds(w: &AscWorkspace) -> Vec<String> {
    match &w.builds_state {
        LoadState::Ready(list) => list.builds.iter().map(|b| b.id.clone()).collect(),
        _ => panic!("builds are not shown"),
    }
}

#[test]
fn finds_the_first_app_with_an_id() {
    let apps = vec![app("a", "Alpha", "com.a"), app("b", "Beta", "com.b"), app("b", "Again", "com.c")];
    assert_eq!(find_app(&apps, "b"), Some(1));
    assert_eq!(find_app(&apps, "z"), None);
}

#[test]
fn keeps_a_listed_app_chosen_and_falls_back_to_the_first() {
    let apps = vec![app("a", "Alpha", "com.a"), app("b", "Beta", "com.b")];
    assert_eq!(kept_app_selection(&apps, Some("b")), Some("b".to_string()));
    assert_eq!(kept_app_selection(&apps, Some("gone")), Some("a".to_string()));
    assert_eq!(kept_app_selection(&apps, None), Some("a".to_string()));
    assert_eq!(kept_app_selection(&Vec::new(), Some("b")), None);
}

#[test]
fn offers_release_targets_and_workflows_only_under_release() {
    let d = asc_descriptor();
    let targets = available_targets(&d, "release");
    let ids: Vec<&str> = targets.iter().map(|t| t.id.as_str()).collect();
    assert_eq!(ids, vec!["testflight", "app_store"]);
    assert!(available_targets(&d, "overview").is_empty());

    let workflows = available_workflows(&d, "release", Some("testflight"));
    let ids: Vec<&str> = workflows.iter().map(|w| w.id.as_str()).collect();
    assert_eq!(ids, vec!["publish_testflight"]);
    assert_eq!(workflows[0].label, "Publish to TestFlight");
    assert!(available_workflows(&d, "builds", Some("testflight")).is_empty());
}

#[test]
fn settles_target_and_workflow_under_release() {
    let d = asc_descriptor();
    let mut state = page("release");
    state.selected_target_id = Some("unknown".to_string());
    normalize_workflow_state(&d, &mut state);
    assert_eq!(state.selected_target_id.as_deref(), Some("testflight"));
    assert_eq!(state.selected_workflow_id.as_deref(), Some("publish_testflight"));

    let mut state = page("release");
    state.selected_target_id = Some("app_store".to_string());
    state.selected_workflow_id = Some("publish_testflight".to_string());
    normalize_workflow_state(&d, &mut state);
    assert_eq!(state.selected_target_id.as_deref(), Some("app_store"));
    assert_eq!(state.selected_workflow_id.as_deref(), Some("publish_appstore"));

    let mut state = page("overview");
    state.selected_target_id = Some("testflight".to_string());
    state.selected_workflow_id = Some("publish_testflight".to_string());
    normalize_workflow_state(&d, &mut state);
    assert_eq!(state.selected_target_id, None);
    assert_eq!(state.selected_workflow_id, None);
}

#[test]
fn normalizes_unknown_navigation_and_vanished_apps() {
    let d = asc_descriptor();
    let apps = LoadState::Ready(vec![app("a", "Alpha", "com.a")]);
    let mut state = page("nowhere");
    state.selected_resource_id = Some("gone".to_string());
    normalize_state(&d, &apps, &mut state);
    assert_eq!(state.navigation_id, "overview");
    assert_eq!(state.selected_resource_id.as_deref(), Some("a"));

    let mut state = page("builds");
    state.selected_resource_id = Some("gone".to_string());
    normalize_state(&d, &LoadState::Loading, &mut state);
    assert_eq!(state.navigation_id, "builds");
    assert_eq!(state.selected_resource_id.as_deref(), Some("gone"));
}

#[test]
fn finds_the_chosen_workflow_among_the_release_workflows() {
    let d = asc_descriptor();
    let mut state = page("release");
    state.selected_workflow_id = Some("publish_appstore".to_string());
    let i = selected_workflow_descriptor(&d, &state).expect("workflow");
    assert_eq!(d.workflows[i].id, "publish_appstore");
    let mut state = page("overview");
    state.selected_workflow_id = Some("publish_appstore".to_string());
    assert_eq!(selected_workflow_descriptor(&d, &state), None);
}

#[test]
fn starts_with_everything_loading() {
    let w = AscWorkspace::new(asc_descriptor());
    assert_eq!(w.cli_state, AscCliState::Checking);
    assert!(matches!(w.apps_state, LoadState::Loading));
    assert!(matches!(&w.builds_state, LoadState::Ready(list) if list.builds.is_empty()));
    assert!(!w.cli_ready());
}

#[test]
fn loads_builds_of_a_listed_app_only() {
    let mut w = ready_workspace(vec![app("a", "Alpha", "com.a"), app("b", "Beta", "com.b")]);
    let mut state = page("builds");
    assert_eq!(w.begin_load_builds(&mut state, "b"), Some(1));
    assert_eq!(state.selected_resource_id.as_deref(), Some("b"));
    assert!(matches!(w.builds_state, LoadState::Loading));

    let mut other = page("builds");
    assert_eq!(w.begin_load_builds(&mut other, "zzz"), None);
    assert_eq!(other.selected_resource_id, None);
    assert!(matches!(&w.builds_state, LoadState::Ready(list) if list.builds.is_empty()));
}

#[test]
fn pages_of_builds_append_in_order_and_stale_replies_are_ignored() {
    let mut w = ready_workspace(vec![app("a", "Alpha", "com.a")]);
    let mut state = page("builds");
    w.begin_load_builds(&mut state, "a");
    w.finish_load_builds(
        &state,
        "a",
        Ok(AscBuildPage { builds: vec![build("1"), build("2")], next_page_url: Some("p2".to_string()) }),
    );
    assert_eq!(shown_builds(&w), vec!["1", "2"]);

    let (index, url) = w.begin_load_more(&state).expect("more");
    assert_eq!(index, 0);
    assert_eq!(url, "p2");
    assert!(w.begin_load_more(&state).is_none());

    w.finish_load_more(&state, "other", "p2", Ok(AscBuildPage { builds: vec![build("x")], next_page_url: None }));
    w.finish_load_more(&state, "a", "p9", Ok(AscBuildPage { builds: vec![build("y")], next_page_url: None }));
    assert_eq!(shown_builds(&w), vec!["1", "2"]);

    w.finish_load_more(&state, "a", "p2", Ok(AscBuildPage { builds: vec![build("3")], next_page_url: None }));
    assert_eq!(shown_builds(&w), vec!["1", "2", "3"]);
    match &w.builds_state {
        LoadState::Ready(list) => {
            assert!(!list.is_loading_more);
            assert_eq!(list.next_page_url, None);
        }
        _ => panic!("builds are not shown"),
    }
    assert!(w.begin_load_more(&state).is_none());
}

#[test]
fn a_failed_page_keeps_the_builds_and_shows_the_error() {
    let mut w = ready_workspace(vec![app("a", "Alpha", "com.a")]);
    let mut state = page("builds");
    w.begin_load_builds(&mut state, "a");
    w.finish_load_builds(&state, "a", Ok(AscBuildPage { builds: vec![build("1")], next_page_url: Some("p2".to_string()) }));
    w.begin_load_more(&state);
    w.finish_load_more(&state, "a", "p2", Err("network down".to_string()));
    match &w.builds_state {
        LoadState::Ready(list) => {
            assert_eq!(list.builds.len(), 1);
            assert_eq!(list.next_page_url.as_deref(), Some("p2"));
            assert_eq!(list.load_more_error.as_deref(), Some("network down"));
            assert!(!list.is_loading_more);
        }
        _ => panic!("builds are not shown"),
    }
}

#[test]
fn first_page_for_an_app_no_longer_chosen_changes_nothing() {
    let mut w = ready_workspace(vec![app("a", "Alpha", "com.a"), app("b", "Beta", "com.b")]);
    let mut state = page("builds");
    w.begin_load_builds(&mut state, "a");
    w.begin_load_builds(&mut state, "b");
    w.finish_load_builds(&state, "a", Ok(AscBuildPage { builds: vec![build("1")], next_page_url: None }));
    assert!(matches!(w.builds_state, LoadState::Loading));
    w.finish_load_builds(&state, "b", Err("boom".to_string()));
    assert!(matches!(&w.builds_state, LoadState::Error(e) if e == "boom"));
}

#[test]
fn selecting_a_resource_needs_the_tool_and_a_new_app() {
    let mut w = ready_workspace(vec![app("a", "Alpha", "com.a"), app("b", "Beta", "com.b")]);
    let mut state = page("builds");
    state.selected_resource_id = Some("a".to_string());
    assert_eq!(w.select_resource(&mut state, "a".to_string()), None);
    w.latest_run = Some(running_run(&w.descriptor.workflows[0], None, "Alpha"));
    assert_eq!(w.select_resource(&mut state, "b".to_string()), Some(1));
    assert_eq!(state.selected_resource_id.as_deref(), Some("b"));
    assert!(matches!(w.builds_state, LoadState::Loading));
    assert!(w.latest_run.is_none());
    assert_eq!(w.select_resource(&mut state, "zzz".to_string()), None);
    assert!(matches!(&w.builds_state, LoadState::Ready(list) if list.builds.is_empty()));
    assert_eq!(state.selected_resource_id.as_deref(), Some("b"));
    assert_eq!(w.refresh_builds(&mut state), Some(1));
    assert!(matches!(w.builds_state, LoadState::Loading));
    let mut none = page("builds");
    assert_eq!(w.refresh_builds(&mut none), None);
    w.cli_state = AscCliState::Checking;
    assert_eq!(w.select_resource(&mut state, "a".to_string()), None);
    assert_eq!(state.selected_resource_id.as_deref(), Some("b"));
}

#[test]
fn refresh_without_the_tool_lists_nothing() {
    let mut w = ready_workspace(vec![app("a", "Alpha", "com.a")]);
    let mut state = page("overview");
    state.selected_resource_id = Some("a".to_string());
    w.begin_refresh();
    assert_eq!(w.cli_state, AscCliState::Checking);
    let next = w.finish_refresh(&mut state, AscCliState::Missing("missing".to_string()), None, None, Ok(Vec::new()), None);
    assert_eq!(next, None);
    assert_eq!(state.selected_resource_id, None);
    assert!(matches!(&w.web_auth_state, LoadState::Error(e) if e == "This provider requires a local ASC CLI installation."));
    assert!(matches!(&w.auth_state, LoadState::Error(e) if e == "This provider requires a local ASC CLI installation."));
    assert!(matches!(&w.apps_state, LoadState::Ready(apps) if apps.is_empty()));
}

#[test]
fn refresh_with_the_tool_keeps_the_chosen_app_while_listed() {
    let mut w = ready_workspace(Vec::new());
    let mut state = page("overview");
    state.selected_resource_id = Some("b".to_string());
    let ready = AscCliState::Ready(AscCliSummary { path: "asc".to_string(), version: "1".to_string() });
    let next = w.finish_refresh(
        &mut state,
        ready.clone(),
        Some(Ok(profile())),
        Some(Ok(AscWebAuthSummary { authenticated: true })),
        Ok(Vec::new()),
        Some(Ok(vec![app("a", "Alpha", "com.a"), app("b", "Beta", "com.b")])),
    );
    assert_eq!(next.as_deref(), Some("b"));
    assert!(matches!(w.builds_state, LoadState::Loading));

    let next = w.finish_refresh(
        &mut state,
        ready.clone(),
        Some(Ok(profile())),
        Some(Ok(AscWebAuthSummary { authenticated: false })),
        Ok(Vec::new()),
        Some(Ok(vec![app("c", "Gamma", "com.c")])),
    );
    assert_eq!(next.as_deref(), Some("c"));
    assert_eq!(state.selected_resource_id.as_deref(), Some("c"));

    let next = w.finish_refresh(
        &mut state,
        ready,
        Some(Err("no profile".to_string())),
        Some(Err("no web session".to_string())),
        Err("no projects".to_string()),
        Some(Err("listing failed".to_string())),
    );
    assert_eq!(next, None);
    assert_eq!(state.selected_resource_id, None);
    assert!(matches!(&w.apps_state, LoadState::Error(e) if e == "listing failed"));
    assert!(matches!(&w.workspace_projects_state, LoadState::Error(e) if e == "no projects"));
    assert!(matches!(&w.auth_state, LoadState::Error(e) if e == "no profile"));
}

#[test]
fn choosing_another_target_forgets_the_latest_run() {
    let mut w = ready_workspace(vec![app("a", "Alpha", "com.a")]);
    let mut state = page("release");
    normalize_workflow_state(&w.descriptor, &mut state);
    w.latest_run = Some(running_run(&w.descriptor.workflows[0], None, "Alpha"));
    w.select_target(&mut state, "testflight".to_string());
    assert!(w.latest_run.is_some());
    w.select_target(&mut state, "app_store".to_string());
    assert!(w.latest_run.is_none());
    assert_eq!(state.selected_workflow_id.as_deref(), Some("publish_appstore"));

    w.latest_run = Some(running_run(&w.descriptor.workflows[0], None, "Alpha"));
    w.select_workflow(&mut state, "publish_appstore".to_string());
    assert!(w.latest_run.is_some());
    w.select_workflow(&mut state, "publish_testflight".to_string());
    assert!(w.latest_run.is_none());
    assert_eq!(state.selected_workflow_id.as_deref(), Some("publish_testflight"));
}

#[test]
fn builds_workflow_requests_for_the_chosen_app() {
    let mut input = StringMap::new();
    input.insert("group".to_string(), "Internal".to_string());
    let request = workflow_request(&app("app-1", "Alpha", "com.a"), "publish_testflight".to_string(), Some("testflight".to_string()), input);
    assert_eq!(request.provider_id, "app-store-connect");
    assert_eq!(request.workflow, "publish_testflight");
    assert_eq!(request.target_id.as_deref(), Some("testflight"));
    let resource = request.resource.expect("resource");
    assert_eq!(resource.kind, "app");
    assert_eq!(resource.external_id, "app-1");
    assert_eq!(resource.label, "Alpha");
    assert_eq!(request.input.get("group").map(|v| v.as_str()), Some("Internal"));
}

#[test]
fn describes_runs_as_they_start_and_finish() {
    let d = asc_descriptor();
    let testflight = d.workflows.iter().find(|w| w.id == "publish_testflight").unwrap();
    let appstore = d.workflows.iter().find(|w| w.id == "publish_appstore").unwrap();
    let run = running_run(testflight, Some("testflight".to_string()), "Alpha");
    assert_eq!(run.state, ServiceRunState::Running);
    assert_eq!(run.headline, "Publish to TestFlight");
    assert_eq!(run.detail, "Building, exporting, uploading, and preparing TestFlight distribution for Alpha.");
    let run = running_run(appstore, None, "Alpha");
    assert_eq!(run.detail, "Running Publish to App Store for Alpha.");

    let (run, form) = finished_run("publish_appstore", None, "Publish to App Store", "step one\nall done\n", None);
    assert_eq!(run.state, ServiceRunState::Succeeded);
    assert_eq!(run.headline, "Publish to App Store finished");
    assert_eq!(run.detail, "all done");
    assert_eq!(form, WorkflowFormOutcome::Succeeded);

    let (run, form) = finished_run("publish_appstore", None, "Publish to App Store", "", Some("warning\nError: upload rejected\n"));
    assert_eq!(run.state, ServiceRunState::Failed);
    assert_eq!(run.headline, "Publish to App Store failed");
    assert_eq!(form, WorkflowFormOutcome::Failed(run.detail.clone()));
}

#[test]
fn a_pending_testflight_distribution_is_a_warning() {
    let error = "Error: failed to add groups: build is not assignable yet";
    let (run, form) = finished_run("publish_testflight", Some("testflight".to_string()), "Publish to TestFlight", "", Some(error));
    assert_eq!(run.state, ServiceRunState::Warning);
    assert_eq!(run.headline, "Publish to TestFlight uploaded");
    assert!(run.detail.starts_with("Build uploaded to App Store Connect"));
    assert_eq!(form, WorkflowFormOutcome::Succeeded);
    let (run, form) = finished_run("publish_appstore", None, "Publish to App Store", "", Some(error));
    assert_eq!(run.state, ServiceRunState::Failed);
    assert!(matches!(form, WorkflowFormOutcome::Failed(_)));
}

#[test]
fn the_workflow_panel_needs_the_tool_and_a_release_workflow() {
    let mut w = ready_workspace(vec![app("a", "Alpha", "com.a")]);
    let mut state = page("release");
    normalize_workflow_state(&w.descriptor, &mut state);
    let panel = w.workflow_panel(&state).expect("panel");
    assert_eq!(panel.target_label, "Target");
    assert_eq!(panel.workflow_label, "Workflow");
    assert_eq!(panel.execute_label, "Publish to TestFlight");
    assert_eq!(panel.disabled_reason.as_deref(), Some("Select an app first."));
    assert_eq!(panel.targets.len(), 2);

    state.selected_resource_id = Some("a".to_string());
    w.latest_run = Some(running_run(&w.descriptor.workflows.iter().find(|x| x.id == "publish_testflight").unwrap().clone(), Some("testflight".to_string()), "Alpha"));
    let panel = w.workflow_panel(&state).expect("panel");
    assert_eq!(panel.disabled_reason, None);
    assert!(panel.run.is_some());

    assert!(w.workflow_panel(&page("overview")).is_none());
    w.cli_state = AscCliState::Installing;
    assert!(w.workflow_panel(&state).is_none());
}

#[test]
fn the_menu_of_apps_reads_the_chosen_app() {
    let mut w = ready_workspace(vec![app("a", "Alpha", "com.a"), app("b", "Beta", "com.b")]);
    let mut state = page("overview");
    state.selected_resource_id = Some("b".to_string());
    let menu = w.resource_menu(&state).expect("menu");
    assert_eq!(menu.singular_label, "App");
    assert_eq!(menu.current_label, "Beta");
    assert_eq!(menu.entries.len(), 2);
    assert_eq!(menu.entries[0].detail.as_deref(), Some("com.a"));
    assert!(!menu.disabled);

    w.apps_state = LoadState::Loading;
    let menu = w.resource_menu(&state).expect("menu");
    assert_eq!(menu.current_label, "Loading Apps\u{2026}");
    assert!(menu.disabled);
    w.apps_state = LoadState::Ready(Vec::new());
    assert_eq!(w.resource_menu(&state).unwrap().current_label, "No Apps");
    w.apps_state = LoadState::Error("x".to_string());
    assert_eq!(w.resource_menu(&state).unwrap().current_label, "Select App");
    w.cli_state = AscCliState::Checking;
    assert!(w.resource_menu(&state).is_none());
}

#[test]
fn shows_the_section_of_the_navigation_item() {
    let mut w = ready_workspace(Vec::new());
    assert_eq!(w.section(&page("builds")), AscSection::Builds);
    assert_eq!(w.section(&page("release")), AscSection::Release);
    assert_eq!(w.section(&page("anything")), AscSection::Overview);
    let mut state = page("release");
    state.selected_workflow_id = Some("publish_testflight".to_string());
    assert!(AscWorkspace::shows_testflight_form(&state));
    assert!(!AscWorkspace::shows_testflight_form(&page("release")));
    w.cli_state = AscCliState::Missing("m".to_string());
    assert_eq!(w.section(&page("builds")), AscSection::CliRequirement);
}

#[test]
fn installs_the_tool_once_at_a_time() {
    let mut w = ready_workspace(Vec::new());
    assert!(w.begin_install_cli());
    assert_eq!(w.cli_state, AscCliState::Installing);
    assert!(!w.begin_install_cli());
    assert!(!w.finish_install_cli(Err("brew failed".to_string())));
    assert_eq!(w.cli_state, AscCliState::InstallFailed("brew failed".to_string()));
    assert!(w.finish_install_cli(Ok(())));
}

#[test]
fn ends_an_installation_by_what_the_probe_found() {
    let ready = AscCliState::Ready(AscCliSummary { path: "asc".to_string(), version: "1".to_string() });
    assert_eq!(install_outcome(ready), Ok(()));
    assert_eq!(install_outcome(AscCliState::Missing("gone".to_string())), Err("gone".to_string()));
    assert_eq!(install_outcome(AscCliState::InstallFailed("bad".to_string())), Err("bad".to_string()));
    assert_eq!(install_outcome(AscCliState::Installing), Err("ASC CLI installation did not finish cleanly.".to_string()));
    assert!(homebrew_missing_message().contains("requires Homebrew"));
    assert_eq!(homebrew_install_failure_message(b"", b" no formula \n"), "Homebrew failed to install ASC CLI: no formula");
}

#[test]
fn probes_the_tool_step_by_step() {
    assert_eq!(
        cli_state_after_path_probe(&CommandOutcome::NotStarted("no zsh".to_string())),
        Some(AscCliState::Missing("This provider requires a local ASC CLI installation. no zsh".to_string()))
    );
    assert_eq!(
        cli_state_after_path_probe(&CommandOutcome::Finished { success: false, stdout: Vec::new(), stderr: Vec::new() }),
        Some(AscCliState::Missing("This provider requires a local ASC CLI installation.".to_string()))
    );
    assert_eq!(
        cli_state_after_path_probe(&CommandOutcome::Finished { success: true, stdout: b"/bin/asc\n".to_vec(), stderr: Vec::new() }),
        None
    );
    assert_eq!(
        cli_state_after_version_probe(b"/bin/asc\n", &CommandOutcome::Finished { success: true, stdout: b" 2.1.0 \n".to_vec(), stderr: Vec::new() }),
        AscCliState::Ready(AscCliSummary { path: "/bin/asc".to_string(), version: "2.1.0".to_string() })
    );
    assert_eq!(
        cli_state_after_version_probe(b"/bin/asc\n", &CommandOutcome::Finished { success: false, stdout: Vec::new(), stderr: b"crash\n".to_vec() }),
        AscCliState::InstallFailed("ASC CLI was found at /bin/asc, but `asc version` failed: crash".to_string())
    );
    assert_eq!(
        cli_state_after_version_probe(b"/bin/asc\n", &CommandOutcome::Finished { success: true, stdout: b"  ".to_vec(), stderr: Vec::new() }),
        AscCliState::InstallFailed("ASC CLI was found at /bin/asc, but Sofintel could not read its version.".to_string())
    );
}

#[test]
fn a_fresh_build_list_is_empty() {
    let list = AscBuildListState::new();
    assert!(list.builds.is_empty());
    assert_eq!(list.next_page_url, None);
    assert!(!list.is_loading_more);
    assert_eq!(list.load_more_error, None);
}
