use service_hub::asc_flows::{
    created_app_step, group_step, RetryStep, CREATION_ATTEMPTS, RETRY_DELAY_SECONDS,
    app_by_bundle_id_request, apps_from_response, builds_page_request, create_app_request,
    create_app_success_message, create_group_request, created_app_matches, find_created_app,
    find_project, find_scheme, first_app_from_response, group_creation_error, list_apps_request,
    needs_two_factor_prompt, pick_project, pick_scheme, project_form_choice,
    release_workflow_values, scheme_settings_args, scheme_summary, submitted_two_factor_code,
    two_factor_dismiss_code, validate_create_app, validate_testflight_release_selection,
    web_auth_status_request, web_login_request, workflow_submission_input,
    workspace_project_summary, AscAppAttributes,
    AscAppRecord, AscAppsResponse, AscCreateAppValues, AscReleaseFormFields, ProjectFormChoice,
};
use service_hub::asc_presentation::{
    build_testflight_workflow_input, AppleWorkspaceProjectSummary, AppleWorkspaceSchemeSummary,
    AscTestFlightSourceMode,
};
use service_hub::asc_workspace::{AscAppSummary, AscWebAuthSummary, LoadState};
use service_hub::instance::{
    got_handshake, instance_step, InstanceStage, InstanceStep, IsOnlyInstance,
};
use service_hub::sorting::{sort_apps, sort_projects, text_is_before};
use service_hub::{
    CapabilityState, DetectedProject, ProjectCapabilities, ProjectKind, RuntimeTarget, StringMap,
};

fn app(id: &str, name: &str, bundle_id: &str, sku: &str) -> AscAppSummary {
    AscAppSummary {
        id: id.to_string(),
        name: name.to_string(),
        bundle_id: bundle_id.to_string(),
        sku: sku.to_string(),
        primary_locale: Some("en-US".to_string()),
    }
}

fn scheme(id: &str, bundle_id: Option<&str>) -> AppleWorkspaceSchemeSummary {
    AppleWorkspaceSchemeSummary {
        id: id.to_string(),
        label: id.to_string(),
        bundle_id: bundle_id.map(|b| b.to_string()),
        marketing_version: Some("1.2".to_string()),
        build_number: Some("7".to_string()),
        platform: Some("IOS".to_string()),
    }
}

fn project(id: &str, label: &str, schemes: Vec<AppleWorkspaceSchemeSummary>) -> AppleWorkspaceProjectSummary {
    AppleWorkspaceProjectSummary {
        id: id.to_string(),
        label: label.to_string(),
        project_path: format!("/work/{id}/App.xcodeproj"),
        project_kind: ProjectKind::AppleProject,
        schemes,
    }
}

fn values() -> AscCreateAppValues {
    AscCreateAppValues {
        app_name: "Sample".to_string(),
        bundle_id: "com.example.sample".to_string(),
        sku: "sample-sku".to_string(),
        platform: "IOS".to_string(),
        primary_locale: "en-US".to_string(),
        version: "1.0".to_string(),
        company_name: String::new(),
        apple_id: String::new(),
        password: String::new(),
        two_factor_command: String::new(),
        create_internal_group: false,
        internal_group_name: String::new(),
    }
}

fn keys(map: &StringMap) -> Vec<String> {
    let mut keys: Vec<String> = map.pairs().iter().map(|(k, _)| k.clone()).collect();
    keys.sort();
    keys
}

fn value<'a>(map: &'a StringMap, key: &str) -> Option<&'a str> {
    map.get(key).map(|v| v.as_str())
}

#[test]
fn lists_apps_and_looks_them_up() {
    let request = list_apps_request();
    assert_eq!(request.provider_id, "app-store-connect");
    assert_eq!(request.operation, "list_apps");
    assert_eq!(value(&request.input, "paginate"), Some("true"));
    assert!(request.resource.is_none());

    let request = app_by_bundle_id_request("com.example.app".to_string());
    assert_eq!(request.operation, "list_apps");
    assert_eq!(keys(&request.input), vec!["bundle_id"]);
    assert_eq!(value(&request.input, "bundle_id"), Some("com.example.app"));

    let request = web_auth_status_request();
    assert_eq!(request.operation, "web_auth_status");
    assert!(request.input.pairs().is_empty());
}

#[test]
fn asks_for_the_first_or_the_next_page_of_builds() {
    let a = app("app-1", "Alpha", "com.a", "a");
    let first = builds_page_request(&a, None);
    assert_eq!(first.operation, "list_builds");
    assert_eq!(value(&first.input, "limit"), Some("50"));
    assert_eq!(value(&first.input, "sort"), Some("-uploadedDate"));
    assert_eq!(first.resource.as_ref().unwrap().external_id, "app-1");
    let next = builds_page_request(&a, Some("https://api/next".to_string()));
    assert_eq!(keys(&next.input), vec!["next"]);
    assert_eq!(value(&next.input, "next"), Some("https://api/next"));
}

#[test]
fn creates_internal_groups_and_reports_the_last_failure() {
    let a = app("app-1", "Alpha", "com.a", "a");
    let request = create_group_request(&a, "Internal Testers".to_string());
    assert_eq!(request.operation, "create_testflight_group");
    assert_eq!(value(&request.input, "name"), Some("Internal Testers"));
    assert_eq!(value(&request.input, "internal"), Some("true"));
    assert_eq!(request.resource.unwrap().label, "Alpha");
    assert_eq!(group_creation_error(Some("HTTP 409".to_string())), "HTTP 409");
    assert_eq!(group_creation_error(None), "Failed to create internal TestFlight group.");
}

#[test]
fn checks_the_app_creation_form_in_order() {
    let projects = vec![project("p1", "One", vec![scheme("S1", Some("com.one"))])];
    let v = values();
    assert_eq!(validate_create_app(&projects, Some("p1"), Some("S1"), &v), Ok((0, 0)));
    assert_eq!(
        validate_create_app(&projects, None, Some("S1"), &v),
        Err("Choose a workspace project before creating an app.".to_string())
    );
    assert_eq!(
        validate_create_app(&projects, Some("p1"), Some("nope"), &v),
        Err("Choose a scheme before creating an app.".to_string())
    );
    let mut missing = values();
    missing.sku = String::new();
    assert_eq!(
        validate_create_app(&projects, Some("p1"), Some("S1"), &missing),
        Err("App name, bundle ID, and SKU are required.".to_string())
    );
    let mut password = values();
    password.password = "secret".to_string();
    assert_eq!(
        validate_create_app(&projects, Some("p1"), Some("S1"), &password),
        Err("Apple Account Email is required when a password is provided.".to_string())
    );
    let mut group = values();
    group.create_internal_group = true;
    assert_eq!(
        validate_create_app(&projects, Some("p1"), Some("S1"), &group),
        Err("Internal TestFlight Group is required when group creation is enabled.".to_string())
    );
}

#[test]
fn asks_for_the_two_factor_code_only_when_needed() {
    let mut v = values();
    v.apple_id = "me@example.com".to_string();
    v.password = "secret".to_string();
    assert!(needs_two_factor_prompt(&v, &LoadState::Loading));
    assert!(needs_two_factor_prompt(&v, &LoadState::Ready(AscWebAuthSummary { authenticated: false })));
    assert!(!needs_two_factor_prompt(&v, &LoadState::Ready(AscWebAuthSummary { authenticated: true })));
    v.two_factor_command = "osascript code.scpt".to_string();
    assert!(!needs_two_factor_prompt(&v, &LoadState::Loading));
}

#[test]
fn signs_in_on_the_web_with_the_given_fields_only() {
    assert!(web_login_request(&values(), &None).is_none());
    let mut v = values();
    v.apple_id = "me@example.com".to_string();
    let request = web_login_request(&v, &None).expect("login");
    assert_eq!(request.operation, "web_auth_login");
    assert_eq!(keys(&request.input), vec!["apple_id"]);
    let request = web_login_request(&values(), &Some("sh -lc wait".to_string())).expect("login");
    assert_eq!(value(&request.input, "two_factor_code_command"), Some("sh -lc wait"));
}

#[test]
fn creates_apps_without_empty_fields() {
    let mut v = values();
    v.two_factor_command = "typed".to_string();
    let request = create_app_request(&v, &None);
    assert_eq!(request.operation, "create_app");
    assert_eq!(
        keys(&request.input),
        vec!["bundle_id", "name", "platform", "primary_locale", "sku", "two_factor_code_command", "version"]
    );
    assert_eq!(value(&request.input, "two_factor_code_command"), Some("typed"));
    let request = create_app_request(&v, &Some("generated".to_string()));
    assert_eq!(value(&request.input, "two_factor_code_command"), Some("generated"));
    assert!(request.input.pairs().iter().all(|(_, v)| !v.is_empty()));
}

#[test]
fn recognizes_the_app_just_created() {
    let apps = vec![
        app("1", "Other", "com.other", "other"),
        app("2", "Sample - iOS", "com.x", "x"),
        app("3", "Sample", "com.example.sample", "sample-sku"),
    ];
    assert!(created_app_matches(&apps[1], "com.example.sample", "Sample", "sample-sku"));
    assert!(!created_app_matches(&apps[0], "com.example.sample", "Sample", "sample-sku"));
    assert_eq!(find_created_app(&apps, "com.example.sample", "Sample", "sample-sku"), Some(1));
    assert_eq!(find_created_app(&apps[..1].to_vec(), "com.example.sample", "Sample", "sku"), None);
    assert!(created_app_matches(&apps[0], "none", "none", "other"));
}

#[test]
fn reports_the_created_app() {
    assert_eq!(create_app_success_message("Sample", "One", None), "Created Sample for One.");
    assert_eq!(
        create_app_success_message("Sample", "One", Some("HTTP 409")),
        "Created Sample for One. Internal group creation failed: HTTP 409"
    );
}

#[test]
fn finds_projects_and_schemes_by_id() {
    let projects = vec![
        project("p1", "One", vec![scheme("S1", None), scheme("S2", None)]),
        project("p2", "Two", Vec::new()),
    ];
    assert_eq!(find_project(&projects, Some("p2")), Some(1));
    assert_eq!(find_project(&projects, None), None);
    assert_eq!(find_scheme(&projects[0], Some("S2")), Some(1));
    assert_eq!(find_scheme(&projects[0], Some("S9")), None);
}

#[test]
fn forms_keep_or_reset_their_project_and_scheme() {
    let projects = vec![
        project("p1", "One", vec![scheme("S1", None), scheme("S2", None)]),
        project("p2", "Two", Vec::new()),
    ];
    assert_eq!(project_form_choice(&Vec::new(), Some("p1"), None), ProjectFormChoice::Clear);
    assert_eq!(project_form_choice(&projects, Some("p1"), Some("S2")), ProjectFormChoice::Defaults(0, 1));
    assert_eq!(project_form_choice(&projects, Some("gone"), Some("gone")), ProjectFormChoice::Defaults(0, 0));
    assert_eq!(project_form_choice(&projects, Some("p2"), None), ProjectFormChoice::Unchanged);
    assert_eq!(pick_project(&projects, "p1"), Some(0));
    assert_eq!(pick_project(&projects, "p2"), None);
    assert_eq!(pick_scheme(&projects, Some("p1"), "S2"), Some((0, 1)));
    assert_eq!(pick_scheme(&projects, None, "S2"), None);
}

#[test]
fn checks_the_release_selection_against_the_app() {
    let projects = vec![project("p1", "One", vec![scheme("S1", Some("com.one"))])];
    let local = AscTestFlightSourceMode::LocalProject;
    assert_eq!(validate_testflight_release_selection(AscTestFlightSourceMode::IpaFile, &projects, None, None, "x"), Ok(()));
    assert_eq!(validate_testflight_release_selection(local, &projects, Some("p1"), None, "com.one"), Ok(()));
    assert_eq!(
        validate_testflight_release_selection(local, &projects, None, None, "com.one"),
        Err("Workspace Project is required".to_string())
    );
    let empty = vec![project("p1", "One", Vec::new())];
    assert_eq!(
        validate_testflight_release_selection(local, &empty, Some("p1"), None, "com.one"),
        Err("Scheme is required".to_string())
    );
    assert!(validate_testflight_release_selection(local, &projects, Some("p1"), Some("S1"), "com.two").is_err());
}

#[test]
fn hands_the_release_form_to_the_workflow_input() {
    let projects = vec![project("p1", "One", vec![scheme("S1", Some("com.one"))])];
    let fields = AscReleaseFormFields {
        source_mode: AscTestFlightSourceMode::LocalProject,
        ipa_path: String::new(),
        version: "1.2".to_string(),
        build_id: String::new(),
        build_number: String::new(),
        group: "Internal".to_string(),
        configuration: "Release".to_string(),
        export_options: "/work/p1/.asc/export.plist".to_string(),
        wait_for_processing: true,
        notify_testers: false,
        clean_build: false,
    };
    let values = release_workflow_values(&projects, Some("p1"), Some("S1"), fields.clone());
    assert_eq!(values.project_kind, Some(ProjectKind::AppleProject));
    assert_eq!(values.project_path.as_deref(), Some("/work/p1/App.xcodeproj"));
    assert_eq!(values.scheme.as_ref().map(|s| s.id.as_str()), Some("S1"));
    let input = build_testflight_workflow_input(values).expect("input");
    assert_eq!(value(&input, "scheme"), Some("S1"));
    assert_eq!(value(&input, "wait"), Some("true"));

    let none = release_workflow_values(&projects, Some("p9"), Some("S1"), fields);
    assert!(none.project_kind.is_none() && none.project_path.is_none() && none.scheme.is_none());
}

#[test]
fn summarizes_schemes_from_their_build_settings() {
    let settings = "    PRODUCT_BUNDLE_IDENTIFIER = com.example.app\n    MARKETING_VERSION = 2.0\n    CURRENT_PROJECT_VERSION = 12\n    SDKROOT = iphoneos\n";
    let s = scheme_summary("App".to_string(), settings);
    assert_eq!(s.id, "App");
    assert_eq!(s.label, "App");
    assert_eq!(s.bundle_id.as_deref(), Some("com.example.app"));
    assert_eq!(s.marketing_version.as_deref(), Some("2.0"));
    assert_eq!(s.build_number.as_deref(), Some("12"));
    assert_eq!(s.platform.as_deref(), Some("IOS"));
    let empty = scheme_summary("App".to_string(), "");
    assert_eq!(empty.bundle_id, None);
    assert_eq!(empty.platform, None);
}

#[test]
fn asks_xcodebuild_for_release_settings() {
    assert_eq!(
        scheme_settings_args("/w/App.xcworkspace", ProjectKind::AppleWorkspace, "App"),
        vec!["-workspace", "/w/App.xcworkspace", "-scheme", "App", "-showBuildSettings", "-configuration", "Release"]
    );
    assert_eq!(
        scheme_settings_args("/w/App.xcodeproj", ProjectKind::AppleProject, "App")[0],
        "-project"
    );
    assert_eq!(scheme_settings_args("/w", ProjectKind::GpuiApplication, "App").len(), 5);
}

fn detected(kind: ProjectKind) -> DetectedProject {
    DetectedProject {
        id: "apple:/w".to_string(),
        label: "App".to_string(),
        kind,
        workspace_root: "/w".to_string(),
        project_path: "/w/App.xcodeproj".to_string(),
        capabilities: ProjectCapabilities { build: CapabilityState::Available, run: CapabilityState::Available },
        targets: vec![RuntimeTarget { id: "App".to_string(), label: "App".to_string() }],
        devices: Vec::new(),
    }
}

#[test]
fn offers_apple_projects_with_schemes_only() {
    let p = workspace_project_summary(&detected(ProjectKind::AppleProject), vec![scheme("App", None)]).expect("project");
    assert_eq!(p.id, "apple:/w");
    assert_eq!(p.schemes.len(), 1);
    assert!(workspace_project_summary(&detected(ProjectKind::AppleProject), Vec::new()).is_none());
    assert!(workspace_project_summary(&detected(ProjectKind::GpuiApplication), vec![scheme("App", None)]).is_none());
}

#[test]
fn lists_apps_by_name_then_bundle_id() {
    let record = |id: &str, name: &str, bundle: &str| AscAppRecord {
        id: id.to_string(),
        attributes: AscAppAttributes {
            name: name.to_string(),
            bundle_id: bundle.to_string(),
            sku: id.to_string(),
            primary_locale: None,
        },
    };
    let response = AscAppsResponse {
        data: vec![record("1", "Zeta", "com.z"), record("2", "Alpha", "com.b"), record("3", "Alpha", "com.a"), record("4", "alpha", "com.c")],
    };
    let apps = apps_from_response(response.clone());
    let ids: Vec<&str> = apps.iter().map(|a| a.id.as_str()).collect();
    assert_eq!(ids, vec!["3", "2", "1", "4"]);
    assert_eq!(first_app_from_response(response).unwrap().id, "1");
    assert!(first_app_from_response(AscAppsResponse { data: Vec::new() }).is_none());
}

#[test]
fn sorting_is_stable_and_keeps_every_item() {
    let apps = vec![
        app("1", "Same", "com.same", "a"),
        app("2", "Beta", "com.b", "b"),
        app("3", "Same", "com.same", "c"),
    ];
    let sorted = sort_apps(apps);
    let ids: Vec<&str> = sorted.iter().map(|a| a.id.as_str()).collect();
    assert_eq!(ids, vec!["2", "1", "3"]);
    let projects = vec![project("b", "Beta", Vec::new()), project("a", "Alpha", Vec::new()), project("c", "Beta", Vec::new())];
    let labels: Vec<String> = sort_projects(projects).into_iter().map(|p| p.id).collect();
    assert_eq!(labels, vec!["a", "b", "c"]);
}

#[test]
fn compares_texts_by_code_point_with_prefixes_first() {
    assert!(text_is_before("Alpha", "Beta"));
    assert!(text_is_before("App", "Apple"));
    assert!(!text_is_before("Apple", "App"));
    assert!(!text_is_before("Same", "Same"));
    assert!(text_is_before("Zeta", "alpha"));
    assert!(text_is_before("", "a"));
    assert_eq!(text_is_before("éclair", "zebra"), "éclair" < "zebra");
}

#[test]
fn saves_only_a_typed_two_factor_code() {
    assert_eq!(submitted_two_factor_code(" 123456 \n"), Some("123456".to_string()));
    assert_eq!(submitted_two_factor_code("   "), None);
    assert_eq!(two_factor_dismiss_code(false), Some("cancel".to_string()));
    assert_eq!(two_factor_dismiss_code(true), None);
}

#[test]
fn decides_the_single_instance_check() {
    assert_eq!(instance_step(InstanceStage::FirstProbe, true), InstanceStep::Done(IsOnlyInstance::No));
    assert_eq!(instance_step(InstanceStage::FirstProbe, false), InstanceStep::Then(InstanceStage::Bind));
    assert_eq!(instance_step(InstanceStage::Bind, true), InstanceStep::Listen);
    assert_eq!(instance_step(InstanceStage::Bind, false), InstanceStep::Then(InstanceStage::SecondProbe));
    assert_eq!(instance_step(InstanceStage::SecondProbe, true), InstanceStep::Done(IsOnlyInstance::No));
    assert_eq!(instance_step(InstanceStage::SecondProbe, false), InstanceStep::Done(IsOnlyInstance::Yes));
}

#[test]
fn accepts_only_the_exact_handshake() {
    assert!(got_handshake(Some(b"sofintel-stable"), "sofintel-stable"));
    assert!(!got_handshake(Some(b"sofintel-preview"), "sofintel-stable"));
    assert!(!got_handshake(Some(b"sofintel"), "sofintel-stable"));
    assert!(!got_handshake(None, "sofintel-stable"));
}

#[test]
fn submits_the_release_form_for_testflight_and_the_form_otherwise() {
    let projects = vec![project("p1", "One", vec![scheme("S1", Some("com.one"))])];
    let fields = AscReleaseFormFields {
        source_mode: AscTestFlightSourceMode::LocalProject,
        ipa_path: String::new(),
        version: String::new(),
        build_id: String::new(),
        build_number: String::new(),
        group: "Internal".to_string(),
        configuration: String::new(),
        export_options: "/w/export.plist".to_string(),
        wait_for_processing: false,
        notify_testers: false,
        clean_build: false,
    };
    let one = app("a", "One", "com.one", "one");
    let other = app("b", "Two", "com.two", "two");
    let mut generic = StringMap::new();
    generic.insert("ipa_path".to_string(), "/w/App.ipa".to_string());

    let input = workflow_submission_input("publish_testflight", &one, &projects, Some("p1"), Some("S1"), fields.clone(), Err("unused".to_string())).expect("input");
    assert_eq!(value(&input, "group"), Some("Internal"));
    assert_eq!(value(&input, "project_path"), Some("/work/p1/App.xcodeproj"));

    let refused = workflow_submission_input("publish_testflight", &other, &projects, Some("p1"), Some("S1"), fields.clone(), Ok(StringMap::new()));
    assert!(refused.unwrap_err().contains("uses bundle ID `com.two`"));

    let input = workflow_submission_input("publish_appstore", &one, &projects, None, None, fields.clone(), Ok(generic)).expect("input");
    assert_eq!(value(&input, "ipa_path"), Some("/w/App.ipa"));
    assert_eq!(
        workflow_submission_input("publish_appstore", &one, &projects, None, None, fields, Err("IPA Path is required".to_string())).err(),
        Some("IPA Path is required".to_string())
    );
}

#[test]
fn retries_creation_steps_at_most_ten_times() {
    let found = app("1", "Sample", "com.example.sample", "sku");
    assert_eq!(created_app_step(1, Some(found.clone())), RetryStep::Stop(Some(found)));
    assert_eq!(created_app_step(1, None), RetryStep::WaitAndRetry(1));
    assert_eq!(created_app_step(9, None), RetryStep::WaitAndRetry(RETRY_DELAY_SECONDS));
    assert_eq!(created_app_step(CREATION_ATTEMPTS, None), RetryStep::WaitAndStop(1, None));
    assert_eq!(group_step(3, Ok(())), RetryStep::Stop(Ok(())));
    assert_eq!(group_step(3, Err("HTTP 409".to_string())), RetryStep::WaitAndRetry(1));
    assert_eq!(
        group_step(10, Err("HTTP 409".to_string())),
        RetryStep::WaitAndStop(1, Err("HTTP 409".to_string()))
    );
    assert_eq!(CREATION_ATTEMPTS, 10);
}
