use service_hub::asc_descriptor::asc_descriptor;
use service_hub::asc_presentation::{
    AppleWorkspaceProjectSummary, AppleWorkspaceSchemeSummary, AscBuildPage, AscBuildSummary,
    AscCliSummary,
};
use service_hub::asc_views::{
    app_detail_rows, auth_panel, auth_status_summary, builds_content, cli_sidebar_status,
    create_app_button, latest_build_view, project_menu_label, scheme_summary_line,
    web_session_status, AscAuthSummary, BuildsContent, Severity,
};
use service_hub::asc_workspace::{
    AscAppSummary, AscCliState, AscWebAuthSummary, AscWorkspace, LoadState, ServicesPageState,
};
use service_hub::instance::uid_from_sid;
use service_hub::presentation::{
    bookmark_change, diagnostics_controls, mode_for_selection, mode_position, BookmarkChange,
    WorkspaceMode,
};
use service_hub::ProjectKind;

fn app() -> AscAppSummary {
    AscAppSummary {
        id: "app-1".to_string(),
        name: "Alpha".to_string(),
        bundle_id: "com.alpha".to_string(),
        sku: "alpha-sku".to_string(),
        primary_locale: None,
    }
}

fn build(id: &str) -> AscBuildSummary {
    AscBuildSummary {
        id: id.to_string(),
        build_number: "42".to_string(),
        marketing_version: Some("1.2.3".to_string()),
        platform: Some("IOS".to_string()),
        processing_state: "VALID".to_string(),
        uploaded_date: "2026-04-05T12:34:56Z".to_string(),
        expiration_date: None,
        testflight_internal_state: None,
        testflight_external_state: None,
        app_store_version_id: None,
        app_store_state: None,
    }
}

fn ready() -> AscCliState {
    AscCliState::Ready(AscCliSummary { path: "/bin/asc".to_string(), version: "2.0".to_string() })
}

#[test]
fn shows_app_details_with_defaults() {
    let rows = app_detail_rows(&app());
    assert_eq!(rows.len(), 3);
    assert_eq!((rows[0].title.as_str(), rows[0].value.as_str()), ("SKU", "alpha-sku"));
    assert_eq!((rows[1].title.as_str(), rows[1].value.as_str()), ("Primary Locale", "Not Set"));
    assert_eq!((rows[2].title.as_str(), rows[2].value.as_str()), ("App ID", "app-1"));
}

#[test]
fn shows_the_latest_build() {
    let view = latest_build_view(&build("b1"));
    assert_eq!(view.version, "1.2.3");
    assert_eq!(view.build_label, "Build 42");
    assert_eq!(view.rows[0].value, "iOS");
    assert_eq!(view.rows[1].value, "Valid");
    assert_eq!(view.rows[2].value, "2026-04-05 12:34");
    assert_eq!(view.rows[3].value, "Not Set");
    let mut unknown = build("b2");
    unknown.marketing_version = None;
    assert_eq!(latest_build_view(&unknown).version, "Unknown Version");
}

#[test]
fn builds_section_follows_the_load_state() {
    let mut w = AscWorkspace::new(asc_descriptor());
    w.cli_state = ready();
    w.apps_state = LoadState::Ready(vec![app()]);
    let mut state = ServicesPageState {
        navigation_id: "builds".to_string(),
        selected_resource_id: None,
        selected_target_id: None,
        selected_workflow_id: None,
    };
    assert_eq!(builds_content(&w, &state), (BuildsContent::SelectApp, false));
    w.begin_load_builds(&mut state, "app-1");
    assert_eq!(builds_content(&w, &state), (BuildsContent::Loading, true));
    w.finish_load_builds(&state, "app-1", Ok(AscBuildPage { builds: Vec::new(), next_page_url: None }));
    assert_eq!(builds_content(&w, &state).0, BuildsContent::NoBuilds);
    w.finish_load_builds(&state, "app-1", Ok(AscBuildPage { builds: vec![build("b1")], next_page_url: Some("p2".to_string()) }));
    assert_eq!(
        builds_content(&w, &state).0,
        BuildsContent::Table { has_next_page: true, is_loading_more: false, load_more_error: None }
    );
    w.finish_load_builds(&state, "app-1", Err("offline".to_string()));
    assert_eq!(builds_content(&w, &state).0, BuildsContent::Failed("offline".to_string()));
}

#[test]
fn describes_the_web_session_and_the_create_button() {
    assert_eq!(web_session_status(&LoadState::Loading), "Checking ASC web-session status\u{2026}");
    assert_eq!(web_session_status(&LoadState::Error("boom".to_string())), "boom");
    assert_eq!(web_session_status(&LoadState::Ready(AscWebAuthSummary { authenticated: true })), "ASC web session is ready.");
    assert!(web_session_status(&LoadState::Ready(AscWebAuthSummary { authenticated: false })).starts_with("ASC web session is not authenticated."));
    assert_eq!(create_app_button(false, true), ("Create App".to_string(), false));
    assert_eq!(create_app_button(true, true), ("Creating\u{2026}".to_string(), true));
    assert_eq!(create_app_button(false, false), ("Create App".to_string(), true));
}

#[test]
fn describes_projects_and_schemes() {
    let scheme = AppleWorkspaceSchemeSummary {
        id: "App".to_string(),
        label: "App".to_string(),
        bundle_id: Some("com.example.app".to_string()),
        marketing_version: None,
        build_number: Some("7".to_string()),
        platform: Some("MAC_OS".to_string()),
    };
    assert_eq!(scheme_summary_line(&scheme), "com.example.app · macOS · Version Unknown · Build 7");
    let project = AppleWorkspaceProjectSummary {
        id: "p".to_string(),
        label: "App".to_string(),
        project_path: "/w/App.xcodeproj".to_string(),
        project_kind: ProjectKind::AppleProject,
        schemes: vec![scheme],
    };
    assert_eq!(project_menu_label(&project), "App (/w/App.xcodeproj)");
}

#[test]
fn reports_the_tool_in_the_sidebar() {
    assert_eq!(cli_sidebar_status(&ready()).as_deref(), Some("ASC CLI ready: 2.0"));
    assert_eq!(cli_sidebar_status(&AscCliState::Checking).as_deref(), Some("Checking ASC CLI\u{2026}"));
    assert_eq!(cli_sidebar_status(&AscCliState::Installing).as_deref(), Some("Installing ASC CLI\u{2026}"));
    assert_eq!(cli_sidebar_status(&AscCliState::Missing("m".to_string())), None);
}

#[test]
fn summarizes_the_sign_in_status() {
    let loading = auth_status_summary(&LoadState::Loading);
    assert_eq!(loading.severity, Severity::Success);
    assert_eq!(loading.headline, "Checking authentication\u{2026}");
    assert!(!loading.authenticated);
    let failed = auth_status_summary(&LoadState::Error("no profile".to_string()));
    assert_eq!(failed.severity, Severity::Warning);
    assert_eq!(failed.detail, "no profile");
    let summary = AscAuthSummary {
        healthy: false,
        authenticated: true,
        headline: "Signed in".to_string(),
        detail: "Key expires soon".to_string(),
        warnings: vec!["rotate key".to_string()],
    };
    let ready_status = auth_status_summary(&LoadState::Ready(summary.clone()));
    assert_eq!(ready_status.severity, Severity::Warning);
    assert_eq!(ready_status.warnings, vec!["rotate key".to_string()]);
    assert!(ready_status.authenticated);

    let mut w = AscWorkspace::new(asc_descriptor());
    w.auth_state = LoadState::Ready(summary.clone());
    assert!(auth_panel(&w).is_none());
    w.cli_state = ready();
    let panel = auth_panel(&w).expect("panel");
    assert_eq!(panel.status.headline, "Signed in");
    assert_eq!(panel.status.severity, Severity::Warning);
    assert_eq!(panel.authenticate_label, "Authenticate");
    assert_eq!(panel.reauthenticate_label, "Re-authenticate");
    assert_eq!(panel.logout_label, "Log Out");
    assert_eq!(panel.provider_id, "app-store-connect");
}

#[test]
fn toggles_bookmarks() {
    assert_eq!(bookmark_change("sofintel://newtab", "New Tab", false), None);
    assert_eq!(bookmark_change("", "x", true), None);
    assert_eq!(
        bookmark_change("https://www.example.com/a", "", false),
        Some(BookmarkChange::Add { url: "https://www.example.com/a".to_string(), title: "example.com/a".to_string() })
    );
    assert_eq!(
        bookmark_change("https://example.com", "Example", true),
        Some(BookmarkChange::Remove { url: "https://example.com".to_string() })
    );
}

#[test]
fn shows_the_diagnostics_controls() {
    let none = diagnostics_controls(None);
    assert_eq!(none.warning_tooltip, "Include Warnings");
    assert!(!none.warnings_tinted && !none.shows_stop);
    let busy = diagnostics_controls(Some((true, true)));
    assert_eq!(busy.warning_tooltip, "Exclude Warnings");
    assert!(busy.warnings_tinted && busy.shows_stop);
}

#[test]
fn switches_modes_by_position() {
    assert_eq!(mode_for_selection(0), Some(WorkspaceMode::Browser));
    assert_eq!(mode_for_selection(1), Some(WorkspaceMode::Editor));
    assert_eq!(mode_for_selection(2), Some(WorkspaceMode::Terminal));
    assert_eq!(mode_for_selection(3), None);
    for mode in [WorkspaceMode::Browser, WorkspaceMode::Editor, WorkspaceMode::Terminal] {
        assert_eq!(mode_for_selection(mode_position(mode)), Some(mode));
    }
}

#[test]
fn reads_user_ids_from_security_identifiers() {
    assert_eq!(uid_from_sid("S-1-5-21-3623811015-3361044348-30300820-1013"), 1013);
    assert_eq!(uid_from_sid("1001"), 1001);
    assert_eq!(uid_from_sid("S-1-5-+7"), 7);
    assert_eq!(uid_from_sid("S-1-5-"), 0);
    assert_eq!(uid_from_sid("S-1-5-12a"), 0);
    assert_eq!(uid_from_sid("S-1-5-4294967295"), 4294967295);
    assert_eq!(uid_from_sid("S-1-5-4294967296"), 0);
    assert_eq!(uid_from_sid("S-1-5-99999999999999999999"), 0);
    assert_eq!(uid_from_sid(""), 0);
}
