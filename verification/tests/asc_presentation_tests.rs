use service_hub::asc_presentation::{
    asc_cli_missing_message, build_page_from_response, build_release_type, build_setting,
    build_status_summary, build_testflight_workflow_input, color_for_state,
    command_output_detail, create_app_defaults, format_build_date, format_embedded_state,
    format_platform, format_processing_state, infer_platform,
    is_testflight_distribution_pending_error, non_empty_string, parse_asc_cli_probe,
    summarize_workflow_error, summarize_workflow_output, testflight_defaults,
    two_factor_wait_command, validate_local_project_bundle_id_match, AppleWorkspaceProjectSummary,
    AppleWorkspaceSchemeSummary, AscBuildAttributes, AscBuildRecord, AscBuildRelationship,
    AscBuildRelationships, AscBuildSummary, AscBuildsResponse, AscFormStatus,
    AscPaginationLinks, AscPreReleaseVersionAttributes, AscPreReleaseVersionRecord,
    AscRelatedResourceIdentifier, AscTestFlightSourceMode, AscTestFlightWorkflowValues,
    StateColor,
};
use service_hub::ProjectKind;

fn sample_scheme(bundle_id: Option<&str>, build_number: &str) -> AppleWorkspaceSchemeSummary {
    AppleWorkspaceSchemeSummary {
        id: "IOSSample".to_string(),
        label: "IOSSample".to_string(),
        bundle_id: bundle_id.map(|b| b.to_string()),
        marketing_version: Some("1.0".to_string()),
        build_number: Some(build_number.to_string()),
        platform: Some("IOS".to_string()),
    }
}

fn build_record(id: &str, prv: Option<&str>) -> AscBuildRecord {
    AscBuildRecord {
        id: id.to_string(),
        attributes: AscBuildAttributes {
            version: "42".to_string(),
            uploaded_date: "2026-04-05T12:34:56Z".to_string(),
            expiration_date: Some("2026-05-05T12:34:56Z".to_string()),
            processing_state: "VALID".to_string(),
        },
        relationships: AscBuildRelationships {
            pre_release_version: prv.map(|p| AscBuildRelationship {
                data: Some(AscRelatedResourceIdentifier { id: p.to_string() }),
            }),
        },
    }
}

fn pre_release(kind: &str, id: &str, version: &str, platform: &str) -> AscPreReleaseVersionRecord {
    AscPreReleaseVersionRecord {
        resource_type: kind.to_string(),
        id: id.to_string(),
        attributes: AscPreReleaseVersionAttributes {
            version: version.to_string(),
            platform: platform.to_string(),
        },
    }
}

#[test]
fn parses_build_pages_without_eager_follow_up_requests() {
    let response = AscBuildsResponse {
        data: vec![build_record("build-1", Some("prv-1"))],
        included: vec![pre_release("preReleaseVersions", "prv-1", "1.2.3", "IOS")],
        links: AscPaginationLinks {
            next: "https://api.appstoreconnect.apple.com/v1/builds?cursor=AQ".to_string(),
        },
    };

    let page = build_page_from_response(response);

    assert_eq!(page.builds.len(), 1);
    assert_eq!(page.builds[0].marketing_version.as_deref(), Some("1.2.3"));
    assert_eq!(page.builds[0].platform.as_deref(), Some("IOS"));
    assert_eq!(
        page.next_page_url.as_deref(),
        Some("https://api.appstoreconnect.apple.com/v1/builds?cursor=AQ")
    );
    assert!(page.builds[0].testflight_external_state.is_none());
    assert!(page.builds[0].app_store_state.is_none());
}

#[test]
fn build_page_ignores_other_included_records_and_keeps_the_last_duplicate() {
    let response = AscBuildsResponse {
        data: vec![
            build_record("build-1", Some("prv-1")),
            build_record("build-2", Some("prv-2")),
            build_record("build-3", None),
        ],
        included: vec![
            pre_release("preReleaseVersions", "prv-1", "1.0", "IOS"),
            pre_release("preReleaseVersions", "prv-1", "1.1", "MAC_OS"),
            pre_release("betaGroups", "prv-2", "9.9", "TV_OS"),
        ],
        links: AscPaginationLinks { next: "   ".to_string() },
    };

    let page = build_page_from_response(response);

    assert_eq!(page.builds.len(), 3);
    assert_eq!(page.builds[0].id, "build-1");
    assert_eq!(page.builds[0].marketing_version.as_deref(), Some("1.1"));
    assert_eq!(page.builds[0].platform.as_deref(), Some("MAC_OS"));
    assert_eq!(page.builds[1].marketing_version, None);
    assert_eq!(page.builds[2].platform, None);
    assert_eq!(page.builds[2].build_number, "42");
    assert_eq!(page.next_page_url, None);
}

#[test]
fn parses_asc_cli_probe_output() {
    let summary =
        parse_asc_cli_probe("/opt/homebrew/bin/asc\n", "1.0.1 (commit: abcdef)\n").unwrap();

    assert_eq!(summary.path, "/opt/homebrew/bin/asc");
    assert_eq!(summary.version, "1.0.1 (commit: abcdef)");
}

#[test]
fn rejects_empty_asc_cli_probe_path() {
    let error = parse_asc_cli_probe("", "1.0.1").unwrap_err();

    assert_eq!(error, asc_cli_missing_message());
}

#[test]
fn rejects_asc_cli_probe_without_version() {
    let error = parse_asc_cli_probe(" /usr/local/bin/asc ", " \n").unwrap_err();

    assert_eq!(
        error,
        "ASC CLI was found at /usr/local/bin/asc, but Sofintel could not read its version."
    );
}

#[test]
fn command_output_detail_prefers_stderr() {
    let detail = command_output_detail(b"stdout text", b"stderr text", "fallback");

    assert_eq!(detail, "stderr text");
}

#[test]
fn command_output_detail_decodes_and_falls_back() {
    assert_eq!(command_output_detail(b"  out\n", b" \n", "fallback"), "out");
    assert_eq!(command_output_detail(b"", b"", "fallback"), "fallback");
    assert_eq!(command_output_detail(b"", b"bad \xff byte", "fallback"), "bad \u{fffd} byte");
}

fn local_values(export_options: &str, clean: bool) -> AscTestFlightWorkflowValues {
    AscTestFlightWorkflowValues {
        source_mode: AscTestFlightSourceMode::LocalProject,
        project_kind: Some(ProjectKind::AppleProject),
        project_path: Some("/tmp/IOSSample.xcodeproj".to_string()),
        scheme: Some(sample_scheme(Some("com.example.sample"), "7")),
        ipa_path: String::new(),
        version: "1.0".to_string(),
        build_id: String::new(),
        build_number: String::new(),
        group: "Internal Testers".to_string(),
        configuration: "Release".to_string(),
        export_options: export_options.to_string(),
        wait_for_processing: true,
        notify_testers: false,
        clean_build: clean,
    }
}

#[test]
fn builds_testflight_local_project_input() {
    let input = build_testflight_workflow_input(local_values("/tmp/ExportOptions.plist", true))
        .unwrap();

    assert_eq!(
        input.get("project_path").map(String::as_str),
        Some("/tmp/IOSSample.xcodeproj")
    );
    assert_eq!(input.get("scheme").map(String::as_str), Some("IOSSample"));
    assert_eq!(input.get("platform").map(String::as_str), Some("IOS"));
    assert_eq!(input.get("clean").map(String::as_str), Some("true"));
    assert_eq!(input.get("wait").map(String::as_str), Some("true"));
}

#[test]
fn rejects_existing_build_mode_without_build_identifier() {
    let error = build_testflight_workflow_input(AscTestFlightWorkflowValues {
        source_mode: AscTestFlightSourceMode::ExistingBuild,
        project_kind: None,
        project_path: None,
        scheme: None,
        ipa_path: String::new(),
        version: String::new(),
        build_id: String::new(),
        build_number: String::new(),
        group: "Internal Testers".to_string(),
        configuration: String::new(),
        export_options: String::new(),
        wait_for_processing: false,
        notify_testers: false,
        clean_build: false,
    })
    .unwrap_err();

    assert_eq!(error, "Build ID or Build Number is required");
}

#[test]
fn rejects_local_project_mode_without_export_options() {
    let error = build_testflight_workflow_input(local_values("", false)).unwrap_err();

    assert_eq!(
        error,
        "Export Options is required for local project publishing."
    );
}

#[test]
fn builds_testflight_input_for_each_source_mode() {
    let mut values = local_values("", false);
    values.group = String::new();
    assert_eq!(
        build_testflight_workflow_input(values.clone()).unwrap_err(),
        "Beta Groups is required"
    );

    values.group = "QA".to_string();
    values.source_mode = AscTestFlightSourceMode::IpaFile;
    assert_eq!(
        build_testflight_workflow_input(values.clone()).unwrap_err(),
        "IPA Path is required"
    );
    values.ipa_path = "/tmp/App.ipa".to_string();
    values.notify_testers = true;
    let input = build_testflight_workflow_input(values.clone()).unwrap();
    assert_eq!(input.get("ipa_path").map(String::as_str), Some("/tmp/App.ipa"));
    assert_eq!(input.get("version").map(String::as_str), Some("1.0"));
    assert_eq!(input.get("notify").map(String::as_str), Some("true"));
    assert!(input.get("scheme").is_none());

    values.source_mode = AscTestFlightSourceMode::ExistingBuild;
    values.build_number = "42".to_string();
    let input = build_testflight_workflow_input(values.clone()).unwrap();
    assert_eq!(input.get("build_number").map(String::as_str), Some("42"));
    assert!(input.get("build_id").is_none());

    values.source_mode = AscTestFlightSourceMode::LocalProject;
    values.project_kind = Some(ProjectKind::AppleWorkspace);
    values.export_options = "/tmp/Export.plist".to_string();
    let input = build_testflight_workflow_input(values.clone()).unwrap();
    assert_eq!(
        input.get("workspace_path").map(String::as_str),
        Some("/tmp/IOSSample.xcodeproj")
    );
    assert!(input.get("project_path").is_none());

    values.project_kind = Some(ProjectKind::GpuiApplication);
    assert_eq!(
        build_testflight_workflow_input(values.clone()).unwrap_err(),
        "TestFlight local build requires an Apple project or workspace."
    );
    values.project_kind = None;
    assert_eq!(
        build_testflight_workflow_input(values.clone()).unwrap_err(),
        "Workspace Project is required"
    );
    values.project_kind = Some(ProjectKind::AppleProject);
    values.scheme = None;
    assert_eq!(
        build_testflight_workflow_input(values).unwrap_err(),
        "Scheme is required"
    );
}

#[test]
fn rejects_testflight_local_project_when_bundle_id_does_not_match_selected_app() {
    let error = validate_local_project_bundle_id_match(
        "com.sofintel.tests.iossample4",
        &sample_scheme(Some("com.sofintel.tests.iossample"), "1"),
    )
    .unwrap_err();

    assert_eq!(
        error,
        "The selected App Store Connect app uses bundle ID `com.sofintel.tests.iossample4`, but the local scheme `IOSSample` builds `com.sofintel.tests.iossample`. Choose the matching app or switch schemes before publishing."
    );
}

#[test]
fn rejects_testflight_local_project_when_scheme_bundle_id_is_missing() {
    let error = validate_local_project_bundle_id_match(
        "com.sofintel.tests.iossample4",
        &sample_scheme(None, "1"),
    )
    .unwrap_err();

    assert_eq!(
        error,
        "Sofintel could not read the selected scheme bundle ID. Check PRODUCT_BUNDLE_IDENTIFIER for the Release configuration before publishing."
    );
}

#[test]
fn accepts_matching_bundle_id_after_trimming() {
    assert!(validate_local_project_bundle_id_match(
        "com.example.sample",
        &sample_scheme(Some("  com.example.sample\n"), "1"),
    )
    .is_ok());
}

#[test]
fn summarizes_workflow_error_from_last_meaningful_line() {
    let error = summarize_workflow_error(
        "Command line invocation:\n  xcodebuild ...\n\nError: publish testflight: failed to add groups: Build is not assignable.: Build is not in an internally testable state.",
    );

    assert_eq!(
        error,
        "publish testflight: failed to add groups: Build is not assignable.: Build is not in an internally testable state."
    );
}

#[test]
fn summarizes_empty_output_with_fallbacks() {
    assert_eq!(summarize_workflow_error(" \n\n"), "Workflow failed.");
    assert_eq!(summarize_workflow_error("Error: Error: twice\n"), "twice");
    assert_eq!(
        summarize_workflow_output(""),
        "Workflow completed successfully."
    );
    assert_eq!(summarize_workflow_output("first\r\n  last line  \r\n\n"), "last line");
}

#[test]
fn detects_testflight_distribution_pending_error() {
    assert!(is_testflight_distribution_pending_error(
        "Error: publish testflight: failed to add groups: Build is not assignable.: Build is not in an internally testable state."
    ));
    assert!(!is_testflight_distribution_pending_error(
        "Error: FAILED TO ADD GROUPS: network unreachable"
    ));
    assert!(is_testflight_distribution_pending_error(
        "FAILED TO ADD GROUPS: NOT IN AN EXTERNALLY TESTABLE STATE"
    ));
}

#[test]
fn reads_build_settings_and_infers_platform() {
    let output = "Build settings for action build:\n    PRODUCT_BUNDLE_IDENTIFIER = com.example.sample\n    MARKETING_VERSION = 1.4\n    SDKROOT = iphoneos\n    SUPPORTED_PLATFORMS = iphoneos iphonesimulator\n";
    assert_eq!(
        build_setting(output, "PRODUCT_BUNDLE_IDENTIFIER").as_deref(),
        Some("com.example.sample")
    );
    assert_eq!(build_setting(output, "MARKETING_VERSION").as_deref(), Some("1.4"));
    assert_eq!(build_setting(output, "CURRENT_PROJECT_VERSION"), None);
    assert_eq!(infer_platform(output).as_deref(), Some("IOS"));
    assert_eq!(infer_platform("SDKROOT = macosx\n").as_deref(), Some("MAC_OS"));
    assert_eq!(infer_platform("SDKROOT = appletvos\n").as_deref(), Some("TV_OS"));
    assert_eq!(
        infer_platform("SUPPORTED_PLATFORMS = XROS xrsimulator\n").as_deref(),
        Some("VISION_OS")
    );
    assert_eq!(infer_platform("SDKROOT = linux\n"), None);
}

#[test]
fn formats_platforms_states_and_dates() {
    assert_eq!(format_platform(Some("IOS")), "iOS");
    assert_eq!(format_platform(Some("MAC_OS")), "macOS");
    assert_eq!(format_platform(Some("TV_OS")), "tvOS");
    assert_eq!(format_platform(Some("VISION_OS")), "visionOS");
    assert_eq!(format_platform(Some("WATCH_OS")), "WATCH OS");
    assert_eq!(format_platform(None), "Unknown");
    assert_eq!(format_processing_state("READY_FOR_REVIEW"), "Ready For Review");
    assert_eq!(format_processing_state("__valid__"), "Valid");
    assert_eq!(format_processing_state(""), "");
    assert_eq!(format_build_date("2026-04-05T12:34:56Z"), "2026-04-05 12:34");
    assert_eq!(format_build_date("2026-04-05T1"), "2026-04-05 1");
    assert_eq!(format_build_date("yesterday"), "yesterday");
    assert_eq!(format_embedded_state("TF READY_FOR_TESTING"), "TF Ready For Testing");
    assert_eq!(format_embedded_state("IN_REVIEW"), "In Review");
}

fn summary(external: Option<&str>, app_store_id: Option<&str>, app_store_state: Option<&str>) -> AscBuildSummary {
    AscBuildSummary {
        id: "b".to_string(),
        build_number: "1".to_string(),
        marketing_version: None,
        platform: None,
        processing_state: "VALID".to_string(),
        uploaded_date: String::new(),
        expiration_date: None,
        testflight_internal_state: None,
        testflight_external_state: external.map(|s| s.to_string()),
        app_store_version_id: app_store_id.map(|s| s.to_string()),
        app_store_state: app_store_state.map(|s| s.to_string()),
    }
}

#[test]
fn describes_release_type_and_status() {
    assert_eq!(build_release_type(&summary(None, None, None)), "Unknown");
    assert_eq!(build_release_type(&summary(Some("X"), None, None)), "TestFlight");
    assert_eq!(build_release_type(&summary(None, Some("v"), None)), "App Store");
    assert_eq!(
        build_release_type(&summary(Some("X"), Some("v"), None)),
        "TestFlight + App Store"
    );
    assert_eq!(build_status_summary(&summary(None, None, None)), "Valid");
    assert_eq!(
        build_status_summary(&summary(Some("IN_BETA_TESTING"), None, Some("READY_FOR_SALE"))),
        "Valid · TF In Beta Testing · AS Ready For Sale"
    );
}

#[test]
fn colors_states_by_severity() {
    assert_eq!(color_for_state("rejected"), StateColor::Error);
    assert_eq!(color_for_state("WAITING_FOR_REVIEW"), StateColor::Warning);
    assert_eq!(color_for_state("ready_for_sale"), StateColor::Success);
    assert_eq!(color_for_state("INVALID"), StateColor::Error);
    assert_eq!(color_for_state("archived"), StateColor::Muted);
}

#[test]
fn keeps_non_empty_strings_and_builds_wait_command() {
    assert_eq!(non_empty_string("  next  ".to_string()).as_deref(), Some("next"));
    assert_eq!(non_empty_string(" \t".to_string()), None);
    assert_eq!(
        two_factor_wait_command("/tmp/a\"b.txt"),
        "sh -lc 'while [ ! -s \"/tmp/a\\\"b.txt\" ]; do sleep 1; done; cat \"/tmp/a\\\"b.txt\"'"
    );
}

#[test]
fn form_status_transitions() {
    let mut status = AscFormStatus::new();
    status.set_error("boom".to_string());
    assert!(!status.pending);
    assert_eq!(status.error_message.as_deref(), Some("boom"));
    status.set_pending(true);
    assert!(status.pending);
    assert_eq!(status.error_message, None);
    status.finish_success("done".to_string());
    assert!(!status.pending);
    assert_eq!(status.success_message.as_deref(), Some("done"));
    status.set_pending(false);
    assert_eq!(status.success_message.as_deref(), Some("done"));
    status.clear_status();
    assert_eq!(status.success_message, None);
}

#[test]
fn fills_forms_from_a_scheme() {
    let project = AppleWorkspaceProjectSummary {
        id: "p1".to_string(),
        label: "Sample".to_string(),
        project_path: "/tmp/Sample.xcodeproj".to_string(),
        project_kind: ProjectKind::AppleProject,
        schemes: vec![],
    };
    assert_eq!(project.display_path(), "/tmp/Sample.xcodeproj");
    let scheme = AppleWorkspaceSchemeSummary {
        id: "s1".to_string(),
        label: "Sample".to_string(),
        bundle_id: None,
        marketing_version: None,
        build_number: None,
        platform: None,
    };
    let defaults = create_app_defaults(&project, &scheme);
    assert_eq!(defaults.selected_platform, "IOS");
    assert_eq!(defaults.bundle_id, "");
    assert_eq!(defaults.sku, "Sample");
    assert_eq!(defaults.initial_version, "1.0");
    assert_eq!(defaults.primary_locale, "en-US");

    let tf = testflight_defaults(Some("p0"), &project, &scheme, "", None);
    assert_eq!(tf.version, "1.0");
    assert_eq!(tf.configuration.as_deref(), Some("Release"));
    assert_eq!(tf.export_options.as_deref(), Some(""));
    let tf = testflight_defaults(Some("p1"), &project, &scheme, "Debug", None);
    assert_eq!(tf.configuration, None);
    assert_eq!(tf.export_options, None);
    let tf = testflight_defaults(
        Some("p1"),
        &project,
        &scheme,
        "Debug",
        Some("/tmp/.asc/export-options-app-store.plist".to_string()),
    );
    assert_eq!(
        tf.export_options.as_deref(),
        Some("/tmp/.asc/export-options-app-store.plist")
    );
}
