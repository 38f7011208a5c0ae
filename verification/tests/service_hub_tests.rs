use service_hub::{
    AscServiceProvider, ServiceArtifactKind, ServiceArtifactRef, ServiceAuthAction,
    ServiceAuthActionRequest, ServiceAuthKind, ServiceError, ServiceHub,
    ServiceOperationRequest, ServiceProvider, ServiceResourceRef, ServiceWorkflowKind,
    ServiceWorkflowRequest, StringMap,
};

fn input(pairs: &[(&str, &str)]) -> StringMap {
    let mut map = StringMap::new();
    for (key, value) in pairs {
        map.insert(key.to_string(), value.to_string());
    }
    map
}

fn app_resource() -> Option<ServiceResourceRef> {
    Some(ServiceResourceRef {
        provider_id: "app-store-connect".to_string(),
        kind: "app".to_string(),
        external_id: "123456789".to_string(),
        label: "Sofintel".to_string(),
    })
}

fn build_resource() -> Option<ServiceResourceRef> {
    Some(ServiceResourceRef {
        provider_id: "app-store-connect".to_string(),
        kind: "build".to_string(),
        external_id: "BUILD-ID".to_string(),
        label: "42".to_string(),
    })
}

fn operation(name: &str, resource: Option<ServiceResourceRef>, values: &[(&str, &str)]) -> ServiceOperationRequest {
    ServiceOperationRequest {
        provider_id: "app-store-connect".to_string(),
        operation: name.to_string(),
        resource,
        artifact: None,
        input: input(values),
    }
}

#[test]
fn advertises_targets_and_workflows_without_binding_to_a_transport() {
    let descriptor = AscServiceProvider.descriptor();

    assert!(descriptor.targets.iter().any(|target| target.id == "testflight"));
    assert!(descriptor
        .workflows
        .iter()
        .any(|workflow| workflow.id == "publish_appstore"));
    assert_eq!(descriptor.auth_kind, ServiceAuthKind::ApiKey);
}

#[test]
fn builds_real_asc_auth_status_command() {
    let provider = AscServiceProvider;
    let plan = provider
        .build_operation(&operation("auth_status", None, &[]))
        .unwrap();

    assert_eq!(plan.command, "asc");
    assert_eq!(plan.args[0], "auth");
    assert!(plan.args.contains(&"--validate".to_string()));
}

#[test]
fn advertises_reusable_auth_actions_for_app_store_connect() {
    let descriptor = AscServiceProvider.descriptor();
    let auth = descriptor.auth.as_ref().unwrap();

    assert_eq!(auth.kind, ServiceAuthKind::ApiKey);
    assert!(auth
        .actions
        .iter()
        .any(|action| action.action == ServiceAuthAction::Authenticate));
    assert!(auth
        .actions
        .iter()
        .any(|action| action.action == ServiceAuthAction::Logout));
}

#[test]
fn advertises_shell_metadata_for_app_store_connect() {
    let descriptor = AscServiceProvider.descriptor();
    let resource_kind = descriptor.shell.resource_kind.as_ref().unwrap();

    assert_eq!(resource_kind.singular_label, "App");
    assert_eq!(resource_kind.plural_label, "Apps");
    assert_eq!(descriptor.shell.default_navigation_item_id, "overview");
    assert_eq!(descriptor.shell.navigation_items.len(), 3);
    assert!(descriptor
        .shell
        .navigation_items
        .iter()
        .any(|item| item.id == "builds"));
}

#[test]
fn builds_real_asc_authenticate_command() {
    let hub = ServiceHub::default();
    let plan = hub
        .build_auth_action(&ServiceAuthActionRequest {
            provider_id: "app-store-connect".to_string(),
            action: ServiceAuthAction::Authenticate,
            input: input(&[
                ("profile_name", "Personal"),
                ("key_id", "ABC123"),
                ("issuer_id", "ISSUER456"),
                ("private_key_path", "/tmp/AuthKey_ABC123.p8"),
                ("repo_local", "true"),
                ("validate_network", "true"),
            ]),
        })
        .unwrap();

    assert_eq!(plan.command, "asc");
    assert_eq!(plan.args[0], "auth");
    assert_eq!(plan.args[1], "login");
    assert!(plan.args.contains(&"--name".to_string()));
    assert!(plan.args.contains(&"Personal".to_string()));
    assert!(plan.args.contains(&"--local".to_string()));
    assert!(plan.args.contains(&"--bypass-keychain".to_string()));
    assert!(plan.args.contains(&"--network".to_string()));
}

#[test]
fn builds_real_asc_logout_command() {
    let hub = ServiceHub::default();
    let plan = hub
        .build_auth_action(&ServiceAuthActionRequest {
            provider_id: "app-store-connect".to_string(),
            action: ServiceAuthAction::Logout,
            input: StringMap::new(),
        })
        .unwrap();

    assert_eq!(plan.command, "asc");
    assert_eq!(plan.args, vec!["auth", "logout", "--all"]);
}

#[test]
fn builds_real_asc_list_apps_command() {
    let provider = AscServiceProvider;
    let plan = provider
        .build_operation(&operation(
            "list_apps",
            None,
            &[("limit", "25"), ("paginate", "true")],
        ))
        .unwrap();

    assert_eq!(plan.command, "asc");
    assert_eq!(plan.args[0], "apps");
    assert!(plan.args.contains(&"--limit".to_string()));
    assert!(plan.args.contains(&"--paginate".to_string()));
}

#[test]
fn builds_real_asc_web_auth_login_command_with_env_password() {
    let provider = AscServiceProvider;
    let plan = provider
        .build_operation(&operation(
            "web_auth_login",
            None,
            &[
                ("apple_id", "person@example.com"),
                ("password", "top-secret"),
                ("two_factor_code", "123456"),
                ("two_factor_code_command", "security find-generic-password"),
            ],
        ))
        .unwrap();

    assert_eq!(plan.command, "asc");
    assert_eq!(plan.args[0], "web");
    assert_eq!(plan.args[1], "auth");
    assert_eq!(plan.args[2], "login");
    assert!(plan.args.contains(&"--apple-id".to_string()));
    assert!(plan.args.contains(&"--two-factor-code".to_string()));
    assert!(plan.args.contains(&"123456".to_string()));
    assert!(plan.env.contains_key("ASC_WEB_PASSWORD"));
}

#[test]
fn builds_real_asc_create_app_command() {
    let provider = AscServiceProvider;
    let plan = provider
        .build_operation(&operation(
            "create_app",
            None,
            &[
                ("name", "IOSSample"),
                ("bundle_id", "com.sofintel.tests.iossample"),
                ("sku", "com.sofintel.tests.iossample"),
                ("platform", "IOS"),
                ("primary_locale", "en-US"),
            ],
        ))
        .unwrap();

    assert_eq!(plan.command, "asc");
    assert_eq!(plan.args[0], "web");
    assert_eq!(plan.args[1], "apps");
    assert_eq!(plan.args[2], "create");
    assert!(plan.args.contains(&"--bundle-id".to_string()));
    assert!(plan.args.contains(&"com.sofintel.tests.iossample".to_string()));
}

#[test]
fn builds_real_asc_list_builds_command_supports_manual_pagination() {
    let provider = AscServiceProvider;
    let plan = provider
        .build_operation(&operation(
            "list_builds",
            app_resource(),
            &[
                ("limit", "50"),
                ("next", "https://api.appstoreconnect.apple.com/v1/builds?cursor=AQ"),
                ("sort", "-uploadedDate"),
            ],
        ))
        .unwrap();

    assert_eq!(plan.command, "asc");
    assert_eq!(plan.args[0], "builds");
    assert!(plan.args.contains(&"--limit".to_string()));
    assert!(plan.args.contains(&"50".to_string()));
    assert!(plan.args.contains(&"--next".to_string()));
    assert!(plan.args.iter().any(|arg| arg.contains("cursor=AQ")));
}

#[test]
fn builds_real_asc_upload_command_from_artifact_handoff() {
    let hub = ServiceHub::default();
    let plan = hub
        .build_operation(&ServiceOperationRequest {
            provider_id: "app-store-connect".to_string(),
            operation: "upload_build".to_string(),
            resource: app_resource(),
            artifact: Some(ServiceArtifactRef {
                kind: ServiceArtifactKind::Ipa,
                path: "/tmp/Sofintel.ipa".to_string(),
            }),
            input: input(&[("version", "1.2.3"), ("build_number", "42"), ("wait", "true")]),
        })
        .unwrap();

    assert_eq!(plan.command, "asc");
    assert_eq!(plan.args[0], "builds");
    assert!(plan.args.contains(&"--ipa".to_string()));
    assert!(plan.args.contains(&"/tmp/Sofintel.ipa".to_string()));
    assert!(plan.args.contains(&"--wait".to_string()));
}

#[test]
fn builds_real_asc_create_testflight_group_command() {
    let provider = AscServiceProvider;
    let plan = provider
        .build_operation(&operation(
            "create_testflight_group",
            app_resource(),
            &[("name", "Internal Testers"), ("internal", "true")],
        ))
        .unwrap();

    assert_eq!(plan.args[0], "testflight");
    assert_eq!(plan.args[1], "groups");
    assert_eq!(plan.args[2], "create");
    assert!(plan.args.contains(&"--internal".to_string()));
}

#[test]
fn rejects_app_bundle_for_asc_upload() {
    let provider = AscServiceProvider;
    let result = provider.build_operation(&ServiceOperationRequest {
        provider_id: "app-store-connect".to_string(),
        operation: "upload_build".to_string(),
        resource: app_resource(),
        artifact: Some(ServiceArtifactRef {
            kind: ServiceArtifactKind::AppBundle,
            path: "/tmp/Sofintel.app".to_string(),
        }),
        input: StringMap::new(),
    });

    assert!(result.is_err());
}

#[test]
fn builds_real_asc_pre_release_version_command() {
    let provider = AscServiceProvider;
    let plan = provider
        .build_operation(&operation("build_pre_release_version", build_resource(), &[]))
        .unwrap();

    assert_eq!(plan.args[0], "builds");
    assert_eq!(plan.args[1], "pre-release-version");
    assert!(plan.args.contains(&"--build".to_string()));
    assert!(plan.args.contains(&"BUILD-ID".to_string()));
}

#[test]
fn builds_real_asc_build_beta_detail_command() {
    let provider = AscServiceProvider;
    let plan = provider
        .build_operation(&operation("build_beta_detail", build_resource(), &[]))
        .unwrap();

    assert_eq!(plan.args[0], "builds");
    assert_eq!(plan.args[1], "build-beta-detail");
    assert_eq!(plan.args[2], "view");
    assert!(plan.args.contains(&"--build-id".to_string()));
}

#[test]
fn builds_real_asc_build_app_store_version_link_command() {
    let provider = AscServiceProvider;
    let plan = provider
        .build_operation(&operation("build_app_store_version_link", build_resource(), &[]))
        .unwrap();

    assert_eq!(plan.args[0], "builds");
    assert_eq!(plan.args[1], "links");
    assert_eq!(plan.args[2], "view");
    assert!(plan.args.contains(&"appStoreVersion".to_string()));
}

#[test]
fn builds_real_asc_version_view_command() {
    let provider = AscServiceProvider;
    let plan = provider
        .build_operation(&operation(
            "version_view",
            Some(ServiceResourceRef {
                provider_id: "app-store-connect".to_string(),
                kind: "app_store_version".to_string(),
                external_id: "VERSION-ID".to_string(),
                label: "1.0".to_string(),
            }),
            &[],
        ))
        .unwrap();

    assert_eq!(plan.args[0], "versions");
    assert_eq!(plan.args[1], "view");
    assert!(plan.args.contains(&"--version-id".to_string()));
    assert!(plan.args.contains(&"VERSION-ID".to_string()));
}

fn workflow(name: &str, target: Option<&str>, values: &[(&str, &str)]) -> ServiceWorkflowRequest {
    ServiceWorkflowRequest {
        provider_id: "app-store-connect".to_string(),
        workflow: name.to_string(),
        target_id: target.map(|t| t.to_string()),
        resource: app_resource(),
        artifact: None,
        input: input(values),
    }
}

#[test]
fn builds_real_asc_publish_testflight_workflow() {
    let provider = AscServiceProvider;
    let plan = provider
        .build_workflow(&workflow(
            "publish_testflight",
            Some("testflight"),
            &[
                ("ipa_path", "/tmp/Sofintel.ipa"),
                ("version", "1.2.3"),
                ("group", "External Testers"),
            ],
        ))
        .unwrap();

    assert_eq!(plan.args[0], "publish");
    assert_eq!(plan.args[1], "testflight");
    assert!(plan.args.contains(&"--group".to_string()));
    assert!(plan.args.contains(&"External Testers".to_string()));
}

#[test]
fn builds_real_asc_publish_testflight_workflow_from_workspace_project() {
    let provider = AscServiceProvider;
    let plan = provider
        .build_workflow(&workflow(
            "publish_testflight",
            Some("testflight"),
            &[
                ("project_path", "/tmp/IOSSample.xcodeproj"),
                ("scheme", "IOSSample"),
                ("export_options", "/tmp/ExportOptions.plist"),
                ("group", "Internal Testers"),
                ("wait", "true"),
                ("clean", "true"),
            ],
        ))
        .unwrap();

    assert!(plan.args.contains(&"--project".to_string()));
    assert!(plan.args.contains(&"/tmp/IOSSample.xcodeproj".to_string()));
    assert!(plan.args.contains(&"--scheme".to_string()));
    assert!(plan.args.contains(&"IOSSample".to_string()));
    assert!(plan.args.contains(&"--export-options".to_string()));
    assert!(plan.args.contains(&"/tmp/ExportOptions.plist".to_string()));
    assert!(plan.args.contains(&"--wait".to_string()));
    assert!(plan.args.contains(&"--clean".to_string()));
}

#[test]
fn builds_real_asc_publish_appstore_workflow() {
    let provider = AscServiceProvider;
    let plan = provider
        .build_workflow(&workflow(
            "publish_appstore",
            Some("app_store"),
            &[
                ("ipa_path", "/tmp/Sofintel.ipa"),
                ("version", "1.2.3"),
                ("submit", "true"),
                ("confirm", "true"),
            ],
        ))
        .unwrap();

    assert_eq!(plan.args[0], "publish");
    assert_eq!(plan.args[1], "appstore");
    assert!(plan.args.contains(&"--submit".to_string()));
    assert!(plan.args.contains(&"--confirm".to_string()));
}

#[test]
fn workflow_descriptors_report_target_support() {
    let descriptor = AscServiceProvider
        .descriptor()
        .workflows
        .into_iter()
        .find(|workflow| workflow.id == "publish_testflight")
        .unwrap();

    assert_eq!(descriptor.kind, ServiceWorkflowKind::Release);
    assert!(descriptor.supports_target(Some("testflight")));
    assert!(!descriptor.supports_target(Some("app_store")));
}

#[test]
fn rejects_targeted_workflows_without_an_explicit_target() {
    let provider = AscServiceProvider;
    let error = provider
        .build_workflow(&workflow(
            "publish_testflight",
            None,
            &[("build_number", "42"), ("group", "External Testers")],
        ))
        .unwrap_err();

    assert_eq!(error, ServiceError::MissingTarget("testflight".to_string()));
}
