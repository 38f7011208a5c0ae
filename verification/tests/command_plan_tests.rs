use service_hub::{
    AscServiceProvider, ServiceArtifactKind, ServiceArtifactRef, ServiceAuthAction,
    ServiceAuthActionRequest, ServiceError, ServiceHub, ServiceOperationRequest, ServiceProvider,
    ServiceResourceRef, ServiceWorkflowRequest, StringMap, StringSet,
};

fn input(pairs: &[(&str, &str)]) -> StringMap {
    let mut map = StringMap::new();
    for (key, value) in pairs {
        map.insert(key.to_string(), value.to_string());
    }
    map
}

fn resource(kind: &str) -> Option<ServiceResourceRef> {
    Some(ServiceResourceRef {
        provider_id: "app-store-connect".to_string(),
        kind: kind.to_string(),
        external_id: "ID-1".to_string(),
        label: "Sofintel".to_string(),
    })
}

fn operation(name: &str, resource: Option<ServiceResourceRef>, values: &[(&str, &str)]) -> ServiceOperationRequest {
    ServiceOperationRequest {
        provider_id: "app-store-connect".to_string(),
        operation: name.to_string(),
        resource,
        artifact: None,
        input: input(values),
    }
}

fn workflow(name: &str, target: Option<&str>, values: &[(&str, &str)]) -> ServiceWorkflowRequest {
    ServiceWorkflowRequest {
        provider_id: "app-store-connect".to_string(),
        workflow: name.to_string(),
        target_id: target.map(|t| t.to_string()),
        resource: resource("app"),
        artifact: None,
        input: input(values),
    }
}

#[test]
fn hub_rejects_unknown_providers() {
    let hub = ServiceHub::default();
    let mut request = operation("auth_status", None, &[]);
    request.provider_id = "vercel".to_string();
    assert_eq!(
        hub.build_operation(&request).unwrap_err(),
        ServiceError::UnknownProvider("vercel".to_string())
    );
    assert_eq!(hub.providers().len(), 1);
    assert_eq!(hub.providers()[0].id, "app-store-connect");
}

#[test]
fn provider_rejects_unknown_operations_and_workflows() {
    let provider = AscServiceProvider;
    assert_eq!(
        provider.build_operation(&operation("delete_everything", None, &[])).unwrap_err(),
        ServiceError::UnsupportedOperation("delete_everything".to_string())
    );
    assert_eq!(
        provider.build_workflow(&workflow("deploy", Some("testflight"), &[])).unwrap_err(),
        ServiceError::UnsupportedWorkflow("deploy".to_string())
    );
}

#[test]
fn list_builds_has_exact_arguments_and_label() {
    let plan = AscServiceProvider
        .build_operation(&operation(
            "list_builds",
            resource("app"),
            &[("version", " 1.0 "), ("paginate", "true"), ("processing_state", "VALID")],
        ))
        .unwrap();
    assert_eq!(
        plan.args,
        vec![
            "builds", "list", "--app", "ID-1", "--output", "json", "--pretty", "--version",
            " 1.0 ", "--processing-state", "VALID", "--paginate"
        ]
    );
    assert_eq!(plan.label, "List ASC builds for Sofintel");
    assert_eq!(plan.cwd, None);
}

#[test]
fn resource_checks_report_missing_and_wrong_kinds() {
    let provider = AscServiceProvider;
    assert_eq!(
        provider.build_operation(&operation("list_builds", None, &[])).unwrap_err(),
        ServiceError::MissingInput("app")
    );
    assert_eq!(
        provider.build_operation(&operation("version_view", None, &[])).unwrap_err(),
        ServiceError::MissingInput("version")
    );
    assert_eq!(
        provider.build_operation(&operation("build_beta_detail", resource("app"), &[])).unwrap_err(),
        ServiceError::UnexpectedResourceKind { expected: "build".to_string(), actual: "app".to_string() }
    );
}

#[test]
fn trimmed_inputs_drop_blank_values() {
    let plan = AscServiceProvider
        .build_operation(&operation(
            "web_auth_status",
            None,
            &[("apple_id", "   ")],
        ))
        .unwrap();
    assert_eq!(plan.args, vec!["web", "auth", "status", "--output", "json", "--pretty"]);
    let plan = AscServiceProvider
        .build_operation(&operation(
            "web_auth_status",
            None,
            &[("apple_id", "  me@example.com\t")],
        ))
        .unwrap();
    assert_eq!(plan.args[6], "--apple-id");
    assert_eq!(plan.args[7], "me@example.com");
    assert_eq!(
        AscServiceProvider
            .build_operation(&operation("web_auth_login", None, &[("apple_id", " ")]))
            .unwrap_err(),
        ServiceError::MissingInput("apple_id")
    );
}

#[test]
fn create_app_reports_the_first_missing_field_and_labels_the_app() {
    let provider = AscServiceProvider;
    assert_eq!(
        provider.build_operation(&operation("create_app", None, &[("name", "App")])).unwrap_err(),
        ServiceError::MissingInput("bundle_id")
    );
    let plan = provider
        .build_operation(&operation(
            "create_app",
            None,
            &[("name", " App "), ("bundle_id", "com.a"), ("sku", "sku"), ("password", "pw")],
        ))
        .unwrap();
    assert_eq!(plan.label, "Create App Store Connect app App");
    assert_eq!(plan.env.get("ASC_WEB_PASSWORD").map(String::as_str), Some("pw"));
}

#[test]
fn authenticate_requires_each_credential() {
    let hub = ServiceHub::default();
    let error = hub
        .build_auth_action(&ServiceAuthActionRequest {
            provider_id: "app-store-connect".to_string(),
            action: ServiceAuthAction::Authenticate,
            input: input(&[("profile_name", "P"), ("key_id", "K"), ("private_key_path", "/k.p8")]),
        })
        .unwrap_err();
    assert_eq!(error, ServiceError::MissingInput("issuer_id"));
}

#[test]
fn upload_build_handles_each_artifact_kind() {
    let provider = AscServiceProvider;
    let mut request = operation("upload_build", resource("app"), &[]);
    assert_eq!(provider.build_operation(&request).unwrap_err(), ServiceError::ArtifactRequired);
    request.artifact = Some(ServiceArtifactRef { kind: ServiceArtifactKind::Pkg, path: "/tmp/A.pkg".to_string() });
    let plan = provider.build_operation(&request).unwrap();
    assert_eq!(
        plan.args,
        vec![
            "builds", "upload", "--app", "ID-1", "--pkg", "/tmp/A.pkg", "--output", "json",
            "--pretty", "--platform", "MAC_OS"
        ]
    );
    request.artifact = Some(ServiceArtifactRef { kind: ServiceArtifactKind::Binary, path: "/tmp/a".to_string() });
    assert_eq!(
        provider.build_operation(&request).unwrap_err(),
        ServiceError::UnexpectedArtifactKind { expected: "ipa or pkg".to_string(), actual: "binary".to_string() }
    );
}

#[test]
fn testflight_workflow_validates_its_sources() {
    let provider = AscServiceProvider;
    assert_eq!(
        provider.build_workflow(&workflow("publish_testflight", Some("app_store"), &[])).unwrap_err(),
        ServiceError::UnexpectedTarget { expected: "testflight".to_string(), actual: "app_store".to_string() }
    );
    assert_eq!(
        provider.build_workflow(&workflow("publish_testflight", Some("testflight"), &[])).unwrap_err(),
        ServiceError::MissingInput("group")
    );
    assert_eq!(
        provider
            .build_workflow(&workflow("publish_testflight", Some("testflight"), &[("group", "G")]))
            .unwrap_err(),
        ServiceError::InvalidInput(
            "Publish to TestFlight requires an IPA path, an existing build, a build number, or a workspace project.".to_string()
        )
    );
    assert_eq!(
        provider
            .build_workflow(&workflow(
                "publish_testflight",
                Some("testflight"),
                &[("group", "G"), ("project_path", "/p"), ("workspace_path", "/w")]
            ))
            .unwrap_err(),
        ServiceError::InvalidInput(
            "Publish to TestFlight accepts either a project path or a workspace path, not both.".to_string()
        )
    );
    assert_eq!(
        provider
            .build_workflow(&workflow("publish_testflight", Some("testflight"), &[("group", "G"), ("workspace_path", "/w")]))
            .unwrap_err(),
        ServiceError::InvalidInput(
            "Publish to TestFlight requires a scheme when using a workspace project.".to_string()
        )
    );
    let plan = provider
        .build_workflow(&workflow(
            "publish_testflight",
            Some("testflight"),
            &[("group", " G "), ("build_id", "B"), ("notify", "true"), ("configuration", "Release")],
        ))
        .unwrap();
    assert_eq!(
        plan.args,
        vec![
            "publish", "testflight", "--app", "ID-1", "--group", "G", "--output", "json",
            "--pretty", "--build", "B", "--notify", "--configuration", "Release"
        ]
    );
    assert_eq!(plan.label, "Publish Sofintel to TestFlight");
}

#[test]
fn appstore_workflow_requires_confirmation_to_submit() {
    let provider = AscServiceProvider;
    assert_eq!(
        provider
            .build_workflow(&workflow("publish_appstore", Some("app_store"), &[("ipa_path", "/a.ipa"), ("submit", "true")]))
            .unwrap_err(),
        ServiceError::InvalidInput(
            "Confirm Submission must be enabled when Submit For Review is selected.".to_string()
        )
    );
    assert_eq!(
        provider.build_workflow(&workflow("publish_appstore", Some("app_store"), &[])).unwrap_err(),
        ServiceError::MissingInput("ipa_path")
    );
    assert_eq!(
        provider.build_workflow(&workflow("publish_appstore", None, &[])).unwrap_err(),
        ServiceError::MissingTarget("app_store".to_string())
    );
    let plan = provider
        .build_workflow(&workflow(
            "publish_appstore",
            Some("app_store"),
            &[("project_path", "/p.xcodeproj"), ("scheme", "S"), ("submit", "false")],
        ))
        .unwrap();
    assert_eq!(
        plan.args,
        vec![
            "publish", "appstore", "--app", "ID-1", "--output", "json", "--pretty", "--project",
            "/p.xcodeproj", "--scheme", "S"
        ]
    );
    assert_eq!(plan.label, "Publish Sofintel to the App Store");
}

#[test]
fn string_map_reads_back_what_was_written() {
    let mut map = StringMap::new();
    assert!(!map.contains_key("a"));
    map.insert("a".to_string(), "1".to_string());
    map.insert("b".to_string(), "2".to_string());
    map.insert("a".to_string(), "3".to_string());
    assert_eq!(map.get("a").map(String::as_str), Some("3"));
    assert_eq!(map.get("b").map(String::as_str), Some("2"));
    assert_eq!(map.get("c"), None);
    assert_eq!(map.pairs().len(), 2);
    let copy = map.clone();
    assert_eq!(copy.get("a").map(String::as_str), Some("3"));
}

#[test]
fn string_set_holds_each_item_once() {
    let mut set = StringSet::new();
    assert!(set.is_empty());
    set.insert("x".to_string());
    set.insert("x".to_string());
    assert!(!set.is_empty());
    assert!(set.contains("x"));
    assert!(!set.contains("y"));
    assert_eq!(set.items().len(), 1);
}

#[test]
fn a_workflow_without_targets_supports_any_target() {
    let mut descriptor = AscServiceProvider.descriptor().workflows.remove(1);
    assert!(descriptor.supports_target(Some("app_store")));
    assert!(!descriptor.supports_target(None));
    descriptor.target_ids = StringSet::new();
    assert!(descriptor.supports_target(None));
    assert!(descriptor.supports_target(Some("anything")));
}
