use service_hub::runtime_catalog::shell_escape;
use service_hub::{
    CapabilityState, DetectedProject, ExecutionRequest, ProjectCapabilities, ProjectKind,
    RootDetections, RuntimeAction, RuntimeCatalog, RuntimeDevice, RuntimeDeviceKind, RuntimeError,
    RuntimeTarget,
};

fn apple_project(kind: ProjectKind, name: &str) -> DetectedProject {
    let extension = if kind == ProjectKind::AppleWorkspace { "xcworkspace" } else { "xcodeproj" };
    DetectedProject {
        id: format!("apple:{name}"),
        label: name.to_string(),
        kind,
        workspace_root: "/tmp/ws".to_string(),
        project_path: format!("/tmp/ws/{name}.{extension}"),
        capabilities: ProjectCapabilities {
            build: CapabilityState::Available,
            run: CapabilityState::Available,
        },
        targets: vec![RuntimeTarget { id: format!("{name}-target"), label: name.to_string() }],
        devices: vec![
            RuntimeDevice {
                id: "SIM-1".to_string(),
                label: "iPhone 16".to_string(),
                kind: RuntimeDeviceKind::Simulator,
            },
            RuntimeDevice {
                id: "MAC-1".to_string(),
                label: "My Mac".to_string(),
                kind: RuntimeDeviceKind::Desktop,
            },
        ],
    }
}

fn gpui_project() -> DetectedProject {
    DetectedProject {
        id: "gpui:mini".to_string(),
        label: "mini-gpui".to_string(),
        kind: ProjectKind::GpuiApplication,
        workspace_root: "/tmp/mini".to_string(),
        project_path: "/tmp/mini/Cargo.toml".to_string(),
        capabilities: ProjectCapabilities {
            build: CapabilityState::Available,
            run: CapabilityState::Available,
        },
        targets: vec![RuntimeTarget { id: "bin:mini-gpui".to_string(), label: "mini-gpui".to_string() }],
        devices: vec![
            RuntimeDevice {
                id: "local".to_string(),
                label: "This Mac".to_string(),
                kind: RuntimeDeviceKind::Desktop,
            },
            RuntimeDevice {
                id: "sim".to_string(),
                label: "Simulator".to_string(),
                kind: RuntimeDeviceKind::Simulator,
            },
        ],
    }
}

fn request(project: &str, target: &str, device: Option<&str>, action: RuntimeAction) -> ExecutionRequest {
    ExecutionRequest {
        project_id: project.to_string(),
        target_id: target.to_string(),
        device_id: device.map(|d| d.to_string()),
        action,
    }
}

#[test]
fn builds_an_xcodebuild_plan_for_build_and_run() {
    let catalog = RuntimeCatalog { projects: vec![apple_project(ProjectKind::AppleWorkspace, "Demo")] };
    let build_plan = catalog
        .build_execution_plan(&request("apple:Demo", "Demo-target", None, RuntimeAction::Build))
        .unwrap();
    assert_eq!(build_plan.command, "zsh");
    assert_eq!(build_plan.label, "Build Demo");
    assert_eq!(build_plan.command_label, "xcodebuild Demo build");
    assert_eq!(build_plan.cwd, "/tmp/ws");
    assert_eq!(
        build_plan.args,
        vec![
            "-lc".to_string(),
            "set -euo pipefail\nxcodebuild -workspace '/tmp/ws/Demo.xcworkspace' -scheme 'Demo' build"
                .to_string()
        ]
    );

    let run_plan = catalog
        .build_execution_plan(&request("apple:Demo", "Demo-target", Some("SIM-1"), RuntimeAction::Run))
        .unwrap();
    assert_eq!(run_plan.command_label, "xcodebuild 'Demo' build and launch");
    assert!(run_plan.args[1].contains("xcrun simctl install 'SIM-1' \"$app_path\""));
    assert!(run_plan.args[1].contains("xcrun simctl launch 'SIM-1' \"$bundle_id\""));
    assert!(run_plan.args[1].contains("mkdir -p '/tmp/ws/.sofintel/app_runtime/Demo'\n"));
    assert!(run_plan.args[1].ends_with("\"$bundle_id\"\n"));
}

#[test]
fn builds_a_macos_run_plan_when_a_mac_destination_is_available() {
    let catalog = RuntimeCatalog { projects: vec![apple_project(ProjectKind::AppleProject, "Demo")] };
    let run_plan = catalog
        .build_execution_plan(&request("apple:Demo", "Demo-target", Some("MAC-1"), RuntimeAction::Run))
        .unwrap();

    assert!(run_plan.args[1].contains("-destination 'platform=macOS'"));
    assert!(run_plan.args[1].contains("open -n \"$app_path\""));
    assert!(run_plan.args[1].contains("xcodebuild -project '/tmp/ws/Demo.xcodeproj'"));
    assert_eq!(run_plan.command_label, "xcodebuild 'Demo' build and open");
}

#[test]
fn validates_that_run_requires_a_device() {
    let catalog = RuntimeCatalog { projects: vec![apple_project(ProjectKind::AppleWorkspace, "Demo")] };
    let result = catalog.build_execution_plan(&request("apple:Demo", "Demo-target", None, RuntimeAction::Run));

    assert_eq!(result, Err(RuntimeError::DeviceRequired));
}

#[test]
fn reports_each_execution_error() {
    let mut project = apple_project(ProjectKind::AppleWorkspace, "Demo");
    project.capabilities.build = CapabilityState::RequiresSetup { reason: "xcodebuild missing".to_string() };
    let catalog = RuntimeCatalog { projects: vec![project, gpui_project()] };

    assert_eq!(
        catalog.build_execution_plan(&request("nope", "Demo-target", None, RuntimeAction::Build)),
        Err(RuntimeError::ProjectNotFound("nope".to_string()))
    );
    assert_eq!(
        catalog.build_execution_plan(&request("apple:Demo", "nope", None, RuntimeAction::Build)),
        Err(RuntimeError::TargetNotFound("nope".to_string()))
    );
    assert_eq!(
        catalog.build_execution_plan(&request("apple:Demo", "Demo-target", None, RuntimeAction::Build)),
        Err(RuntimeError::ActionUnavailable(RuntimeAction::Build, "xcodebuild missing".to_string()))
    );
    assert_eq!(
        catalog.build_execution_plan(&request("apple:Demo", "Demo-target", Some("X"), RuntimeAction::Run)),
        Err(RuntimeError::DeviceNotFound("X".to_string()))
    );
    assert_eq!(
        catalog.build_execution_plan(&request("gpui:mini", "bin:mini-gpui", Some("sim"), RuntimeAction::Run)),
        Err(RuntimeError::UnsupportedDeviceKind)
    );
}

#[test]
fn builds_cargo_plans_for_gpui_targets() {
    let catalog = RuntimeCatalog { projects: vec![gpui_project()] };
    let build_plan = catalog
        .build_execution_plan(&request("gpui:mini", "bin:mini-gpui", None, RuntimeAction::Build))
        .unwrap();
    assert_eq!(build_plan.command, "cargo");
    assert_eq!(build_plan.args, vec!["build", "--manifest-path", "/tmp/mini/Cargo.toml", "--bin", "mini-gpui"]);
    assert_eq!(build_plan.command_label, "cargo build --bin mini-gpui");
    assert_eq!(build_plan.cwd, "/tmp/mini");

    let run_plan = catalog
        .build_execution_plan(&request("gpui:mini", "bin:mini-gpui", Some("local"), RuntimeAction::Run))
        .unwrap();
    assert_eq!(run_plan.command, "cargo");
    assert_eq!(run_plan.args[0], "run");
    assert_eq!(run_plan.label, "Run mini-gpui");
}

#[test]
fn derived_data_replaces_slashes_in_the_target() {
    let mut project = apple_project(ProjectKind::AppleWorkspace, "Demo");
    project.targets[0].label = "Team/App".to_string();
    project.workspace_root = "/tmp/ws/".to_string();
    let catalog = RuntimeCatalog { projects: vec![project] };
    let plan = catalog
        .build_execution_plan(&request("apple:Demo", "Demo-target", Some("MAC-1"), RuntimeAction::Run))
        .unwrap();
    assert!(plan.args[1].contains("mkdir -p '/tmp/ws/.sofintel/app_runtime/Team-App'\n"));
}

#[test]
fn shell_escape_quotes_single_quotes() {
    assert_eq!(shell_escape("plain"), "'plain'");
    assert_eq!(shell_escape("it's"), "'it'\\''s'");
    assert_eq!(shell_escape(""), "''");
}

#[test]
fn discover_keeps_the_order_of_roots_and_providers() {
    let catalog = RuntimeCatalog::discover(vec![
        vec![apple_project(ProjectKind::AppleWorkspace, "ios-sample"), apple_project(ProjectKind::AppleWorkspace, "mac-sample")],
        vec![gpui_project()],
        vec![],
    ]);
    let labels: Vec<String> = catalog.projects.iter().map(|p| p.label.clone()).collect();
    assert_eq!(labels, vec!["ios-sample", "mac-sample", "mini-gpui"]);
    assert!(catalog.projects[0].capabilities.build.is_available());
    assert!(RuntimeCatalog::default().projects.is_empty());
}

#[test]
fn discovering_roots_lists_apple_before_gpui_root_by_root() {
    let first = RootDetections {
        apple: vec![apple_project(ProjectKind::AppleWorkspace, "ios-sample")],
        gpui: vec![gpui_project()],
    };
    let second = RootDetections {
        apple: vec![apple_project(ProjectKind::AppleProject, "mac-sample")],
        gpui: Vec::new(),
    };
    let both = RuntimeCatalog::discover_roots(vec![first.clone(), second.clone()]);
    let labels: Vec<String> = both.projects.iter().map(|p| p.label.clone()).collect();
    assert_eq!(labels, vec!["ios-sample", "mini-gpui", "mac-sample"]);
    let mut joined = RuntimeCatalog::discover_roots(vec![first]).projects;
    joined.extend(RuntimeCatalog::discover_roots(vec![second]).projects);
    assert_eq!(both.projects, joined);
    assert!(RuntimeCatalog::discover_roots(Vec::new()).projects.is_empty());
}
