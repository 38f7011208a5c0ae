//! What the App Store Connect provider advertises: its shell, its
//! authentication actions, its targets and its workflows.
use vstd::prelude::*;
use crate::service_types::{
    ServiceAuthAction, ServiceAuthActionDescriptor, ServiceAuthConfiguration, ServiceAuthKind,
    ServiceInputDescriptor, ServiceInputKind, ServiceNavigationItemDescriptor,
    ServiceProviderDescriptor, ServiceResourceKindDescriptor, ServiceShellDescriptor,
    ServiceTargetDescriptor, ServiceWorkflowDescriptor, ServiceWorkflowKind, opt_view,
};
use crate::string_map::StringSet;
use crate::text::owned;

verus! {

/// The view of an optional string slice.
pub open spec fn opt_str_view(o: Option<&str>) -> Option<Seq<char>> {
    match o {
        Some(s) => Some(s@),
        None => None,
    }
}

/// `i` describes the input `key` with these attributes.
pub open spec fn input_is(
    i: ServiceInputDescriptor,
    key: Seq<char>,
    label: Seq<char>,
    kind: ServiceInputKind,
    required: bool,
    placeholder: Option<Seq<char>>,
    help: Option<Seq<char>>,
) -> bool {
    &&& i.key@ == key
    &&& i.label@ == label
    &&& i.kind == kind
    &&& i.required == required
    &&& opt_view(i.placeholder) == placeholder
    &&& opt_view(i.help) == help
}

fn input(
    key: &str,
    label: &str,
    kind: ServiceInputKind,
    required: bool,
    placeholder: Option<&str>,
    help: Option<&str>,
) -> (i: ServiceInputDescriptor)
    ensures
        input_is(i, key@, label@, kind, required, opt_str_view(placeholder), opt_str_view(help)),
{
    ServiceInputDescriptor {
        key: owned(key),
        label: owned(label),
        kind,
        required,
        placeholder: match placeholder {
            Some(p) => Some(owned(p)),
            None => None,
        },
        help: match help {
            Some(h) => Some(owned(h)),
            None => None,
        },
    }
}

/// The inputs of the Authenticate action.
pub open spec fn authenticate_inputs_are(inputs: Seq<ServiceInputDescriptor>) -> bool {
    &&& inputs.len() == 6
    &&& input_is(
        inputs[0],
        "profile_name"@,
        "Profile Name"@,
        ServiceInputKind::Text,
        true,
        Some("Personal"@),
        Some("Friendly label used for the stored App Store Connect credential."@),
    )
    &&& input_is(
        inputs[1],
        "key_id"@,
        "Key ID"@,
        ServiceInputKind::Text,
        true,
        Some("ABC123"@),
        None,
    )
    &&& input_is(
        inputs[2],
        "issuer_id"@,
        "Issuer ID"@,
        ServiceInputKind::Text,
        true,
        Some("00000000-0000-0000-0000-000000000000"@),
        None,
    )
    &&& input_is(
        inputs[3],
        "private_key_path"@,
        "Private Key"@,
        ServiceInputKind::FilePath,
        true,
        Some("/path/to/AuthKey_ABC123.p8"@),
        Some("Choose the downloaded App Store Connect API key file."@),
    )
    &&& input_is(
        inputs[4],
        "repo_local"@,
        "Store In Repository"@,
        ServiceInputKind::Toggle,
        false,
        None,
        Some("Store credentials in ./.asc/config.json instead of the system keychain."@),
    )
    &&& input_is(
        inputs[5],
        "validate_network"@,
        "Validate Network Access"@,
        ServiceInputKind::Toggle,
        false,
        None,
        Some("Run a lightweight App Store Connect request during authentication."@),
    )
}

fn authenticate_inputs() -> (v: Vec<ServiceInputDescriptor>)
    ensures
        authenticate_inputs_are(v@),
{
    let mut v: Vec<ServiceInputDescriptor> = Vec::new();
    v.push(
        input(
            "profile_name",
            "Profile Name",
            ServiceInputKind::Text,
            true,
            Some("Personal"),
            Some("Friendly label used for the stored App Store Connect credential."),
        ),
    );
    v.push(input("key_id", "Key ID", ServiceInputKind::Text, true, Some("ABC123"), None));
    v.push(
        input(
            "issuer_id",
            "Issuer ID",
            ServiceInputKind::Text,
            true,
            Some("00000000-0000-0000-0000-000000000000"),
            None,
        ),
    );
    v.push(
        input(
            "private_key_path",
            "Private Key",
            ServiceInputKind::FilePath,
            true,
            Some("/path/to/AuthKey_ABC123.p8"),
            Some("Choose the downloaded App Store Connect API key file."),
        ),
    );
    v.push(
        input(
            "repo_local",
            "Store In Repository",
            ServiceInputKind::Toggle,
            false,
            None,
            Some("Store credentials in ./.asc/config.json instead of the system keychain."),
        ),
    );
    v.push(
        input(
            "validate_network",
            "Validate Network Access",
            ServiceInputKind::Toggle,
            false,
            None,
            Some("Run a lightweight App Store Connect request during authentication."),
        ),
    );
    v
}

/// The authentication configuration of App Store Connect: an API key that
/// can be registered and removed.
pub open spec fn asc_auth_is(a: ServiceAuthConfiguration) -> bool {
    &&& a.kind == ServiceAuthKind::ApiKey
    &&& a.actions@.len() == 2
    &&& a.actions@[0].action == ServiceAuthAction::Authenticate
    &&& a.actions@[0].label@ == "Authenticate"@
    &&& a.actions@[0].description@
        == "Register an App Store Connect API key for this machine or repository."@
    &&& authenticate_inputs_are(a.actions@[0].inputs@)
    &&& a.actions@[1].action == ServiceAuthAction::Logout
    &&& a.actions@[1].label@ == "Log Out"@
    &&& a.actions@[1].description@ == "Remove stored App Store Connect credentials."@
    &&& a.actions@[1].inputs@.len() == 0
}

fn asc_auth() -> (a: ServiceAuthConfiguration)
    ensures
        asc_auth_is(a),
{
    let mut actions: Vec<ServiceAuthActionDescriptor> = Vec::new();
    actions.push(
        ServiceAuthActionDescriptor {
            action: ServiceAuthAction::Authenticate,
            label: owned("Authenticate"),
            description: owned(
                "Register an App Store Connect API key for this machine or repository.",
            ),
            inputs: authenticate_inputs(),
        },
    );
    actions.push(
        ServiceAuthActionDescriptor {
            action: ServiceAuthAction::Logout,
            label: owned("Log Out"),
            description: owned("Remove stored App Store Connect credentials."),
            inputs: Vec::new(),
        },
    );
    ServiceAuthConfiguration { kind: ServiceAuthKind::ApiKey, actions }
}

/// The shell of the App Store Connect pages: apps, and three sections.
pub open spec fn asc_shell_is(s: ServiceShellDescriptor) -> bool {
    &&& s.resource_kind matches Some(k) && k.singular_label@ == "App"@ && k.plural_label@
        == "Apps"@
    &&& s.navigation_items@.len() == 3
    &&& s.navigation_items@[0].id@ == "overview"@
    &&& s.navigation_items@[0].label@ == "Overview"@
    &&& s.navigation_items@[1].id@ == "builds"@
    &&& s.navigation_items@[1].label@ == "Builds"@
    &&& s.navigation_items@[2].id@ == "release"@
    &&& s.navigation_items@[2].label@ == "Release"@
    &&& s.default_navigation_item_id@ == "overview"@
}

fn nav_item(id: &str, label: &str) -> (n: ServiceNavigationItemDescriptor)
    ensures
        n.id@ == id@,
        n.label@ == label@,
{
    ServiceNavigationItemDescriptor { id: owned(id), label: owned(label) }
}

fn asc_shell() -> (s: ServiceShellDescriptor)
    ensures
        asc_shell_is(s),
{
    let mut items: Vec<ServiceNavigationItemDescriptor> = Vec::new();
    items.push(nav_item("overview", "Overview"));
    items.push(nav_item("builds", "Builds"));
    items.push(nav_item("release", "Release"));
    ServiceShellDescriptor {
        resource_kind: Some(
            ServiceResourceKindDescriptor {
                singular_label: owned("App"),
                plural_label: owned("Apps"),
            },
        ),
        navigation_items: items,
        default_navigation_item_id: owned("overview"),
    }
}

/// The release targets: TestFlight and the App Store.
pub open spec fn asc_targets_are(t: Seq<ServiceTargetDescriptor>) -> bool {
    &&& t.len() == 2
    &&& t[0].id@ == "testflight"@
    &&& t[0].label@ == "TestFlight"@
    &&& opt_view(t[0].detail) == Some("Distribute a build to TestFlight beta groups."@)
    &&& t[1].id@ == "app_store"@
    &&& t[1].label@ == "App Store"@
    &&& opt_view(t[1].detail) == Some("Attach a build to an App Store version and submit it."@)
}

fn asc_targets() -> (t: Vec<ServiceTargetDescriptor>)
    ensures
        asc_targets_are(t@),
{
    let mut t: Vec<ServiceTargetDescriptor> = Vec::new();
    t.push(
        ServiceTargetDescriptor {
            id: owned("testflight"),
            label: owned("TestFlight"),
            detail: Some(owned("Distribute a build to TestFlight beta groups.")),
        },
    );
    t.push(
        ServiceTargetDescriptor {
            id: owned("app_store"),
            label: owned("App Store"),
            detail: Some(owned("Attach a build to an App Store version and submit it.")),
        },
    );
    t
}

/// The TestFlight publishing workflow.
pub open spec fn testflight_workflow_is(w: ServiceWorkflowDescriptor) -> bool {
    &&& w.id@ == "publish_testflight"@
    &&& w.label@ == "Publish to TestFlight"@
    &&& w.detail@ == "Upload or select a build and distribute it to beta groups."@
    &&& w.kind == ServiceWorkflowKind::Release
    &&& opt_view(w.resource_kind) == Some("app"@)
    &&& w.target_ids@ == Set::<Seq<char>>::empty().insert("testflight"@)
    &&& w.inputs@.len() == 4
    &&& input_is(
        w.inputs@[0],
        "ipa_path"@,
        "IPA Path"@,
        ServiceInputKind::FilePath,
        false,
        Some("./build/Sofintel.ipa"@),
        Some(
            "Provide an .ipa to upload. Leave blank when distributing an existing build number."@,
        ),
    )
    &&& input_is(
        w.inputs@[1],
        "build_number"@,
        "Build Number"@,
        ServiceInputKind::Text,
        false,
        Some("42"@),
        Some("Distribute an existing build by CFBundleVersion when no IPA is provided."@),
    )
    &&& input_is(
        w.inputs@[2],
        "version"@,
        "Version"@,
        ServiceInputKind::Text,
        false,
        Some("1.2.3"@),
        Some(
            "Optional when uploading an IPA. The CLI auto-detects it from the archive when omitted."@,
        ),
    )
    &&& input_is(
        w.inputs@[3],
        "group"@,
        "Beta Groups"@,
        ServiceInputKind::Text,
        true,
        Some("External Testers"@),
        Some(
            "Comma-separated TestFlight group names or IDs. Required by asc publish testflight."@,
        ),
    )
}

fn single_target(id: &str) -> (s: StringSet)
    ensures
        s@ == Set::<Seq<char>>::empty().insert(id@),
{
    let mut s = StringSet::new();
    s.insert(owned(id));
    s
}

fn testflight_workflow() -> (w: ServiceWorkflowDescriptor)
    ensures
        testflight_workflow_is(w),
{
    let mut inputs: Vec<ServiceInputDescriptor> = Vec::new();
    inputs.push(
        input(
            "ipa_path",
            "IPA Path",
            ServiceInputKind::FilePath,
            false,
            Some("./build/Sofintel.ipa"),
            Some(
                "Provide an .ipa to upload. Leave blank when distributing an existing build number.",
            ),
        ),
    );
    inputs.push(
        input(
            "build_number",
            "Build Number",
            ServiceInputKind::Text,
            false,
            Some("42"),
            Some("Distribute an existing build by CFBundleVersion when no IPA is provided."),
        ),
    );
    inputs.push(
        input(
            "version",
            "Version",
            ServiceInputKind::Text,
            false,
            Some("1.2.3"),
            Some(
                "Optional when uploading an IPA. The CLI auto-detects it from the archive when omitted.",
            ),
        ),
    );
    inputs.push(
        input(
            "group",
            "Beta Groups",
            ServiceInputKind::Text,
            true,
            Some("External Testers"),
            Some(
                "Comma-separated TestFlight group names or IDs. Required by asc publish testflight.",
            ),
        ),
    );
    ServiceWorkflowDescriptor {
        id: owned("publish_testflight"),
        label: owned("Publish to TestFlight"),
        detail: owned("Upload or select a build and distribute it to beta groups."),
        kind: ServiceWorkflowKind::Release,
        resource_kind: Some(owned("app")),
        target_ids: single_target("testflight"),
        inputs,
    }
}

/// The App Store publishing workflow.
pub open spec fn appstore_workflow_is(w: ServiceWorkflowDescriptor) -> bool {
    &&& w.id@ == "publish_appstore"@
    &&& w.label@ == "Publish to App Store"@
    &&& w.detail@ == "Upload an IPA, attach it to an App Store version, and optionally submit it."@
    &&& w.kind == ServiceWorkflowKind::Release
    &&& opt_view(w.resource_kind) == Some("app"@)
    &&& w.target_ids@ == Set::<Seq<char>>::empty().insert("app_store"@)
    &&& w.inputs@.len() == 5
    &&& input_is(
        w.inputs@[0],
        "ipa_path"@,
        "IPA Path"@,
        ServiceInputKind::FilePath,
        true,
        Some("./build/Sofintel.ipa"@),
        Some("Path to the built .ipa archive to upload."@),
    )
    &&& input_is(
        w.inputs@[1],
        "version"@,
        "Version"@,
        ServiceInputKind::Text,
        false,
        Some("1.2.3"@),
        Some("Optional. The CLI auto-detects the version from the IPA when left blank."@),
    )
    &&& input_is(
        w.inputs@[2],
        "build_number"@,
        "Build Number"@,
        ServiceInputKind::Text,
        false,
        Some("42"@),
        Some("Optional. The CLI auto-detects the build number from the IPA when left blank."@),
    )
    &&& input_is(
        w.inputs@[3],
        "submit"@,
        "Submit For Review"@,
        ServiceInputKind::Toggle,
        false,
        None,
        Some(
            "Attach the build only when disabled. Enable to submit the prepared version for review."@,
        ),
    )
    &&& input_is(
        w.inputs@[4],
        "confirm"@,
        "Confirm Submission"@,
        ServiceInputKind::Toggle,
        false,
        None,
        Some("Required when Submit For Review is enabled."@),
    )
}

fn appstore_workflow() -> (w: ServiceWorkflowDescriptor)
    ensures
        appstore_workflow_is(w),
{
    let mut inputs: Vec<ServiceInputDescriptor> = Vec::new();
    inputs.push(
        input(
            "ipa_path",
            "IPA Path",
            ServiceInputKind::FilePath,
            true,
            Some("./build/Sofintel.ipa"),
            Some("Path to the built .ipa archive to upload."),
        ),
    );
    inputs.push(
        input(
            "version",
            "Version",
            ServiceInputKind::Text,
            false,
            Some("1.2.3"),
            Some("Optional. The CLI auto-detects the version from the IPA when left blank."),
        ),
    );
    inputs.push(
        input(
            "build_number",
            "Build Number",
            ServiceInputKind::Text,
            false,
            Some("42"),
            Some("Optional. The CLI auto-detects the build number from the IPA when left blank."),
        ),
    );
    inputs.push(
        input(
            "submit",
            "Submit For Review",
            ServiceInputKind::Toggle,
            false,
            None,
            Some(
                "Attach the build only when disabled. Enable to submit the prepared version for review.",
            ),
        ),
    );
    inputs.push(
        input(
            "confirm",
            "Confirm Submission",
            ServiceInputKind::Toggle,
            false,
            None,
            Some("Required when Submit For Review is enabled."),
        ),
    );
    ServiceWorkflowDescriptor {
        id: owned("publish_appstore"),
        label: owned("Publish to App Store"),
        detail: owned("Upload an IPA, attach it to an App Store version, and optionally submit it."),
        kind: ServiceWorkflowKind::Release,
        resource_kind: Some(owned("app")),
        target_ids: single_target("app_store"),
        inputs,
    }
}

/// Everything the App Store Connect provider advertises.
pub open spec fn is_asc_descriptor(d: ServiceProviderDescriptor) -> bool {
    &&& d.id@ == "app-store-connect"@
    &&& d.label@ == "App Store Connect"@
    &&& opt_view(d.logo_asset_path) == Some("images/asc_logo.png"@)
    &&& asc_shell_is(d.shell)
    &&& d.auth_kind == ServiceAuthKind::ApiKey
    &&& d.auth matches Some(a) && asc_auth_is(a)
    &&& asc_targets_are(d.targets@)
    &&& d.workflows@.len() == 2
    &&& testflight_workflow_is(d.workflows@[0])
    &&& appstore_workflow_is(d.workflows@[1])
}

/// Builds the App Store Connect provider's descriptor.
pub fn asc_descriptor() -> (d: ServiceProviderDescriptor)
    ensures
        is_asc_descriptor(d),
{
    let mut workflows: Vec<ServiceWorkflowDescriptor> = Vec::new();
    workflows.push(testflight_workflow());
    workflows.push(appstore_workflow());
    ServiceProviderDescriptor {
        id: owned("app-store-connect"),
        label: owned("App Store Connect"),
        logo_asset_path: Some(owned("images/asc_logo.png")),
        shell: asc_shell(),
        auth_kind: ServiceAuthKind::ApiKey,
        auth: Some(asc_auth()),
        targets: asc_targets(),
        workflows,
    }
}

} // verus!
