use service_hub::presentation::{
    about_version_label, bookmark_title, onboarding_section_title, ServiceHubOnboarding,
    single_instance_port, ReleaseChannel,
};
use service_hub::{
    AscServiceProvider, ServiceAuthKind, ServiceNavigationItemDescriptor, ServiceProvider,
    ServiceProviderDescriptor, ServiceResourceKindDescriptor, ServiceShellDescriptor,
};

fn test_provider(
    id: &str,
    auth_kind: ServiceAuthKind,
    logo_asset_path: Option<&str>,
) -> ServiceProviderDescriptor {
    ServiceProviderDescriptor {
        id: id.to_string(),
        label: id.to_string(),
        logo_asset_path: logo_asset_path.map(ToString::to_string),
        shell: ServiceShellDescriptor {
            resource_kind: None,
            navigation_items: vec![ServiceNavigationItemDescriptor {
                id: "overview".to_string(),
                label: "Overview".to_string(),
            }],
            default_navigation_item_id: "overview".to_string(),
        },
        auth_kind,
        auth: None,
        targets: Vec::new(),
        workflows: Vec::new(),
    }
}

#[test]
fn app_store_connect_presentation_mentions_cli_requirement() {
    let presentation =
        ServiceHubOnboarding::presentation(&test_provider("app-store-connect", ServiceAuthKind::ApiKey, None));

    assert!(presentation.description.contains("ASC CLI"));
    assert!(presentation
        .highlights
        .iter()
        .any(|highlight| highlight.contains("Install ASC CLI")));
}

#[test]
fn other_providers_get_a_generic_presentation() {
    let mut provider = test_provider("vercel", ServiceAuthKind::NoAuth, None);
    let presentation = ServiceHubOnboarding::presentation(&provider);
    assert_eq!(presentation.description, "Bring your vercel work into Sofintel.");
    assert_eq!(
        presentation.highlights,
        vec![
            "Open your connected work",
            "Keep the important status in one place",
            "Jump in right away"
        ]
    );
    assert_eq!(presentation.open_label, "Open vercel");

    provider.shell.resource_kind = Some(ServiceResourceKindDescriptor {
        singular_label: "Project".to_string(),
        plural_label: "Projects".to_string(),
    });
    provider.auth_kind = ServiceAuthKind::OAuth;
    provider.workflows = AscServiceProvider.descriptor().workflows;
    let presentation = ServiceHubOnboarding::presentation(&provider);
    assert_eq!(
        presentation.highlights,
        vec![
            "Browse Projects",
            "Run the next step without leaving Sofintel",
            "Connect your account when you are ready"
        ]
    );
}

#[test]
fn section_title_and_about_label() {
    assert_eq!(onboarding_section_title(1), "Start Here");
    assert_eq!(onboarding_section_title(2), "Providers");
    assert_eq!(about_version_label("1.0.3", ""), "1.0.3 ");
    assert_eq!(about_version_label("1.0.3", "abc123"), "1.0.3 (abc123)");
}

#[test]
fn bookmark_titles_fall_back_to_the_address() {
    assert_eq!(bookmark_title("sofintel://newtab", "New Tab"), None);
    assert_eq!(bookmark_title("", "x"), None);
    assert_eq!(
        bookmark_title("https://www.example.com/a", "").as_deref(),
        Some("example.com/a")
    );
    assert_eq!(
        bookmark_title("http://example.com", "New Tab").as_deref(),
        Some("example.com")
    );
    assert_eq!(
        bookmark_title("ftp://example.com", "").as_deref(),
        Some("ftp://example.com")
    );
    assert_eq!(
        bookmark_title("https://example.com", "Example").as_deref(),
        Some("Example")
    );
}

#[test]
fn single_instance_ports_are_spread_by_channel_and_user() {
    assert_eq!(single_instance_port(ReleaseChannel::Dev, 43737, None), 43737);
    assert_eq!(single_instance_port(ReleaseChannel::Preview, 43737, None), 43837);
    assert_eq!(single_instance_port(ReleaseChannel::Stable, 43737, None), 43937);
    assert_eq!(single_instance_port(ReleaseChannel::Nightly, 43737, None), 44037);
    assert_eq!(single_instance_port(ReleaseChannel::Dev, 43737, Some(501)), 44238);
    assert_eq!(
        single_instance_port(ReleaseChannel::Dev, 65000, Some(1000)),
        65000 + (1000 % 535) as u16
    );
}

#[test]
fn keeps_provider_logo_metadata_on_cards() {
    let onboarding = ServiceHubOnboarding::new(vec![
        test_provider(
            "app-store-connect",
            ServiceAuthKind::ApiKey,
            Some("images/asc_logo.png"),
        ),
        test_provider("vercel", ServiceAuthKind::OAuth, None),
    ]);

    assert_eq!(
        onboarding.providers[0].logo_asset_path.as_deref(),
        Some("images/asc_logo.png")
    );
    assert_eq!(onboarding.providers[1].logo_asset_path, None);
}
