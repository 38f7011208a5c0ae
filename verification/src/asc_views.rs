//! What the panels of the App Store Connect page say, apart from how they
//! are drawn: the chosen app and its latest build, the builds list, the
//! app creation card, the sign-in status and the tool's status.
use vstd::prelude::*;
use crate::asc_presentation::{
    build_date_text, build_status_summary, format_build_date, format_platform, platform_text,
    status_parts, AppleWorkspaceProjectSummary, AppleWorkspaceSchemeSummary, AscBuildSummary,
};
use crate::asc_workspace::{
    chosen_app, AscCliState, AscWebAuthSummary, AscWorkspace, LoadState, ServicesPageState,
};
use crate::service_types::opt_view;
use crate::text::{join_with, owned};

verus! {

/// A titled value in a details panel.
#[derive(Clone, Debug, PartialEq, Eq)]
pub struct DetailRow {
    pub title: String,
    pub value: String,
}

/// Whether a row reads `title` and `value`.
pub open spec fn row_is(r: DetailRow, title: Seq<char>, value: Seq<char>) -> bool {
    r.title@ == title && r.value@ == value
}

fn row(title: &str, value: String) -> (r: DetailRow)
    ensures
        row_is(r, title@, value@),
{
    DetailRow { title: owned(title), value }
}

fn text_or(o: &Option<String>, fallback: &str) -> (r: String)
    ensures
        r@ == match opt_view(*o) {
            Some(v) => v,
            None => fallback@,
        },
{
    match o {
        Some(v) => v.clone(),
        None => owned(fallback),
    }
}

/// The details of the chosen app: its SKU, primary locale (or `Not Set`)
/// and id.
pub fn app_detail_rows(app: &crate::asc_workspace::AscAppSummary) -> (r: Vec<DetailRow>)
    ensures
        r@.len() == 3,
        row_is(r@[0], "SKU"@, app.sku@),
        row_is(
            r@[1],
            "Primary Locale"@,
            match opt_view(app.primary_locale) {
                Some(l) => l,
                None => "Not Set"@,
            },
        ),
        row_is(r@[2], "App ID"@, app.id@),
{
    let mut r: Vec<DetailRow> = Vec::new();
    r.push(row("SKU", app.sku.clone()));
    r.push(row("Primary Locale", text_or(&app.primary_locale, "Not Set")));
    r.push(row("App ID", app.id.clone()));
    r
}

/// The panel of the latest build: its version (or `Unknown Version`), its
/// number, and its platform, status, upload and expiry dates.
#[derive(Clone, Debug, PartialEq, Eq)]
pub struct LatestBuildView {
    pub version: String,
    pub build_label: String,
    pub rows: Vec<DetailRow>,
}

/// The panel of the latest build.
pub fn latest_build_view(build: &AscBuildSummary) -> (r: LatestBuildView)
    ensures
        r.version@ == match opt_view(build.marketing_version) {
            Some(v) => v,
            None => "Unknown Version"@,
        },
        r.build_label@ == "Build "@ + build.build_number@,
        r.rows@.len() == 4,
        row_is(r.rows@[0], "Platform"@, platform_text(opt_view(build.platform))),
        row_is(r.rows@[1], "Status"@, join_with(status_parts(*build), " · "@)),
        row_is(r.rows@[2], "Uploaded"@, build_date_text(build.uploaded_date@)),
        row_is(
            r.rows@[3],
            "Expires"@,
            match opt_view(build.expiration_date) {
                Some(d) => build_date_text(d),
                None => "Not Set"@,
            },
        ),
{
    let mut label = owned("Build ");
    label.append(build.build_number.as_str());
    let platform = match &build.platform {
        Some(p) => format_platform(Some(p.as_str())),
        None => format_platform(None),
    };
    let expires = match &build.expiration_date {
        Some(d) => format_build_date(d.as_str()),
        None => owned("Not Set"),
    };
    let mut rows: Vec<DetailRow> = Vec::new();
    rows.push(row("Platform", platform));
    rows.push(row("Status", build_status_summary(build)));
    rows.push(row("Uploaded", format_build_date(build.uploaded_date.as_str())));
    rows.push(row("Expires", expires));
    LatestBuildView {
        version: text_or(&build.marketing_version, "Unknown Version"),
        build_label: label,
        rows,
    }
}

/// What the builds section shows.
#[derive(Clone, Debug, PartialEq, Eq)]
pub enum BuildsContent {
    /// `Loading builds…`
    Loading,
    /// `Could not load builds`, with the error.
    Failed(String),
    /// `Select an app to load its builds.`
    SelectApp,
    /// `No builds were returned for the selected app.`
    NoBuilds,
    /// The table of builds, and below it the error of the last page asked
    /// for, if any, and the button that loads more when there is a next
    /// page (off while a page loads).
    Table { has_next_page: bool, is_loading_more: bool, load_more_error: Option<String> },
}

/// What the builds section shows for the workspace `w` and page `state`.
pub open spec fn builds_content_of(w: AscWorkspace, state: ServicesPageState) -> BuildsContent {
    match w.builds_state {
        LoadState::Loading => BuildsContent::Loading,
        LoadState::Error(e) => BuildsContent::Failed(e),
        LoadState::Ready(b) => if chosen_app(w, state) is None {
            BuildsContent::SelectApp
        } else if b.builds@.len() == 0 {
            BuildsContent::NoBuilds
        } else {
            BuildsContent::Table {
                has_next_page: b.next_page_url is Some,
                is_loading_more: b.is_loading_more,
                load_more_error: b.load_more_error,
            }
        },
    }
}

fn copy_text(o: &Option<String>) -> (r: Option<String>)
    ensures
        r == *o,
{
    match o {
        Some(s) => Some(s.clone()),
        None => None,
    }
}

/// What the builds section shows; the button that reloads the builds is
/// off while no app is chosen (`refresh_enabled`).
pub fn builds_content(w: &AscWorkspace, state: &ServicesPageState) -> (r: (BuildsContent, bool))
    ensures
        r.0 == builds_content_of(*w, *state),
        r.1 == chosen_app(*w, *state) is Some,
{
    let selected = w.selected_app(state).is_some();
    let content = match &w.builds_state {
        LoadState::Loading => BuildsContent::Loading,
        LoadState::Error(e) => BuildsContent::Failed(e.clone()),
        LoadState::Ready(b) => if !selected {
            BuildsContent::SelectApp
        } else if b.builds.len() == 0 {
            BuildsContent::NoBuilds
        } else {
            BuildsContent::Table {
                has_next_page: b.next_page_url.is_some(),
                is_loading_more: b.is_loading_more,
                load_more_error: copy_text(&b.load_more_error),
            }
        },
    };
    (content, selected)
}

/// What the app creation card says of the sign-in on the web.
pub open spec fn web_session_text(web_auth: LoadState<AscWebAuthSummary>) -> Seq<char> {
    match web_auth {
        LoadState::Loading => "Checking ASC web-session status\u{2026}"@,
        LoadState::Error(e) => e@,
        LoadState::Ready(s) => if s.authenticated {
            "ASC web session is ready."@
        } else {
            "ASC web session is not authenticated. Provide credentials above or rely on a cached session."@
        },
    }
}

/// What the app creation card says of the sign-in on the web.
pub fn web_session_status(web_auth: &LoadState<AscWebAuthSummary>) -> (r: String)
    ensures
        r@ == web_session_text(*web_auth),
{
    match web_auth {
        LoadState::Loading => owned("Checking ASC web-session status\u{2026}"),
        LoadState::Error(e) => e.clone(),
        LoadState::Ready(s) => if s.authenticated {
            owned("ASC web session is ready.")
        } else {
            owned(
                "ASC web session is not authenticated. Provide credentials above or rely on a cached session.",
            )
        },
    }
}

/// The button of the app creation card: what it reads, and whether it is
/// off (while an app is being created, or when there is no project).
pub fn create_app_button(pending: bool, has_projects: bool) -> (r: (String, bool))
    ensures
        r.0@ == if pending {
            "Creating\u{2026}"@
        } else {
            "Create App"@
        },
        r.1 == (pending || !has_projects),
{
    let label = if pending {
        owned("Creating\u{2026}")
    } else {
        owned("Create App")
    };
    (label, pending || !has_projects)
}

/// How a project reads in the menu of projects: its label and path.
pub fn project_menu_label(project: &AppleWorkspaceProjectSummary) -> (r: String)
    ensures
        r@ == project.label@ + " ("@ + project.project_path@ + ")"@,
{
    let mut r = project.label.clone();
    r.append(" (");
    r.append(project.project_path.as_str());
    r.append(")");
    r
}

/// The line that describes the chosen scheme.
pub open spec fn scheme_line_text(s: AppleWorkspaceSchemeSummary) -> Seq<char> {
    join_with(
        seq![
            match opt_view(s.bundle_id) {
                Some(b) => b,
                None => "Unknown bundle ID"@,
            },
            platform_text(opt_view(s.platform)),
            "Version "@ + match opt_view(s.marketing_version) {
                Some(v) => v,
                None => "Unknown"@,
            },
            "Build "@ + match opt_view(s.build_number) {
                Some(b) => b,
                None => "Unknown"@,
            },
        ],
        " · "@,
    )
}

/// The line that describes the chosen scheme: its bundle id, platform,
/// version and build number.
pub fn scheme_summary_line(s: &AppleWorkspaceSchemeSummary) -> (r: String)
    ensures
        r@ == scheme_line_text(*s),
{
    let mut parts: Vec<String> = Vec::new();
    parts.push(text_or(&s.bundle_id, "Unknown bundle ID"));
    parts.push(
        match &s.platform {
            Some(p) => format_platform(Some(p.as_str())),
            None => format_platform(None),
        },
    );
    let mut version = owned("Version ");
    version.append(text_or(&s.marketing_version, "Unknown").as_str());
    parts.push(version);
    let mut number = owned("Build ");
    number.append(text_or(&s.build_number, "Unknown").as_str());
    parts.push(number);
    assert(crate::string_map::strings_view(parts@) =~= seq![
        match opt_view(s.bundle_id) {
            Some(b) => b,
            None => "Unknown bundle ID"@,
        },
        platform_text(opt_view(s.platform)),
        "Version "@ + match opt_view(s.marketing_version) {
            Some(v) => v,
            None => "Unknown"@,
        },
        "Build "@ + match opt_view(s.build_number) {
            Some(b) => b,
            None => "Unknown"@,
        },
    ]);
    crate::text::join_text(&parts, " · ")
}

/// What the sidebar says of the `asc` tool: its version once ready, that
/// it is being checked or installed; nothing when it is missing or failed
/// to install (the page explains that instead).
pub fn cli_sidebar_status(cli: &AscCliState) -> (r: Option<String>)
    ensures
        match cli {
            AscCliState::Ready(s) => r matches Some(t) && t@ == "ASC CLI ready: "@ + s.version@,
            AscCliState::Checking => r matches Some(t) && t@ == "Checking ASC CLI\u{2026}"@,
            AscCliState::Installing => r matches Some(t) && t@ == "Installing ASC CLI\u{2026}"@,
            _ => r is None,
        },
{
    match cli {
        AscCliState::Ready(s) => {
            let mut t = owned("ASC CLI ready: ");
            t.append(s.version.as_str());
            Some(t)
        },
        AscCliState::Checking => Some(owned("Checking ASC CLI\u{2026}")),
        AscCliState::Installing => Some(owned("Installing ASC CLI\u{2026}")),
        _ => None,
    }
}

/// What the App Store Connect profile check found.
#[derive(Clone, Debug, PartialEq, Eq)]
pub struct AscAuthSummary {
    pub healthy: bool,
    pub authenticated: bool,
    pub headline: String,
    pub detail: String,
    pub warnings: Vec<String>,
}

/// How a status is shown: as fine, or as a warning.
#[derive(Clone, Copy, Debug, PartialEq, Eq, Structural)]
pub enum Severity {
    Success,
    Warning,
}

/// The sign-in status the page shows.
#[derive(Clone, Debug, PartialEq, Eq)]
pub struct ServiceAuthStatusSummary {
    pub severity: Severity,
    pub headline: String,
    pub detail: String,
    pub warnings: Vec<String>,
    pub authenticated: bool,
}

fn copy_strings(v: &Vec<String>) -> (r: Vec<String>)
    ensures
        r@ == v@,
{
    let mut r: Vec<String> = Vec::new();
    let mut i: usize = 0;
    while i < v.len()
        invariant
            i <= v@.len(),
            r@ == v@.take(i as int),
        decreases v@.len() - i,
    {
        r.push(v[i].clone());
        assert(r@ =~= v@.take(i + 1));
        i = i + 1;
    }
    assert(v@.take(v@.len() as int) =~= v@);
    r
}

/// Whether `r` is the sign-in status shown for the profile check `auth`:
/// fine while the check runs, a warning when it failed, and what it found
/// otherwise, as a warning when the profile is not healthy.
pub open spec fn auth_summary_shown(auth: LoadState<AscAuthSummary>, r: ServiceAuthStatusSummary) -> bool {
    match auth {
            LoadState::Loading => {
                &&& r.severity == Severity::Success
                &&& r.headline@ == "Checking authentication\u{2026}"@
                &&& r.detail@ == "Validating the current App Store Connect profile."@
                &&& r.warnings@.len() == 0
                &&& !r.authenticated
            },
            LoadState::Error(e) => {
                &&& r.severity == Severity::Warning
                &&& r.headline@ == "Authentication check failed"@
                &&& r.detail@ == e@
                &&& r.warnings@.len() == 0
                &&& !r.authenticated
            },
            LoadState::Ready(s) => {
                &&& r.severity == if s.healthy {
                    Severity::Success
                } else {
                    Severity::Warning
                }
                &&& r.headline == s.headline
                &&& r.detail == s.detail
                &&& r.warnings@ == s.warnings@
                &&& r.authenticated == s.authenticated
            },
        }
}

/// The sign-in status the page shows while the profile is checked, when
/// the check failed, and after it.
pub fn auth_status_summary(auth: &LoadState<AscAuthSummary>) -> (r: ServiceAuthStatusSummary)
    ensures
        auth_summary_shown(*auth, r),
{
    match auth {
        LoadState::Loading => ServiceAuthStatusSummary {
            severity: Severity::Success,
            headline: owned("Checking authentication\u{2026}"),
            detail: owned("Validating the current App Store Connect profile."),
            warnings: Vec::new(),
            authenticated: false,
        },
        LoadState::Error(e) => ServiceAuthStatusSummary {
            severity: Severity::Warning,
            headline: owned("Authentication check failed"),
            detail: e.clone(),
            warnings: Vec::new(),
            authenticated: false,
        },
        LoadState::Ready(s) => ServiceAuthStatusSummary {
            severity: if s.healthy {
                Severity::Success
            } else {
                Severity::Warning
            },
            headline: s.headline.clone(),
            detail: s.detail.clone(),
            warnings: copy_strings(&s.warnings),
            authenticated: s.authenticated,
        },
    }
}

/// The sign-in panel: the labels of its buttons and the status it shows.
#[derive(Clone, Debug, PartialEq, Eq)]
pub struct ServiceAuthPanel {
    pub provider_id: String,
    pub authenticate_label: String,
    pub reauthenticate_label: String,
    pub logout_label: String,
    pub status: ServiceAuthStatusSummary,
}

/// The sign-in panel, shown once the `asc` tool is ready, with the status
/// of the API-key profile check that the last refresh made.
pub fn auth_panel(w: &AscWorkspace) -> (r: Option<ServiceAuthPanel>)
    ensures
        r is Some <==> w.cli_state is Ready,
        r matches Some(p) ==> {
            &&& auth_summary_shown(w.auth_state, p.status)
            &&& p.provider_id@ == w.descriptor.id@
            &&& p.authenticate_label@ == "Authenticate"@
            &&& p.reauthenticate_label@ == "Re-authenticate"@
            &&& p.logout_label@ == "Log Out"@
        },
{
    if !w.cli_ready() {
        return None;
    }
    Some(
        ServiceAuthPanel {
            provider_id: w.descriptor.id.clone(),
            authenticate_label: owned("Authenticate"),
            reauthenticate_label: owned("Re-authenticate"),
            logout_label: owned("Log Out"),
            status: auth_status_summary(&w.auth_state),
        },
    )
}

} // verus!
