//! Texts and choices that the application derives from its data: provider
//! cards on the Service Hub welcome page, the About dialog's version line,
//! bookmarks, the diagnostics toolbar, the workspace mode switcher, and the
//! local port on which a single running instance is found.
use vstd::prelude::*;
use crate::service_types::{ServiceAuthKind, ServiceProviderDescriptor};
use crate::string_map::strings_view;
use crate::text::{owned, str_eq, empty_string};

verus! {

/// What a provider's card on the welcome page says.
#[derive(Clone, Debug, PartialEq, Eq)]
pub struct ProviderPresentation {
    pub description: String,
    pub highlights: Vec<String>,
    pub open_label: String,
}

/// The description, highlights and button label of a provider's card.
pub open spec fn presentation_of(p: ServiceProviderDescriptor) -> (Seq<char>, Seq<Seq<char>>, Seq<char>) {
    if p.id@ == "app-store-connect"@ {
        (
            "Manage App Store work from one place inside Sofintel. Requires the local ASC CLI."@,
            seq![
                "Install ASC CLI once on this machine"@,
                "Browse your apps and recent builds"@,
                "Check TestFlight and App Store status"@,
                "Publish when a build is ready"@,
            ],
            "Open App Store Connect"@,
        )
    } else {
        let resource = match p.shell.resource_kind {
            Some(k) => "Browse "@ + k.plural_label@,
            None => "Open your connected work"@,
        };
        let action = if p.workflows@.len() == 0 {
            "Keep the important status in one place"@
        } else {
            "Run the next step without leaving Sofintel"@
        };
        let auth = match p.auth_kind {
            ServiceAuthKind::NoAuth => "Jump in right away"@,
            _ => "Connect your account when you are ready"@,
        };
        (
            "Bring your "@ + p.label@ + " work into Sofintel."@,
            seq![resource, action, auth],
            "Open "@ + p.label@,
        )
    }
}

fn text_vec(parts: &[&str]) -> (r: Vec<String>)
    ensures
        strings_view(r@) == parts@.map_values(|s: &str| s@),
{
    crate::plan_args::args_of(parts)
}

/// The Service Hub welcome page: the providers it offers, in order.
#[derive(Debug)]
pub struct ServiceHubOnboarding {
    pub providers: Vec<ServiceProviderDescriptor>,
}

impl ServiceHubOnboarding {
    /// The welcome page for `providers`, which it keeps as given.
    pub fn new(providers: Vec<ServiceProviderDescriptor>) -> (s: ServiceHubOnboarding)
        ensures
            s.providers@ == providers@,
    {
        ServiceHubOnboarding { providers }
    }

    /// The card that the welcome page shows for `provider`.
    pub fn presentation(provider: &ServiceProviderDescriptor) -> (r: ProviderPresentation)
        ensures
            (r.description@, strings_view(r.highlights@), r.open_label@) == presentation_of(*provider),
    {
        if str_eq(provider.id.as_str(), "app-store-connect") {
            let highlights = text_vec(
                &[
                    "Install ASC CLI once on this machine",
                    "Browse your apps and recent builds",
                    "Check TestFlight and App Store status",
                    "Publish when a build is ready",
                ],
            );
            assert(strings_view(highlights@) =~= seq![
                "Install ASC CLI once on this machine"@,
                "Browse your apps and recent builds"@,
                "Check TestFlight and App Store status"@,
                "Publish when a build is ready"@,
            ]);
            return ProviderPresentation {
                description: owned(
                    "Manage App Store work from one place inside Sofintel. Requires the local ASC CLI.",
                ),
                highlights,
                open_label: owned("Open App Store Connect"),
            };
        }
        let resource = match &provider.shell.resource_kind {
            Some(k) => {
                let mut r = owned("Browse ");
                r.append(k.plural_label.as_str());
                r
            },
            None => owned("Open your connected work"),
        };
        let action = if provider.workflows.len() == 0 {
            owned("Keep the important status in one place")
        } else {
            owned("Run the next step without leaving Sofintel")
        };
        let auth = match provider.auth_kind {
            ServiceAuthKind::NoAuth => owned("Jump in right away"),
            _ => owned("Connect your account when you are ready"),
        };
        let ghost parts = seq![resource@, action@, auth@];
        let mut highlights: Vec<String> = Vec::new();
        highlights.push(resource);
        highlights.push(action);
        highlights.push(auth);
        assert(strings_view(highlights@) =~= parts);
        let mut description = owned("Bring your ");
        description.append(provider.label.as_str());
        description.append(" work into Sofintel.");
        let mut open_label = owned("Open ");
        open_label.append(provider.label.as_str());
        ProviderPresentation { description, highlights, open_label }
    }
}

/// The heading above the provider cards: `Providers` when there are
/// several, else `Start Here`.
pub fn onboarding_section_title(provider_count: usize) -> (r: &'static str)
    ensures
        r@ == if provider_count > 1 {
            "Providers"@
        } else {
            "Start Here"@
        },
{
    if provider_count > 1 {
        "Providers"
    } else {
        "Start Here"
    }
}

/// The version line of the About dialog: the version, a space, and the
/// commit in parentheses when there is one.
pub fn about_version_label(version: &str, sha: &str) -> (r: String)
    ensures
        r@ == version@ + " "@ + if sha@.len() == 0 {
            Seq::<char>::empty()
        } else {
            "("@ + sha@ + ")"@
        },
{
    let mut r = owned(version);
    r.append(" ");
    if sha.unicode_len() == 0 {
        let e = empty_string();
        r.append(e.as_str());
    } else {
        r.append("(");
        r.append(sha);
        r.append(")");
    }
    r
}

/// `s` without `prefix`, when it starts with it.
pub open spec fn strip_once(s: Seq<char>, prefix: Seq<char>) -> Seq<char> {
    if prefix.len() <= s.len() && s.subrange(0, prefix.len() as int) == prefix {
        s.subrange(prefix.len() as int, s.len() as int)
    } else {
        s
    }
}

/// Whether `s` starts with `prefix`.
pub open spec fn starts_with(s: Seq<char>, prefix: Seq<char>) -> bool {
    prefix.len() <= s.len() && s.subrange(0, prefix.len() as int) == prefix
}

fn strip_prefix_once(s: &str, prefix: &str) -> (r: Option<String>)
    ensures
        match r {
            Some(t) => starts_with(s@, prefix@) && t@ == strip_once(s@, prefix@),
            None => !starts_with(s@, prefix@),
        },
{
    let n = s.unicode_len();
    let m = prefix.unicode_len();
    if m <= n && str_eq(s.substring_char(0, m), prefix) {
        Some(owned(s.substring_char(m, n)))
    } else {
        None
    }
}

/// The title under which a page is bookmarked, or `None` when the page
/// cannot be bookmarked (the new-tab page, or no address). A page without
/// a title, or titled `New Tab`, is named by its address without the
/// `https://` or `http://` scheme and a leading `www.`.
pub open spec fn bookmark_title_of(url: Seq<char>, title: Seq<char>) -> Option<Seq<char>> {
    if url == "sofintel://newtab"@ || url.len() == 0 {
        None
    } else if title.len() == 0 || title == "New Tab"@ {
        let stripped = if starts_with(url, "https://"@) {
            strip_once(url, "https://"@)
        } else {
            strip_once(url, "http://"@)
        };
        Some(strip_once(stripped, "www."@))
    } else {
        Some(title)
    }
}

pub fn bookmark_title(url: &str, title: &str) -> (r: Option<String>)
    ensures
        match r {
            Some(t) => bookmark_title_of(url@, title@) == Some(t@),
            None => bookmark_title_of(url@, title@) is None,
        },
{
    if str_eq(url, "sofintel://newtab") || url.unicode_len() == 0 {
        return None;
    }
    if title.unicode_len() == 0 || str_eq(title, "New Tab") {
        let stripped = match strip_prefix_once(url, "https://") {
            Some(s) => s,
            None => match strip_prefix_once(url, "http://") {
                Some(s) => s,
                None => owned(url),
            },
        };
        match strip_prefix_once(stripped.as_str(), "www.") {
            Some(s) => Some(s),
            None => Some(stripped),
        }
    } else {
        Some(owned(title))
    }
}

/// The release channels of the application.
#[derive(Clone, Copy, Debug, PartialEq, Eq, Structural)]
pub enum ReleaseChannel {
    Dev,
    Nightly,
    Preview,
    Stable,
}

/// How far a channel's port lies above the channel's base port.
pub open spec fn channel_offset(channel: ReleaseChannel) -> int {
    match channel {
        ReleaseChannel::Dev => 0,
        ReleaseChannel::Preview => 100,
        ReleaseChannel::Stable => 200,
        ReleaseChannel::Nightly => 300,
    }
}

/// The local port on which a running instance answers, for the channel
/// `channel` whose base port is `base` and the user `uid`: the channel's
/// port, moved up by the user id modulo the room left below 65535.
pub open spec fn instance_port(channel: ReleaseChannel, base: u16, uid: Option<u32>) -> int {
    let port = base + channel_offset(channel);
    match uid {
        Some(u) => port + (u as int) % (65535 - port),
        None => port,
    }
}

pub fn single_instance_port(channel: ReleaseChannel, base: u16, uid: Option<u32>) -> (p: u16)
    requires
        base + channel_offset(channel) <= 65535,
        uid is Some ==> base + channel_offset(channel) < 65535,
    ensures
        p == instance_port(channel, base, uid),
{
    let port: u16 = match channel {
        ReleaseChannel::Dev => base,
        ReleaseChannel::Preview => base + 100,
        ReleaseChannel::Stable => base + 200,
        ReleaseChannel::Nightly => base + 300,
    };
    match uid {
        Some(u) => {
            let max_uid: u32 = 65535 - port as u32;
            let wrapped: u16 = (u % max_uid) as u16;
            port + wrapped
        },
        None => port,
    }
}

/// What toggling the bookmark of a page does.
#[derive(Clone, Debug, PartialEq, Eq)]
pub enum BookmarkChange {
    /// The page was bookmarked: its bookmark goes.
    Remove { url: String },
    /// The page was not bookmarked: it is added under the title.
    Add { url: String, title: String },
}

/// What toggling the bookmark of the page at `url`, titled `title`, does:
/// nothing for the new-tab page or an empty address; else the bookmark
/// goes when there is one, or is added under the page's title (its address
/// without scheme and `www.` when it has no title).
pub fn bookmark_change(url: &str, title: &str, is_bookmarked: bool) -> (r: Option<BookmarkChange>)
    ensures
        match bookmark_title_of(url@, title@) {
            None => r is None,
            Some(t) => if is_bookmarked {
                r matches Some(BookmarkChange::Remove { url: u }) && u@ == url@
            } else {
                r matches Some(BookmarkChange::Add { url: u, title: n }) && u@ == url@ && n@ == t
            },
        },
{
    match bookmark_title(url, title) {
        None => None,
        Some(t) => if is_bookmarked {
            Some(BookmarkChange::Remove { url: owned(url) })
        } else {
            Some(BookmarkChange::Add { url: owned(url), title: t })
        },
    }
}

/// What the diagnostics toolbar shows: the tooltip of the warnings button,
/// whether that button is tinted, and whether the button that stops an
/// update is shown in place of the one that refreshes.
#[derive(Clone, Debug, PartialEq, Eq)]
pub struct DiagnosticsControls {
    pub warning_tooltip: String,
    pub warnings_tinted: bool,
    pub shows_stop: bool,
}

/// What the diagnostics toolbar shows for its editor, if it has one, given
/// whether that editor includes warnings and is updating.
pub fn diagnostics_controls(editor: Option<(bool, bool)>) -> (r: DiagnosticsControls)
    ensures
        ({
            let (include_warnings, is_updating) = match editor {
                Some((w, u)) => (w, u),
                None => (false, false),
            };
            &&& r.warning_tooltip@ == if include_warnings {
                "Exclude Warnings"@
            } else {
                "Include Warnings"@
            }
            &&& r.warnings_tinted == include_warnings
            &&& r.shows_stop == is_updating
        }),
{
    let (include_warnings, is_updating) = match editor {
        Some((w, u)) => (w, u),
        None => (false, false),
    };
    DiagnosticsControls {
        warning_tooltip: if include_warnings {
            owned("Exclude Warnings")
        } else {
            owned("Include Warnings")
        },
        warnings_tinted: include_warnings,
        shows_stop: is_updating,
    }
}

/// The modes of the workspace that the toolbar switches between.
#[derive(Clone, Copy, Debug, PartialEq, Eq, Structural)]
pub enum WorkspaceMode {
    Browser,
    Editor,
    Terminal,
}

/// The mode at position `index` of the toolbar's switcher, in the order
/// browser, editor, terminal.
pub open spec fn mode_at(index: int) -> Option<WorkspaceMode> {
    if index == 0 {
        Some(WorkspaceMode::Browser)
    } else if index == 1 {
        Some(WorkspaceMode::Editor)
    } else if index == 2 {
        Some(WorkspaceMode::Terminal)
    } else {
        None
    }
}

/// The position of a mode in the toolbar's switcher.
pub open spec fn position_of_mode(mode: WorkspaceMode) -> int {
    match mode {
        WorkspaceMode::Browser => 0,
        WorkspaceMode::Editor => 1,
        WorkspaceMode::Terminal => 2,
    }
}

/// The mode that the toolbar's switcher selects at position `index`.
pub fn mode_for_selection(index: usize) -> (r: Option<WorkspaceMode>)
    ensures
        r == mode_at(index as int),
{
    if index == 0 {
        Some(WorkspaceMode::Browser)
    } else if index == 1 {
        Some(WorkspaceMode::Editor)
    } else if index == 2 {
        Some(WorkspaceMode::Terminal)
    } else {
        None
    }
}

/// The position of a mode in the toolbar's switcher, which shows the
/// active mode as selected.
pub fn mode_position(mode: WorkspaceMode) -> (r: usize)
    ensures
        r as int == position_of_mode(mode),
{
    match mode {
        WorkspaceMode::Browser => 0,
        WorkspaceMode::Editor => 1,
        WorkspaceMode::Terminal => 2,
    }
}

} // verus!
