//! Detected runnable projects, and the commands that build and run them.
use vstd::prelude::*;
use crate::string_map::strings_view;
use crate::text::{owned, str_eq};

verus! {

#[derive(Clone, Copy, Debug, PartialEq, Eq, Structural)]
pub enum ProjectKind {
    AppleWorkspace,
    AppleProject,
    GpuiApplication,
}

#[derive(Clone, Copy, Debug, PartialEq, Eq, Structural)]
pub enum RuntimeDeviceKind {
    Simulator,
    Desktop,
}

#[derive(Clone, Copy, Debug, PartialEq, Eq, Structural)]
pub enum RuntimeAction {
    Build,
    Run,
}

#[derive(Clone, Debug, PartialEq, Eq)]
pub enum CapabilityState {
    Available,
    RequiresSetup { reason: String },
    Unavailable { reason: String },
}

pub enum CapabilityView {
    Available,
    RequiresSetup(Seq<char>),
    Unavailable(Seq<char>),
}

impl View for CapabilityState {
    type V = CapabilityView;

    open spec fn view(&self) -> CapabilityView {
        match self {
            CapabilityState::Available => CapabilityView::Available,
            CapabilityState::RequiresSetup { reason } => CapabilityView::RequiresSetup(reason@),
            CapabilityState::Unavailable { reason } => CapabilityView::Unavailable(reason@),
        }
    }
}

impl CapabilityState {
    pub fn is_available(&self) -> (b: bool)
        ensures
            b == (self@ is Available),
    {
        match self {
            CapabilityState::Available => true,
            _ => false,
        }
    }
}

#[derive(Clone, Debug, PartialEq, Eq)]
pub struct ProjectCapabilities {
    pub build: CapabilityState,
    pub run: CapabilityState,
}

#[derive(Clone, Debug, PartialEq, Eq)]
pub struct RuntimeTarget {
    pub id: String,
    pub label: String,
}

pub struct TargetView {
    pub id: Seq<char>,
    pub label: Seq<char>,
}

impl View for RuntimeTarget {
    type V = TargetView;

    open spec fn view(&self) -> TargetView {
        TargetView { id: self.id@, label: self.label@ }
    }
}

#[derive(Clone, Debug, PartialEq, Eq)]
pub struct RuntimeDevice {
    pub id: String,
    pub label: String,
    pub kind: RuntimeDeviceKind,
}

pub struct DeviceView {
    pub id: Seq<char>,
    pub label: Seq<char>,
    pub kind: RuntimeDeviceKind,
}

impl View for RuntimeDevice {
    type V = DeviceView;

    open spec fn view(&self) -> DeviceView {
        DeviceView { id: self.id@, label: self.label@, kind: self.kind }
    }
}

/// A runnable project found in a workspace. Paths are held as text.
#[derive(Clone, Debug, PartialEq, Eq)]
pub struct DetectedProject {
    pub id: String,
    pub label: String,
    pub kind: ProjectKind,
    pub workspace_root: String,
    pub project_path: String,
    pub capabilities: ProjectCapabilities,
    pub targets: Vec<RuntimeTarget>,
    pub devices: Vec<RuntimeDevice>,
}

pub struct ProjectView {
    pub id: Seq<char>,
    pub label: Seq<char>,
    pub kind: ProjectKind,
    pub workspace_root: Seq<char>,
    pub project_path: Seq<char>,
    pub build: CapabilityView,
    pub run: CapabilityView,
    pub targets: Seq<TargetView>,
    pub devices: Seq<DeviceView>,
}

impl View for DetectedProject {
    type V = ProjectView;

    open spec fn view(&self) -> ProjectView {
        ProjectView {
            id: self.id@,
            label: self.label@,
            kind: self.kind,
            workspace_root: self.workspace_root@,
            project_path: self.project_path@,
            build: self.capabilities.build@,
            run: self.capabilities.run@,
            targets: self.targets@.map_values(|t: RuntimeTarget| t@),
            devices: self.devices@.map_values(|d: RuntimeDevice| d@),
        }
    }
}

#[derive(Clone, Debug, PartialEq, Eq)]
pub struct ExecutionRequest {
    pub project_id: String,
    pub target_id: String,
    pub device_id: Option<String>,
    pub action: RuntimeAction,
}

/// A command to run in the directory `cwd` (a path as text).
#[derive(Clone, Debug, PartialEq, Eq)]
pub struct ExecutionPlan {
    pub label: String,
    pub command_label: String,
    pub command: String,
    pub args: Vec<String>,
    pub cwd: String,
}

pub struct ExecutionPlanView {
    pub label: Seq<char>,
    pub command_label: Seq<char>,
    pub command: Seq<char>,
    pub args: Seq<Seq<char>>,
    pub cwd: Seq<char>,
}

impl View for ExecutionPlan {
    type V = ExecutionPlanView;

    open spec fn view(&self) -> ExecutionPlanView {
        ExecutionPlanView {
            label: self.label@,
            command_label: self.command_label@,
            command: self.command@,
            args: strings_view(self.args@),
            cwd: self.cwd@,
        }
    }
}

#[derive(Clone, Debug, PartialEq, Eq)]
pub enum RuntimeError {
    ProjectNotFound(String),
    TargetNotFound(String),
    ActionUnavailable(RuntimeAction, String),
    DeviceRequired,
    DeviceNotFound(String),
    UnsupportedDeviceKind,
}

pub enum RuntimeErrorView {
    ProjectNotFound(Seq<char>),
    TargetNotFound(Seq<char>),
    ActionUnavailable(RuntimeAction, Seq<char>),
    DeviceRequired,
    DeviceNotFound(Seq<char>),
    UnsupportedDeviceKind,
}

impl View for RuntimeError {
    type V = RuntimeErrorView;

    open spec fn view(&self) -> RuntimeErrorView {
        match self {
            RuntimeError::ProjectNotFound(s) => RuntimeErrorView::ProjectNotFound(s@),
            RuntimeError::TargetNotFound(s) => RuntimeErrorView::TargetNotFound(s@),
            RuntimeError::ActionUnavailable(a, s) => RuntimeErrorView::ActionUnavailable(*a, s@),
            RuntimeError::DeviceRequired => RuntimeErrorView::DeviceRequired,
            RuntimeError::DeviceNotFound(s) => RuntimeErrorView::DeviceNotFound(s@),
            RuntimeError::UnsupportedDeviceKind => RuntimeErrorView::UnsupportedDeviceKind,
        }
    }
}

/// A single quote.
pub open spec fn quote() -> Seq<char> {
    seq!['\'']
}

/// `s` with each single quote written as `'\''`, which closes a quoted
/// word, adds an escaped quote and opens the word again.
pub open spec fn escape_quotes(s: Seq<char>) -> Seq<char>
    decreases s.len(),
{
    if s.len() == 0 {
        Seq::empty()
    } else {
        escape_quotes(s.drop_last()) + if s.last() == '\'' {
            seq!['\'', '\\', '\'', '\'']
        } else {
            seq![s.last()]
        }
    }
}

/// `s` as one single-quoted word of a POSIX shell.
pub open spec fn shell_quoted(s: Seq<char>) -> Seq<char> {
    quote() + escape_quotes(s) + quote()
}

/// Quotes `value` as one word for a POSIX shell.
pub fn shell_escape(value: &str) -> (r: String)
    ensures
        r@ == shell_quoted(value@),
{
    let n = value.unicode_len();
    let mut r = owned("'");
    proof {
        reveal_strlit("'");
    }
    assert(value@.subrange(0, 0) =~= Seq::<char>::empty());
    let mut i: usize = 0;
    while i < n
        invariant
            n == value@.len(),
            i <= n,
            r@ == quote() + escape_quotes(value@.subrange(0, i as int)),
        decreases n - i,
    {
        let c = value.get_char(i);
        let ghost prefix = value@.subrange(0, i as int + 1);
        assert(prefix.drop_last() =~= value@.subrange(0, i as int));
        if c == '\'' {
            r.append("'\\''");
            proof {
                reveal_strlit("'\\''");
            }
            assert(r@ =~= quote() + escape_quotes(prefix));
        } else {
            let piece = value.substring_char(i, i + 1);
            assert(piece@ =~= seq![c]);
            r.append(piece);
            assert(r@ =~= quote() + escape_quotes(prefix));
        }
        i = i + 1;
    }
    assert(value@.subrange(0, n as int) =~= value@);
    r.append("'");
    r
}

/// `s` with every `/` replaced by `-`.
pub open spec fn slashes_to_dashes(s: Seq<char>) -> Seq<char> {
    s.map_values(|c: char| if c == '/' { '-' } else { c })
}

fn replace_slashes(value: &str) -> (r: String)
    ensures
        r@ == slashes_to_dashes(value@),
{
    let n = value.unicode_len();
    let mut r = owned("");
    proof {
        reveal_strlit("");
    }
    let mut i: usize = 0;
    while i < n
        invariant
            n == value@.len(),
            i <= n,
            r@ =~= slashes_to_dashes(value@.subrange(0, i as int)),
        decreases n - i,
    {
        let c = value.get_char(i);
        if c == '/' {
            r.append("-");
            proof {
                reveal_strlit("-");
            }
        } else {
            let piece = value.substring_char(i, i + 1);
            assert(piece@ =~= seq![c]);
            r.append(piece);
        }
        assert(slashes_to_dashes(value@.subrange(0, i as int + 1)) =~= slashes_to_dashes(
            value@.subrange(0, i as int),
        ).push(if c == '/' { '-' } else { c }));
        i = i + 1;
    }
    assert(value@.subrange(0, n as int) =~= value@);
    r
}

/// The path `base` extended by the relative path `part`, with a `/`
/// between them where `base` does not already end in one.
pub open spec fn path_join(base: Seq<char>, part: Seq<char>) -> Seq<char> {
    if part.len() > 0 && part[0] == '/' {
        part
    } else if base.len() == 0 || base.last() == '/' {
        base + part
    } else {
        base + seq!['/'] + part
    }
}

fn join_path(base: &str, part: &str) -> (r: String)
    ensures
        r@ == path_join(base@, part@),
{
    let bn = base.unicode_len();
    let pn = part.unicode_len();
    if pn > 0 && part.get_char(0) == '/' {
        return owned(part);
    }
    let mut r = owned(base);
    if !(bn == 0 || base.get_char(bn - 1) == '/') {
        r.append("/");
        proof {
            reveal_strlit("/");
        }
    }
    r.append(part);
    r
}


/// The command prefix that selects an Apple project's workspace or
/// project file for `xcodebuild`.
pub open spec fn selector(kind: ProjectKind, project_path: Seq<char>) -> Seq<char> {
    match kind {
        ProjectKind::AppleWorkspace => "xcodebuild -workspace "@ + shell_quoted(project_path),
        _ => "xcodebuild -project "@ + shell_quoted(project_path),
    }
}

fn xcode_selector(project: &DetectedProject) -> (r: String)
    requires
        project.kind != ProjectKind::GpuiApplication,
    ensures
        r@ == selector(project.kind, project.project_path@),
{
    let mut r = match project.kind {
        ProjectKind::AppleWorkspace => owned("xcodebuild -workspace "),
        _ => owned("xcodebuild -project "),
    };
    r.append(shell_escape(project.project_path.as_str()).as_str());
    r
}

/// The text of a capability's state: `available`, or the reason it is not.
pub open spec fn capability_text(c: CapabilityView) -> Seq<char> {
    match c {
        CapabilityView::Available => "available"@,
        CapabilityView::RequiresSetup(reason) => reason,
        CapabilityView::Unavailable(reason) => reason,
    }
}

fn capability_reason(capability: &CapabilityState) -> (r: String)
    ensures
        r@ == capability_text(capability@),
{
    match capability {
        CapabilityState::Available => owned("available"),
        CapabilityState::RequiresSetup { reason } => reason.clone(),
        CapabilityState::Unavailable { reason } => reason.clone(),
    }
}

/// Where `xcodebuild` keeps the build products of `target`.
pub open spec fn derived_data_path(workspace_root: Seq<char>, target: Seq<char>) -> Seq<char> {
    path_join(
        path_join(path_join(workspace_root, ".sofintel"@), "app_runtime"@),
        slashes_to_dashes(target),
    )
}

fn derived_data_dir(workspace_root: &str, target: &str) -> (r: String)
    ensures
        r@ == derived_data_path(workspace_root@, target@),
{
    let a = join_path(workspace_root, ".sofintel");
    let b = join_path(a.as_str(), "app_runtime");
    let t = replace_slashes(target);
    join_path(b.as_str(), t.as_str())
}

fn labelled(prefix: &str, name: &str) -> (r: String)
    ensures
        r@ == prefix@ + name@,
{
    let mut r = owned(prefix);
    r.append(name);
    r
}

fn text_pair(a: &str, b: &str) -> (r: Vec<String>)
    ensures
        strings_view(r@) == seq![a@, b@],
{
    let mut r: Vec<String> = Vec::new();
    r.push(owned(a));
    r.push(owned(b));
    assert(strings_view(r@) =~= seq![a@, b@]);
    r
}

/// The plan that builds the Apple scheme `target`.
pub open spec fn apple_build_plan(workspace_root: Seq<char>, p: ProjectView, target: Seq<char>) -> ExecutionPlanView {
    ExecutionPlanView {
        label: "Build "@ + p.label,
        command_label: "xcodebuild "@ + target + " build"@,
        command: "zsh"@,
        args: seq![
            "-lc"@,
            "set -euo pipefail\n"@ + selector(p.kind, p.project_path) + " -scheme "@
                + shell_quoted(target) + " build"@,
        ],
        cwd: workspace_root,
    }
}

fn build_apple_plan(workspace_root: &str, project: &DetectedProject, target: &str) -> (r: ExecutionPlan)
    requires
        project.kind != ProjectKind::GpuiApplication,
    ensures
        r@ == apple_build_plan(workspace_root@, project@, target@),
{
    let mut script = owned("set -euo pipefail\n");
    script.append(xcode_selector(project).as_str());
    script.append(" -scheme ");
    script.append(shell_escape(target).as_str());
    script.append(" build");
    let mut command_label = labelled("xcodebuild ", target);
    command_label.append(" build");
    ExecutionPlan {
        label: labelled("Build ", project.label.as_str()),
        command_label,
        command: owned("zsh"),
        args: text_pair("-lc", script.as_str()),
        cwd: owned(workspace_root),
    }
}

/// The script that builds an Apple scheme, installs it on a simulator and
/// launches it there.
pub open spec fn simulator_script(
    derived_data: Seq<char>,
    selector: Seq<char>,
    target: Seq<char>,
    simulator: Seq<char>,
) -> Seq<char> {
    "set -euo pipefail\nmkdir -p "@ + derived_data
        + "\nopen -a Simulator\nxcrun simctl boot "@ + simulator
        + " >/dev/null 2>&1 || true\nxcrun simctl bootstatus "@ + simulator + " -b\n"@ + selector
        + " -scheme "@ + target + " -destination id="@ + simulator + " -derivedDataPath "@
        + derived_data + " build\napp_path=\"$(find "@ + derived_data
        + "/Build/Products -maxdepth 2 -name '*.app' -print -quit)\"\nif [ -z \"$app_path\" ]; then\necho 'Sofintel could not find the built .app bundle.' >&2\nexit 1\nfi\nbundle_id=\"$(/usr/libexec/PlistBuddy -c 'Print :CFBundleIdentifier' \"$app_path/Info.plist\")\"\nxcrun simctl install "@
        + simulator + " \"$app_path\"\nxcrun simctl launch "@ + simulator + " \"$bundle_id\"\n"@
}

/// The plan that builds the Apple scheme `target` and runs it on the
/// simulator `simulator_id`.
pub open spec fn apple_simulator_plan(
    workspace_root: Seq<char>,
    p: ProjectView,
    target: Seq<char>,
    simulator_id: Seq<char>,
) -> ExecutionPlanView {
    ExecutionPlanView {
        label: "Run "@ + p.label,
        command_label: "xcodebuild "@ + shell_quoted(target) + " build and launch"@,
        command: "zsh"@,
        args: seq![
            "-lc"@,
            simulator_script(
                shell_quoted(derived_data_path(workspace_root, target)),
                selector(p.kind, p.project_path),
                shell_quoted(target),
                shell_quoted(simulator_id),
            ),
        ],
        cwd: workspace_root,
    }
}

fn run_apple_simulator_plan(
    workspace_root: &str,
    project: &DetectedProject,
    target: &str,
    simulator_id: &str,
) -> (r: ExecutionPlan)
    requires
        project.kind != ProjectKind::GpuiApplication,
    ensures
        r@ == apple_simulator_plan(workspace_root@, project@, target@, simulator_id@),
{
    let derived_data = shell_escape(derived_data_dir(workspace_root, target).as_str());
    let selector = xcode_selector(project);
    let target = shell_escape(target);
    let simulator_id = shell_escape(simulator_id);
    let dd = derived_data.as_str();
    let sim = simulator_id.as_str();
    let mut s = owned("set -euo pipefail\nmkdir -p ");
    s.append(dd);
    s.append("\nopen -a Simulator\nxcrun simctl boot ");
    s.append(sim);
    s.append(" >/dev/null 2>&1 || true\nxcrun simctl bootstatus ");
    s.append(sim);
    s.append(" -b\n");
    s.append(selector.as_str());
    s.append(" -scheme ");
    s.append(target.as_str());
    s.append(" -destination id=");
    s.append(sim);
    s.append(" -derivedDataPath ");
    s.append(dd);
    s.append(" build\napp_path=\"$(find ");
    s.append(dd);
    s.append(
        "/Build/Products -maxdepth 2 -name '*.app' -print -quit)\"\nif [ -z \"$app_path\" ]; then\necho 'Sofintel could not find the built .app bundle.' >&2\nexit 1\nfi\nbundle_id=\"$(/usr/libexec/PlistBuddy -c 'Print :CFBundleIdentifier' \"$app_path/Info.plist\")\"\nxcrun simctl install ",
    );
    s.append(sim);
    s.append(" \"$app_path\"\nxcrun simctl launch ");
    s.append(sim);
    s.append(" \"$bundle_id\"\n");
    let mut command_label = labelled("xcodebuild ", target.as_str());
    command_label.append(" build and launch");
    ExecutionPlan {
        label: labelled("Run ", project.label.as_str()),
        command_label,
        command: owned("zsh"),
        args: text_pair("-lc", s.as_str()),
        cwd: owned(workspace_root),
    }
}

/// The script that builds an Apple scheme for macOS and opens the app.
pub open spec fn desktop_script(derived_data: Seq<char>, selector: Seq<char>, target: Seq<char>) -> Seq<char> {
    "set -euo pipefail\nmkdir -p "@ + derived_data + "\n"@ + selector + " -scheme "@ + target
        + " -destination 'platform=macOS' -derivedDataPath "@ + derived_data
        + " build\napp_path=\"$(find "@ + derived_data
        + "/Build/Products -maxdepth 2 -name '*.app' -print -quit)\"\nif [ -z \"$app_path\" ]; then\necho 'Sofintel could not find the built .app bundle.' >&2\nexit 1\nfi\nopen -n \"$app_path\"\n"@
}

/// The plan that builds the Apple scheme `target` for this Mac and opens it.
pub open spec fn apple_desktop_plan(workspace_root: Seq<char>, p: ProjectView, target: Seq<char>) -> ExecutionPlanView {
    ExecutionPlanView {
        label: "Run "@ + p.label,
        command_label: "xcodebuild "@ + shell_quoted(target) + " build and open"@,
        command: "zsh"@,
        args: seq![
            "-lc"@,
            desktop_script(
                shell_quoted(derived_data_path(workspace_root, target)),
                selector(p.kind, p.project_path),
                shell_quoted(target),
            ),
        ],
        cwd: workspace_root,
    }
}

fn run_apple_desktop_plan(workspace_root: &str, project: &DetectedProject, target: &str) -> (r: ExecutionPlan)
    requires
        project.kind != ProjectKind::GpuiApplication,
    ensures
        r@ == apple_desktop_plan(workspace_root@, project@, target@),
{
    let derived_data = shell_escape(derived_data_dir(workspace_root, target).as_str());
    let selector = xcode_selector(project);
    let target = shell_escape(target);
    let dd = derived_data.as_str();
    let mut s = owned("set -euo pipefail\nmkdir -p ");
    s.append(dd);
    s.append("\n");
    s.append(selector.as_str());
    s.append(" -scheme ");
    s.append(target.as_str());
    s.append(" -destination 'platform=macOS' -derivedDataPath ");
    s.append(dd);
    s.append(" build\napp_path=\"$(find ");
    s.append(dd);
    s.append(
        "/Build/Products -maxdepth 2 -name '*.app' -print -quit)\"\nif [ -z \"$app_path\" ]; then\necho 'Sofintel could not find the built .app bundle.' >&2\nexit 1\nfi\nopen -n \"$app_path\"\n",
    );
    let mut command_label = labelled("xcodebuild ", target.as_str());
    command_label.append(" build and open");
    ExecutionPlan {
        label: labelled("Run ", project.label.as_str()),
        command_label,
        command: owned("zsh"),
        args: text_pair("-lc", s.as_str()),
        cwd: owned(workspace_root),
    }
}

/// The plan that runs `cargo <verb>` on the binary `target` of a GPUI
/// project.
pub open spec fn cargo_plan(verb: Seq<char>, title: Seq<char>, p: ProjectView, target: Seq<char>) -> ExecutionPlanView {
    ExecutionPlanView {
        label: title + p.label,
        command_label: "cargo "@ + verb + " --bin "@ + target,
        command: "cargo"@,
        args: seq![verb, "--manifest-path"@, p.project_path, "--bin"@, target],
        cwd: p.workspace_root,
    }
}

fn cargo_execution_plan(verb: &str, title: &str, project: &DetectedProject, target: &str) -> (r: ExecutionPlan)
    ensures
        r@ == cargo_plan(verb@, title@, project@, target@),
{
    let mut command_label = labelled("cargo ", verb);
    command_label.append(" --bin ");
    command_label.append(target);
    let mut args: Vec<String> = Vec::new();
    args.push(owned(verb));
    args.push(owned("--manifest-path"));
    args.push(project.project_path.clone());
    args.push(owned("--bin"));
    args.push(owned(target));
    assert(strings_view(args@) =~= seq![
        verb@,
        "--manifest-path"@,
        project.project_path@,
        "--bin"@,
        target@,
    ]);
    ExecutionPlan {
        label: labelled(title, project.label.as_str()),
        command_label,
        command: owned("cargo"),
        args,
        cwd: project.workspace_root.clone(),
    }
}

/// The plan that builds the binary `target` of a GPUI project.
pub open spec fn gpui_build_plan(p: ProjectView, target: Seq<char>) -> ExecutionPlanView {
    cargo_plan("build"@, "Build "@, p, target)
}

fn build_gpui_plan(project: &DetectedProject, target: &str) -> (r: ExecutionPlan)
    ensures
        r@ == gpui_build_plan(project@, target@),
{
    cargo_execution_plan("build", "Build ", project, target)
}

/// The plan that runs the binary `target` of a GPUI project.
pub open spec fn gpui_run_plan(p: ProjectView, target: Seq<char>) -> ExecutionPlanView {
    cargo_plan("run"@, "Run "@, p, target)
}

fn run_gpui_plan(project: &DetectedProject, target: &str) -> (r: ExecutionPlan)
    ensures
        r@ == gpui_run_plan(project@, target@),
{
    cargo_execution_plan("run", "Run ", project, target)
}


/// The views of a list of projects.
pub open spec fn projects_view(ps: Seq<DetectedProject>) -> Seq<ProjectView> {
    ps.map_values(|p: DetectedProject| p@)
}

/// The first project whose id is `id`.
pub open spec fn first_project(ps: Seq<ProjectView>, id: Seq<char>) -> Option<ProjectView>
    decreases ps.len(),
{
    if ps.len() == 0 {
        None
    } else if ps[0].id == id {
        Some(ps[0])
    } else {
        first_project(ps.drop_first(), id)
    }
}

/// The first target whose id is `id`.
pub open spec fn first_target(ts: Seq<TargetView>, id: Seq<char>) -> Option<TargetView>
    decreases ts.len(),
{
    if ts.len() == 0 {
        None
    } else if ts[0].id == id {
        Some(ts[0])
    } else {
        first_target(ts.drop_first(), id)
    }
}

/// The first device whose id is `id`.
pub open spec fn first_device(ds: Seq<DeviceView>, id: Seq<char>) -> Option<DeviceView>
    decreases ds.len(),
{
    if ds.len() == 0 {
        None
    } else if ds[0].id == id {
        Some(ds[0])
    } else {
        first_device(ds.drop_first(), id)
    }
}

fn find_project<'a>(projects: &'a Vec<DetectedProject>, id: &str) -> (r: Option<&'a DetectedProject>)
    ensures
        match r {
            Some(p) => first_project(projects_view(projects@), id@) == Some(p@),
            None => first_project(projects_view(projects@), id@) is None,
        },
{
    let ghost vs = projects_view(projects@);
    let n = projects.len();
    assert(vs.subrange(0, n as int) =~= vs);
    let mut i: usize = 0;
    while i < n
        invariant
            n == projects@.len(),
            vs == projects_view(projects@),
            i <= n,
            first_project(vs, id@) == first_project(vs.subrange(i as int, n as int), id@),
        decreases n - i,
    {
        assert(vs.subrange(i as int, n as int)[0] == projects@[i as int]@);
        if str_eq(projects[i].id.as_str(), id) {
            return Some(&projects[i]);
        }
        assert(vs.subrange(i as int, n as int).drop_first() =~= vs.subrange(
            i as int + 1,
            n as int,
        ));
        i = i + 1;
    }
    None
}

fn find_target<'a>(targets: &'a Vec<RuntimeTarget>, id: &str) -> (r: Option<&'a RuntimeTarget>)
    ensures
        match r {
            Some(t) => first_target(targets@.map_values(|t: RuntimeTarget| t@), id@) == Some(t@),
            None => first_target(targets@.map_values(|t: RuntimeTarget| t@), id@) is None,
        },
{
    let ghost vs = targets@.map_values(|t: RuntimeTarget| t@);
    let n = targets.len();
    assert(vs.subrange(0, n as int) =~= vs);
    let mut i: usize = 0;
    while i < n
        invariant
            n == targets@.len(),
            vs == targets@.map_values(|t: RuntimeTarget| t@),
            i <= n,
            first_target(vs, id@) == first_target(vs.subrange(i as int, n as int), id@),
        decreases n - i,
    {
        assert(vs.subrange(i as int, n as int)[0] == targets@[i as int]@);
        if str_eq(targets[i].id.as_str(), id) {
            return Some(&targets[i]);
        }
        assert(vs.subrange(i as int, n as int).drop_first() =~= vs.subrange(
            i as int + 1,
            n as int,
        ));
        i = i + 1;
    }
    None
}

fn find_device<'a>(devices: &'a Vec<RuntimeDevice>, id: &str) -> (r: Option<&'a RuntimeDevice>)
    ensures
        match r {
            Some(d) => first_device(devices@.map_values(|d: RuntimeDevice| d@), id@) == Some(d@),
            None => first_device(devices@.map_values(|d: RuntimeDevice| d@), id@) is None,
        },
{
    let ghost vs = devices@.map_values(|d: RuntimeDevice| d@);
    let n = devices.len();
    assert(vs.subrange(0, n as int) =~= vs);
    let mut i: usize = 0;
    while i < n
        invariant
            n == devices@.len(),
            vs == devices@.map_values(|d: RuntimeDevice| d@),
            i <= n,
            first_device(vs, id@) == first_device(vs.subrange(i as int, n as int), id@),
        decreases n - i,
    {
        assert(vs.subrange(i as int, n as int)[0] == devices@[i as int]@);
        if str_eq(devices[i].id.as_str(), id) {
            return Some(&devices[i]);
        }
        assert(vs.subrange(i as int, n as int).drop_first() =~= vs.subrange(
            i as int + 1,
            n as int,
        ));
        i = i + 1;
    }
    None
}

pub struct ExecutionRequestView {
    pub project_id: Seq<char>,
    pub target_id: Seq<char>,
    pub device_id: Option<Seq<char>>,
    pub action: RuntimeAction,
}

impl View for ExecutionRequest {
    type V = ExecutionRequestView;

    open spec fn view(&self) -> ExecutionRequestView {
        ExecutionRequestView {
            project_id: self.project_id@,
            target_id: self.target_id@,
            device_id: match self.device_id {
                Some(d) => Some(d@),
                None => None,
            },
            action: self.action,
        }
    }
}

/// The plan that builds the target `t` of the project `p`.
pub open spec fn build_plan_for(p: ProjectView, t: TargetView) -> ExecutionPlanView {
    match p.kind {
        ProjectKind::GpuiApplication => gpui_build_plan(p, t.label),
        _ => apple_build_plan(p.workspace_root, p, t.label),
    }
}

/// The outcome of running the target `t` of the project `p` on the device
/// with id `device_id`.
pub open spec fn run_outcome_for(p: ProjectView, t: TargetView, device_id: Option<Seq<char>>) -> Result<
    ExecutionPlanView,
    RuntimeErrorView,
> {
    match device_id {
        None => Err(RuntimeErrorView::DeviceRequired),
        Some(did) => match first_device(p.devices, did) {
            None => Err(RuntimeErrorView::DeviceNotFound(did)),
            Some(d) => match p.kind {
                ProjectKind::GpuiApplication => if d.kind == RuntimeDeviceKind::Desktop {
                    Ok(gpui_run_plan(p, t.label))
                } else {
                    Err(RuntimeErrorView::UnsupportedDeviceKind)
                },
                _ => match d.kind {
                    RuntimeDeviceKind::Simulator => Ok(
                        apple_simulator_plan(p.workspace_root, p, t.label, d.id),
                    ),
                    RuntimeDeviceKind::Desktop => Ok(
                        apple_desktop_plan(p.workspace_root, p, t.label),
                    ),
                },
            },
        },
    }
}

/// The outcome of an execution request against the projects `ps`.
pub open spec fn execution_outcome(ps: Seq<ProjectView>, req: ExecutionRequestView) -> Result<
    ExecutionPlanView,
    RuntimeErrorView,
> {
    match first_project(ps, req.project_id) {
        None => Err(RuntimeErrorView::ProjectNotFound(req.project_id)),
        Some(p) => match first_target(p.targets, req.target_id) {
            None => Err(RuntimeErrorView::TargetNotFound(req.target_id)),
            Some(t) => match req.action {
                RuntimeAction::Build => if p.build is Available {
                    Ok(build_plan_for(p, t))
                } else {
                    Err(RuntimeErrorView::ActionUnavailable(RuntimeAction::Build, capability_text(p.build)))
                },
                RuntimeAction::Run => if p.run is Available {
                    run_outcome_for(p, t, req.device_id)
                } else {
                    Err(RuntimeErrorView::ActionUnavailable(RuntimeAction::Run, capability_text(p.run)))
                },
            },
        },
    }
}

/// The view of the outcome of planning an execution.
pub open spec fn execution_result_view(r: Result<ExecutionPlan, RuntimeError>) -> Result<
    ExecutionPlanView,
    RuntimeErrorView,
> {
    match r {
        Ok(p) => Ok(p@),
        Err(e) => Err(e@),
    }
}

/// The runnable projects found in a set of workspace roots.
#[derive(Clone, Debug, PartialEq, Eq)]
pub struct RuntimeCatalog {
    pub projects: Vec<DetectedProject>,
}

/// The concatenation of a list of lists.
pub open spec fn flatten_projects(groups: Seq<Seq<DetectedProject>>) -> Seq<DetectedProject>
    decreases groups.len(),
{
    if groups.len() == 0 {
        Seq::empty()
    } else {
        flatten_projects(groups.drop_last()) + groups.last()
    }
}

/// What the two runtime providers detected under one workspace root: the
/// Apple projects and the GPUI applications.
#[derive(Clone, Debug, PartialEq, Eq)]
pub struct RootDetections {
    pub apple: Vec<DetectedProject>,
    pub gpui: Vec<DetectedProject>,
}

/// The projects of one root: the Apple projects, then the GPUI ones.
pub open spec fn root_projects(r: RootDetections) -> Seq<DetectedProject> {
    r.apple@ + r.gpui@
}

/// The projects found under a list of roots: root by root, in order, each
/// root's Apple projects before its GPUI ones.
pub open spec fn roots_projects(roots: Seq<RootDetections>) -> Seq<DetectedProject> {
    flatten_projects(roots.map_values(|r: RootDetections| root_projects(r)))
}

impl Default for RuntimeCatalog {
    fn default() -> (c: RuntimeCatalog)
        ensures
            c.projects@.len() == 0,
    {
        RuntimeCatalog { projects: Vec::new() }
    }
}

impl RuntimeCatalog {
    /// The catalog of what the providers detected under each root, roots
    /// in the order given, and under each root the Apple projects before the
    /// GPUI ones.
    pub fn discover_roots(roots: Vec<RootDetections>) -> (c: RuntimeCatalog)
        ensures
            c.projects@ == roots_projects(roots@),
    {
        let ghost all = roots@;
        let ghost f = |r: RootDetections| root_projects(r);
        let mut rest = roots;
        let mut projects: Vec<DetectedProject> = Vec::new();
        let ghost mut i: int = 0;
        assert(all.take(0).map_values(f) =~= Seq::<Seq<DetectedProject>>::empty());
        while rest.len() > 0
            invariant
                0 <= i <= all.len(),
                f == (|r: RootDetections| root_projects(r)),
                rest@ == all.skip(i),
                projects@ == flatten_projects(all.take(i).map_values(f)),
            decreases rest@.len(),
        {
            let r = rest.remove(0);
            proof {
                assert(r == all[i]);
                assert(rest@ =~= all.skip(i + 1));
                assert(all.take(i + 1).map_values(f).drop_last() =~= all.take(i).map_values(f));
                assert(all.take(i + 1).map_values(f).last() == root_projects(all[i]));
            }
            let RootDetections { apple, gpui } = r;
            let mut apple = apple;
            let mut gpui = gpui;
            projects.append(&mut apple);
            projects.append(&mut gpui);
            proof {
                i = i + 1;
            }
        }
        assert(all.take(i) =~= all);
        RuntimeCatalog { projects }
    }

    /// The catalog of what the runtime providers detected. `detections`
    /// holds one list per workspace root and provider, roots in the order
    /// given and, under each root, the Apple provider before the GPUI one.
    pub fn discover(detections: Vec<Vec<DetectedProject>>) -> (c: RuntimeCatalog)
        ensures
            c.projects@ == flatten_projects(detections@.map_values(|g: Vec<DetectedProject>| g@)),
    {
        let ghost groups = detections@.map_values(|g: Vec<DetectedProject>| g@);
        let total = detections.len();
        assert(groups.len() == total);
        let mut projects: Vec<DetectedProject> = Vec::new();
        let mut i: usize = 0;
        let mut rest = detections;
        let mut pending: Vec<Vec<DetectedProject>> = Vec::new();
        while rest.len() > 0
            invariant
                rest@.len() + pending@.len() == groups.len(),
                groups.len() <= usize::MAX,
                forall|k: int| 0 <= k < rest@.len() ==> #[trigger] rest@[k]@ == groups[k],
                forall|k: int|
                    0 <= k < pending@.len() ==> #[trigger] pending@[k]@ == groups[groups.len() - 1
                        - k],
            decreases rest@.len(),
        {
            let g = rest.pop().unwrap();
            pending.push(g);
        }
        assert(projects@ =~= flatten_projects(groups.subrange(0, 0)));
        while pending.len() > 0
            invariant
                i + pending@.len() == groups.len(),
                groups.len() <= usize::MAX,
                forall|k: int|
                    0 <= k < pending@.len() ==> #[trigger] pending@[k]@ == groups[groups.len() - 1
                        - k],
                projects@ == flatten_projects(groups.subrange(0, i as int)),
            decreases pending@.len(),
        {
            let mut g = pending.pop().unwrap();
            let ghost gv = g@;
            assert(gv == groups[i as int]);
            projects.append(&mut g);
            assert(groups.subrange(0, i as int + 1).drop_last() =~= groups.subrange(0, i as int));
            i = i + 1;
        }
        assert(groups.subrange(0, i as int) =~= groups);
        RuntimeCatalog { projects }
    }

    /// Plans the build or run that `request` asks for.
    pub fn build_execution_plan(&self, request: &ExecutionRequest) -> (r: Result<
        ExecutionPlan,
        RuntimeError,
    >)
        ensures
            execution_result_view(r) == execution_outcome(projects_view(self.projects@), request@),
    {
        let project = match find_project(&self.projects, request.project_id.as_str()) {
            Some(p) => p,
            None => return Err(RuntimeError::ProjectNotFound(request.project_id.clone())),
        };
        let target = match find_target(&project.targets, request.target_id.as_str()) {
            Some(t) => t,
            None => return Err(RuntimeError::TargetNotFound(request.target_id.clone())),
        };
        match request.action {
            RuntimeAction::Build => {
                if project.capabilities.build.is_available() {
                    match project.kind {
                        ProjectKind::GpuiApplication => Ok(
                            build_gpui_plan(project, target.label.as_str()),
                        ),
                        _ => Ok(
                            build_apple_plan(
                                project.workspace_root.as_str(),
                                project,
                                target.label.as_str(),
                            ),
                        ),
                    }
                } else {
                    Err(
                        RuntimeError::ActionUnavailable(
                            request.action,
                            capability_reason(&project.capabilities.build),
                        ),
                    )
                }
            },
            RuntimeAction::Run => {
                if project.capabilities.run.is_available() {
                    let device_id = match &request.device_id {
                        Some(d) => d,
                        None => return Err(RuntimeError::DeviceRequired),
                    };
                    let device = match find_device(&project.devices, device_id.as_str()) {
                        Some(d) => d,
                        None => return Err(RuntimeError::DeviceNotFound(device_id.clone())),
                    };
                    match project.kind {
                        ProjectKind::GpuiApplication => {
                            match device.kind {
                                RuntimeDeviceKind::Desktop => Ok(
                                    run_gpui_plan(project, target.label.as_str()),
                                ),
                                _ => Err(RuntimeError::UnsupportedDeviceKind),
                            }
                        },
                        _ => match device.kind {
                            RuntimeDeviceKind::Simulator => Ok(
                                run_apple_simulator_plan(
                                    project.workspace_root.as_str(),
                                    project,
                                    target.label.as_str(),
                                    device.id.as_str(),
                                ),
                            ),
                            RuntimeDeviceKind::Desktop => Ok(
                                run_apple_desktop_plan(
                                    project.workspace_root.as_str(),
                                    project,
                                    target.label.as_str(),
                                ),
                            ),
                        },
                    }
                } else {
                    Err(
                        RuntimeError::ActionUnavailable(
                            request.action,
                            capability_reason(&project.capabilities.run),
                        ),
                    )
                }
            },
        }
    }
}

} // verus!
