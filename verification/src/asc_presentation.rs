//! What the App Store Connect workspace shows and checks: summaries of
//! command output, build settings, build pages and their labels, and the
//! inputs of the TestFlight release form.
use vstd::prelude::*;
use crate::runtime_catalog::ProjectKind;
use crate::service_types::opt_view;
use crate::string_map::{StringMap, strings_view};
use crate::text::{
    ascii_lower, ascii_upper, contains_text, find_from, has_text, join_text, join_with,
    split_on, split_text, strip_prefix_all, to_ascii_lower, to_ascii_upper, trim,
    trim_start_matches, trim_str, owned, empty_string, find_text, replace_char, replaced,
    ascii_upper_char, str_eq, };

verus! {

/// The last line of `lines` that is not blank, trimmed.
pub open spec fn last_nonblank(lines: Seq<Seq<char>>) -> Option<Seq<char>>
    decreases lines.len(),
{
    if lines.len() == 0 {
        None
    } else if trim(lines.last()).len() > 0 {
        Some(trim(lines.last()))
    } else {
        last_nonblank(lines.drop_last())
    }
}

fn last_nonblank_line(text: &str) -> (r: Option<String>)
    ensures
        opt_view(r) == last_nonblank(split_on(text@, '\n')),
{
    let lines = split_text(text, '\n');
    let ghost ls = strings_view(lines@);
    let mut i: usize = lines.len();
    assert(ls.subrange(0, i as int) =~= ls);
    while i > 0
        invariant
            ls == strings_view(lines@),
            ls == split_on(text@, '\n'),
            i <= lines@.len(),
            last_nonblank(ls) == last_nonblank(ls.subrange(0, i as int)),
        decreases i,
    {
        let t = trim_str(lines[i - 1].as_str());
        let ghost sub = ls.subrange(0, i as int);
        assert(sub.last() == lines@[i - 1]@);
        if t.unicode_len() > 0 {
            assert(sub.len() > 0);
            assert(last_nonblank(sub) == Some(t@));
            return Some(t);
        }
        assert(sub.drop_last() =~= ls.subrange(0, i - 1));
        i = i - 1;
    }
    None
}

/// The message shown for a failed workflow: its last meaningful line,
/// without leading `Error: ` prefixes.
pub open spec fn workflow_error_summary(error: Seq<char>) -> Seq<char> {
    match last_nonblank(split_on(error, '\n')) {
        Some(line) => strip_prefix_all(line, "Error: "@),
        None => "Workflow failed."@,
    }
}

pub fn summarize_workflow_error(error: &str) -> (r: String)
    ensures
        r@ == workflow_error_summary(error@),
{
    match last_nonblank_line(error) {
        Some(line) => trim_start_matches(line.as_str(), "Error: "),
        None => owned("Workflow failed."),
    }
}

/// The message shown for a finished workflow: its last meaningful line.
pub open spec fn workflow_output_summary(output: Seq<char>) -> Seq<char> {
    match last_nonblank(split_on(output, '\n')) {
        Some(line) => line,
        None => "Workflow completed successfully."@,
    }
}

pub fn summarize_workflow_output(output: &str) -> (r: String)
    ensures
        r@ == workflow_output_summary(output@),
{
    match last_nonblank_line(output) {
        Some(line) => line,
        None => owned("Workflow completed successfully."),
    }
}

/// Whether a TestFlight failure only says that the build cannot be handed
/// to groups yet.
pub open spec fn distribution_pending(error: Seq<char>) -> bool {
    let e = ascii_lower(error);
    contains_text(e, "failed to add groups"@) && (contains_text(
        e,
        "not in an internally testable state"@,
    ) || contains_text(e, "not in an externally testable state"@) || contains_text(
        e,
        "build is not assignable"@,
    ))
}

pub fn is_testflight_distribution_pending_error(error: &str) -> (b: bool)
    ensures
        b == distribution_pending(error@),
{
    let e = to_ascii_lower(error);
    let e = e.as_str();
    has_text(e, "failed to add groups") && (has_text(e, "not in an internally testable state")
        || has_text(e, "not in an externally testable state") || has_text(
        e,
        "build is not assignable",
    ))
}

/// Where the `asc` tool is installed and which version it is.
#[derive(Clone, Debug, PartialEq, Eq)]
pub struct AscCliSummary {
    pub path: String,
    pub version: String,
}

pub fn asc_cli_missing_message() -> (r: String)
    ensures
        r@ == "This provider requires a local ASC CLI installation."@,
{
    owned("This provider requires a local ASC CLI installation.")
}

/// The outcome of probing for the `asc` tool, from what `command -v asc`
/// and `asc version` printed.
pub open spec fn cli_probe_outcome(path_output: Seq<char>, version_output: Seq<char>) -> Result<
    (Seq<char>, Seq<char>),
    Seq<char>,
> {
    let path = trim(path_output);
    let version = trim(version_output);
    if path.len() == 0 {
        Err("This provider requires a local ASC CLI installation."@)
    } else if version.len() == 0 {
        Err(
            "ASC CLI was found at "@ + path + ", but Sofintel could not read its version."@,
        )
    } else {
        Ok((path, version))
    }
}

pub fn parse_asc_cli_probe(path_output: &str, version_output: &str) -> (r: Result<
    AscCliSummary,
    String,
>)
    ensures
        match r {
            Ok(s) => cli_probe_outcome(path_output@, version_output@) == Ok::<
                (Seq<char>, Seq<char>),
                Seq<char>,
            >((s.path@, s.version@)),
            Err(e) => cli_probe_outcome(path_output@, version_output@) == Err::<
                (Seq<char>, Seq<char>),
                Seq<char>,
            >(e@),
        },
{
    let path = trim_str(path_output);
    if path.unicode_len() == 0 {
        return Err(asc_cli_missing_message());
    }
    let version = trim_str(version_output);
    if version.unicode_len() == 0 {
        let mut message = owned("ASC CLI was found at ");
        message.append(path.as_str());
        message.append(", but Sofintel could not read its version.");
        return Err(message);
    }
    Ok(AscCliSummary { path, version })
}

/// The text that `String::from_utf8_lossy` decodes from `bytes`.
pub uninterp spec fn utf8_lossy(bytes: Seq<u8>) -> Seq<char>;

/// Calls `String::from_utf8_lossy`, which decodes UTF-8 and puts U+FFFD in
/// place of invalid sequences. Its result depends on the bytes alone and is
/// named `utf8_lossy`; as std documents, bytes that are valid UTF-8 come
/// back as the text they encode. What it gives for invalid bytes is not
/// stated further.
#[verifier::external_body]
pub(crate) fn decode_utf8_lossy(bytes: &[u8]) -> (r: String)
    ensures
        r@ == utf8_lossy(bytes@),
        vstd::utf8::valid_utf8(bytes@) ==> r@ == vstd::utf8::decode_utf8(bytes@),
{
    String::from_utf8_lossy(bytes).into_owned()
}

/// The detail of a command's outcome: its trimmed error output, else its
/// trimmed standard output, else `fallback`.
pub open spec fn output_detail(stdout: Seq<char>, stderr: Seq<char>, fallback: Seq<char>) -> Seq<char> {
    if trim(stderr).len() > 0 {
        trim(stderr)
    } else if trim(stdout).len() > 0 {
        trim(stdout)
    } else {
        fallback
    }
}

/// The detail of a command's outcome from its decoded output texts.
pub fn output_detail_text(stdout: &str, stderr: &str, fallback: &str) -> (r: String)
    ensures
        r@ == output_detail(stdout@, stderr@, fallback@),
{
    let stderr = trim_str(stderr);
    if stderr.unicode_len() > 0 {
        return stderr;
    }
    let stdout = trim_str(stdout);
    if stdout.unicode_len() > 0 {
        return stdout;
    }
    owned(fallback)
}

pub fn command_output_detail(stdout: &[u8], stderr: &[u8], fallback: &str) -> (r: String)
    ensures
        r@ == output_detail(utf8_lossy(stdout@), utf8_lossy(stderr@), fallback@),
{
    let stdout_text = decode_utf8_lossy(stdout);
    let stderr_text = decode_utf8_lossy(stderr);
    output_detail_text(stdout_text.as_str(), stderr_text.as_str(), fallback)
}

/// The part of `s` before the first occurrence of `sep`, and the part
/// after it.
pub open spec fn split_once(s: Seq<char>, sep: Seq<char>) -> Option<(Seq<char>, Seq<char>)> {
    match find_from(s, sep, 0) {
        Some(i) => Some((s.subrange(0, i), s.subrange(i + sep.len(), s.len() as int))),
        None => None,
    }
}

fn split_once_text(s: &str, sep: &str) -> (r: Option<(String, String)>)
    ensures
        match r {
            Some((a, b)) => split_once(s@, sep@) == Some((a@, b@)),
            None => split_once(s@, sep@) is None,
        },
{
    match find_text(s, sep) {
        Some(i) => {
            proof {
                lemma_find_from_bounds(s@, sep@, 0);
            }
            let n = s.unicode_len();
            let m = sep.unicode_len();
            let before = owned(s.substring_char(0, i));
            let after = owned(s.substring_char(i + m, n));
            Some((before, after))
        },
        None => None,
    }
}

proof fn lemma_find_from_bounds(s: Seq<char>, pat: Seq<char>, from: int)
    ensures
        find_from(s, pat, from) matches Some(i) ==> from <= i && i + pat.len() <= s.len(),
    decreases s.len() - from,
{
    if from >= 0 && from + pat.len() <= s.len() && !(pat.len() == 0 || s.subrange(
        from,
        from + pat.len(),
    ) == pat) {
        lemma_find_from_bounds(s, pat, from + 1);
    }
}

/// The value of the first `KEY = value` line of `lines` whose key, trimmed,
/// is `key`; the value is trimmed.
pub open spec fn setting_in(lines: Seq<Seq<char>>, key: Seq<char>) -> Option<Seq<char>>
    decreases lines.len(),
{
    if lines.len() == 0 {
        None
    } else {
        match split_once(lines[0], " = "@) {
            Some((k, v)) => if trim(k) == key {
                Some(trim(v))
            } else {
                setting_in(lines.drop_first(), key)
            },
            None => setting_in(lines.drop_first(), key),
        }
    }
}

/// The value of the build setting `key` in the output of
/// `xcodebuild -showBuildSettings`.
pub open spec fn build_setting_of(output: Seq<char>, key: Seq<char>) -> Option<Seq<char>> {
    setting_in(split_on(output, '\n'), key)
}

pub fn build_setting(output: &str, key: &str) -> (r: Option<String>)
    ensures
        opt_view(r) == build_setting_of(output@, key@),
{
    let lines = split_text(output, '\n');
    let ghost ls = strings_view(lines@);
    let n = lines.len();
    assert(ls.subrange(0, n as int) =~= ls);
    let mut i: usize = 0;
    while i < n
        invariant
            n == lines@.len(),
            ls == strings_view(lines@),
            ls == split_on(output@, '\n'),
            i <= n,
            setting_in(ls, key@) == setting_in(ls.subrange(i as int, n as int), key@),
        decreases n - i,
    {
        let ghost sub = ls.subrange(i as int, n as int);
        assert(sub[0] == lines@[i as int]@);
        assert(sub.drop_first() =~= ls.subrange(i as int + 1, n as int));
        match split_once_text(lines[i].as_str(), " = ") {
            Some((k, v)) => {
                let tk = trim_str(k.as_str());
                if str_eq(tk.as_str(), key) {
                    let value = trim_str(v.as_str());
                    assert(sub.len() > 0);
                    assert(setting_in(sub, key@) == Some(value@));
                    return Some(value);
                }
            },
            None => {},
        }
        i = i + 1;
    }
    None
}

/// The platform that an `xcodebuild -showBuildSettings` output builds for,
/// told by its `SDKROOT` and `SUPPORTED_PLATFORMS` settings.
pub open spec fn inferred_platform(output: Seq<char>) -> Option<Seq<char>> {
    let sdk = ascii_lower(
        match build_setting_of(output, "SDKROOT"@) {
            Some(v) => v,
            None => Seq::empty(),
        },
    );
    let platforms = ascii_lower(
        match build_setting_of(output, "SUPPORTED_PLATFORMS"@) {
            Some(v) => v,
            None => Seq::empty(),
        },
    );
    let combined = sdk + " "@ + platforms;
    if contains_text(combined, "iphone"@) {
        Some("IOS"@)
    } else if contains_text(combined, "macos"@) {
        Some("MAC_OS"@)
    } else if contains_text(combined, "appletv"@) {
        Some("TV_OS"@)
    } else if contains_text(combined, "xros"@) || contains_text(combined, "vision"@) {
        Some("VISION_OS"@)
    } else {
        None
    }
}

pub fn infer_platform(output: &str) -> (r: Option<String>)
    ensures
        opt_view(r) == inferred_platform(output@),
{
    let sdk = match build_setting(output, "SDKROOT") {
        Some(v) => to_ascii_lower(v.as_str()),
        None => {
            let e = empty_string();
            assert(ascii_lower(Seq::<char>::empty()) =~= Seq::<char>::empty());
            e
        },
    };
    let platforms = match build_setting(output, "SUPPORTED_PLATFORMS") {
        Some(v) => to_ascii_lower(v.as_str()),
        None => {
            let e = empty_string();
            assert(ascii_lower(Seq::<char>::empty()) =~= Seq::<char>::empty());
            e
        },
    };
    let mut combined = sdk;
    combined.append(" ");
    combined.append(platforms.as_str());
    let c = combined.as_str();
    if has_text(c, "iphone") {
        Some(owned("IOS"))
    } else if has_text(c, "macos") {
        Some(owned("MAC_OS"))
    } else if has_text(c, "appletv") {
        Some(owned("TV_OS"))
    } else if has_text(c, "xros") || has_text(c, "vision") {
        Some(owned("VISION_OS"))
    } else {
        None
    }
}


/// How a platform name reads.
pub open spec fn platform_text(platform: Option<Seq<char>>) -> Seq<char> {
    match platform {
        Some(p) => if p == "IOS"@ {
            "iOS"@
        } else if p == "MAC_OS"@ {
            "macOS"@
        } else if p == "TV_OS"@ {
            "tvOS"@
        } else if p == "VISION_OS"@ {
            "visionOS"@
        } else {
            replaced(p, '_', " "@)
        },
        None => "Unknown"@,
    }
}

pub fn format_platform(platform: Option<&str>) -> (r: String)
    ensures
        r@ == platform_text(
            match platform {
                Some(p) => Some(p@),
                None => None,
            },
        ),
{
    match platform {
        Some(p) => if str_eq(p, "IOS") {
            owned("iOS")
        } else if str_eq(p, "MAC_OS") {
            owned("macOS")
        } else if str_eq(p, "TV_OS") {
            owned("tvOS")
        } else if str_eq(p, "VISION_OS") {
            owned("visionOS")
        } else {
            replace_char(p, '_', " ")
        },
        None => owned("Unknown"),
    }
}

/// A word with its first letter capital and the rest small (ASCII only).
pub open spec fn capitalized(word: Seq<char>) -> Seq<char> {
    if word.len() == 0 {
        Seq::empty()
    } else {
        seq![ascii_upper_char(word[0])] + ascii_lower(word.drop_first())
    }
}

/// The non-empty words of `words`, capitalized.
pub open spec fn capitalized_words(words: Seq<Seq<char>>) -> Seq<Seq<char>>
    decreases words.len(),
{
    if words.len() == 0 {
        Seq::empty()
    } else if words.last().len() > 0 {
        capitalized_words(words.drop_last()).push(capitalized(words.last()))
    } else {
        capitalized_words(words.drop_last())
    }
}

/// How a state such as `READY_FOR_REVIEW` reads: `Ready For Review`.
pub open spec fn state_text(state: Seq<char>) -> Seq<char> {
    join_with(capitalized_words(split_on(state, '_')), " "@)
}

fn capitalize(word: &str) -> (r: String)
    ensures
        r@ == capitalized(word@),
{
    let n = word.unicode_len();
    if n == 0 {
        return empty_string();
    }
    let first = word.substring_char(0, 1);
    let rest = word.substring_char(1, n);
    assert(rest@ =~= word@.drop_first());
    let mut r = to_ascii_upper(first);
    assert(first@ =~= seq![word@[0]]);
    assert(ascii_upper(first@) =~= seq![ascii_upper_char(word@[0])]);
    r.append(to_ascii_lower(rest).as_str());
    r
}

pub fn format_processing_state(processing_state: &str) -> (r: String)
    ensures
        r@ == state_text(processing_state@),
{
    let words = split_text(processing_state, '_');
    let ghost ws = strings_view(words@);
    let mut out: Vec<String> = Vec::new();
    let mut i: usize = 0;
    assert(ws.subrange(0, 0) =~= Seq::<Seq<char>>::empty());
    assert(strings_view(out@) =~= Seq::<Seq<char>>::empty());
    while i < words.len()
        invariant
            ws == strings_view(words@),
            i <= words@.len(),
            strings_view(out@) == capitalized_words(ws.subrange(0, i as int)),
        decreases words@.len() - i,
    {
        let ghost next = ws.subrange(0, i as int + 1);
        assert(next.drop_last() =~= ws.subrange(0, i as int));
        assert(next.last() == words@[i as int]@);
        if words[i].unicode_len() > 0 {
            let ghost before = strings_view(out@);
            let c = capitalize(words[i].as_str());
            out.push(c);
            assert(strings_view(out@) =~= before.push(capitalized(words@[i as int]@)));
        }
        i = i + 1;
    }
    assert(ws.subrange(0, i as int) =~= ws);
    join_text(&out, " ")
}

/// How an upload timestamp such as `2026-04-05T12:34:56Z` reads:
/// `2026-04-05 12:34`.
pub open spec fn build_date_text(timestamp: Seq<char>) -> Seq<char> {
    match split_once(timestamp, "T"@) {
        Some((date, time)) => date + " "@ + time.take(
            if time.len() < 5 {
                time.len() as int
            } else {
                5
            },
        ),
        None => timestamp,
    }
}

pub fn format_build_date(timestamp: &str) -> (r: String)
    ensures
        r@ == build_date_text(timestamp@),
{
    match split_once_text(timestamp, "T") {
        Some((date, time)) => {
            let n = time.unicode_len();
            let k: usize = if n < 5 {
                n
            } else {
                5
            };
            let mut r = date;
            r.append(" ");
            let head = time.as_str().substring_char(0, k);
            assert(head@ =~= time@.take(k as int));
            r.append(head);
            r
        },
        None => owned(timestamp),
    }
}

/// A build of an app, as the builds page shows it.
#[derive(Clone, Debug, PartialEq, Eq)]
pub struct AscBuildSummary {
    pub id: String,
    pub build_number: String,
    pub marketing_version: Option<String>,
    pub platform: Option<String>,
    pub processing_state: String,
    pub uploaded_date: String,
    pub expiration_date: Option<String>,
    pub testflight_internal_state: Option<String>,
    pub testflight_external_state: Option<String>,
    pub app_store_version_id: Option<String>,
    pub app_store_state: Option<String>,
}

/// Where a build has been released to.
pub open spec fn release_type_text(build: AscBuildSummary) -> Seq<char> {
    let in_testflight = build.testflight_internal_state is Some
        || build.testflight_external_state is Some;
    let in_app_store = build.app_store_version_id is Some;
    if in_testflight && in_app_store {
        "TestFlight + App Store"@
    } else if in_testflight {
        "TestFlight"@
    } else if in_app_store {
        "App Store"@
    } else {
        "Unknown"@
    }
}

pub fn build_release_type(build: &AscBuildSummary) -> (r: String)
    ensures
        r@ == release_type_text(*build),
{
    let in_testflight = build.testflight_internal_state.is_some()
        || build.testflight_external_state.is_some();
    let in_app_store = build.app_store_version_id.is_some();
    if in_testflight && in_app_store {
        owned("TestFlight + App Store")
    } else if in_testflight {
        owned("TestFlight")
    } else if in_app_store {
        owned("App Store")
    } else {
        owned("Unknown")
    }
}

/// The states of a build: processing, then TestFlight, then App Store.
pub open spec fn status_parts(build: AscBuildSummary) -> Seq<Seq<char>> {
    seq![state_text(build.processing_state@)] + match build.testflight_external_state {
        Some(s) => seq!["TF "@ + state_text(s@)],
        None => Seq::empty(),
    } + match build.app_store_state {
        Some(s) => seq!["AS "@ + state_text(s@)],
        None => Seq::empty(),
    }
}

pub fn build_status_summary(build: &AscBuildSummary) -> (r: String)
    ensures
        r@ == join_with(status_parts(*build), " · "@),
{
    let mut states: Vec<String> = Vec::new();
    states.push(format_processing_state(build.processing_state.as_str()));
    let ghost s0 = strings_view(states@);
    assert(s0 =~= seq![state_text(build.processing_state@)]);
    match &build.testflight_external_state {
        Some(state) => {
            let mut t = owned("TF ");
            t.append(format_processing_state(state.as_str()).as_str());
            states.push(t);
        },
        None => {},
    }
    let ghost s1 = strings_view(states@);
    assert(s1 =~= s0 + match build.testflight_external_state {
        Some(s) => seq!["TF "@ + state_text(s@)],
        None => Seq::empty(),
    });
    match &build.app_store_state {
        Some(state) => {
            let mut t = owned("AS ");
            t.append(format_processing_state(state.as_str()).as_str());
            states.push(t);
        },
        None => {},
    }
    assert(strings_view(states@) =~= status_parts(*build));
    join_text(&states, " · ")
}

/// The colour in which a state is shown.
#[derive(Clone, Copy, Debug, PartialEq, Eq, Structural)]
pub enum StateColor {
    Error,
    Warning,
    Success,
    Muted,
}

/// The colour of a state: failures in error colour, pending states in
/// warning colour, good states in success colour, and anything else muted.
pub open spec fn state_color(value: Seq<char>) -> StateColor {
    let v = ascii_upper(value);
    if contains_text(v, "REJECTED"@) || contains_text(v, "INVALID"@) || contains_text(
        v,
        "FAILED"@,
    ) || contains_text(v, "ERROR"@) {
        StateColor::Error
    } else if contains_text(v, "WAITING"@) || contains_text(v, "IN_REVIEW"@) || contains_text(
        v,
        "FOR_REVIEW"@,
    ) || contains_text(v, "PROCESSING"@) || contains_text(v, "PENDING"@) || contains_text(
        v,
        "PREPARE"@,
    ) || contains_text(v, "SUBMITTED"@) {
        StateColor::Warning
    } else if contains_text(v, "READY"@) || contains_text(v, "VALID"@) || contains_text(
        v,
        "ACTIVE"@,
    ) || contains_text(v, "APPROVED"@) || contains_text(v, "TESTING"@) {
        StateColor::Success
    } else {
        StateColor::Muted
    }
}

pub fn color_for_state(value: &str) -> (c: StateColor)
    ensures
        c == state_color(value@),
{
    let v = to_ascii_upper(value);
    let v = v.as_str();
    if has_text(v, "REJECTED") || has_text(v, "INVALID") || has_text(v, "FAILED") || has_text(
        v,
        "ERROR",
    ) {
        StateColor::Error
    } else if has_text(v, "WAITING") || has_text(v, "IN_REVIEW") || has_text(v, "FOR_REVIEW")
        || has_text(v, "PROCESSING") || has_text(v, "PENDING") || has_text(v, "PREPARE")
        || has_text(v, "SUBMITTED") {
        StateColor::Warning
    } else if has_text(v, "READY") || has_text(v, "VALID") || has_text(v, "ACTIVE") || has_text(
        v,
        "APPROVED",
    ) || has_text(v, "TESTING") {
        StateColor::Success
    } else {
        StateColor::Muted
    }
}

/// How a labelled state such as `TF READY_FOR_TESTING` reads: the label
/// kept, the state formatted.
pub open spec fn embedded_state_text(value: Seq<char>) -> Seq<char> {
    match split_once(value, " "@) {
        Some((label, state)) => label + " "@ + state_text(state),
        None => state_text(value),
    }
}

pub fn format_embedded_state(value: &str) -> (r: String)
    ensures
        r@ == embedded_state_text(value@),
{
    match split_once_text(value, " ") {
        Some((label, state)) => {
            let mut r = label;
            r.append(" ");
            r.append(format_processing_state(state.as_str()).as_str());
            r
        },
        None => format_processing_state(value),
    }
}

/// `value` trimmed, unless nothing is left of it.
pub open spec fn non_empty_text(value: Seq<char>) -> Option<Seq<char>> {
    if trim(value).len() > 0 {
        Some(trim(value))
    } else {
        None
    }
}

pub fn non_empty_string(value: String) -> (r: Option<String>)
    ensures
        opt_view(r) == non_empty_text(value@),
{
    let t = trim_str(value.as_str());
    if t.unicode_len() > 0 {
        Some(t)
    } else {
        None
    }
}

/// The command that waits until the file at `path` holds a two-factor
/// code, then prints it.
pub open spec fn two_factor_wait_text(path: Seq<char>) -> Seq<char> {
    let p = replaced(path, '"', "\\\""@);
    "sh -lc 'while [ ! -s \""@ + p + "\" ]; do sleep 1; done; cat \""@ + p + "\"'"@
}

pub fn two_factor_wait_command(path: &str) -> (r: String)
    ensures
        r@ == two_factor_wait_text(path@),
{
    let p = replace_char(path, '"', "\\\"");
    let mut r = owned("sh -lc 'while [ ! -s \"");
    r.append(p.as_str());
    r.append("\" ]; do sleep 1; done; cat \"");
    r.append(p.as_str());
    r.append("\"'");
    r
}


/// The attributes of a build, as the App Store Connect API reports them.
#[derive(Clone, Debug)]
pub struct AscBuildAttributes {
    pub version: String,
    pub uploaded_date: String,
    pub expiration_date: Option<String>,
    pub processing_state: String,
}

#[derive(Clone, Debug)]
pub struct AscRelatedResourceIdentifier {
    pub id: String,
}

#[derive(Clone, Debug)]
pub struct AscBuildRelationship {
    pub data: Option<AscRelatedResourceIdentifier>,
}

#[derive(Clone, Debug)]
pub struct AscBuildRelationships {
    pub pre_release_version: Option<AscBuildRelationship>,
}

#[derive(Clone, Debug)]
pub struct AscBuildRecord {
    pub id: String,
    pub attributes: AscBuildAttributes,
    pub relationships: AscBuildRelationships,
}

#[derive(Clone, Debug)]
pub struct AscPreReleaseVersionAttributes {
    pub version: String,
    pub platform: String,
}

#[derive(Clone, Debug)]
pub struct AscPreReleaseVersionRecord {
    pub resource_type: String,
    pub id: String,
    pub attributes: AscPreReleaseVersionAttributes,
}

#[derive(Clone, Debug)]
pub struct AscPaginationLinks {
    pub next: String,
}

/// One page of the App Store Connect builds listing.
#[derive(Clone, Debug)]
pub struct AscBuildsResponse {
    pub data: Vec<AscBuildRecord>,
    pub included: Vec<AscPreReleaseVersionRecord>,
    pub links: AscPaginationLinks,
}

/// A page of builds and where the next page is, if there is one.
#[derive(Clone, Debug, PartialEq, Eq)]
pub struct AscBuildPage {
    pub builds: Vec<AscBuildSummary>,
    pub next_page_url: Option<String>,
}

/// The marketing versions (when `platforms` is false) or platforms of the
/// pre-release versions included in a page, by id; a later record with an
/// id replaces an earlier one.
pub open spec fn pre_release_field(records: Seq<AscPreReleaseVersionRecord>, platforms: bool) -> Map<
    Seq<char>,
    Seq<char>,
>
    decreases records.len(),
{
    if records.len() == 0 {
        Map::empty()
    } else {
        let m = pre_release_field(records.drop_last(), platforms);
        let r = records.last();
        if r.resource_type@ == "preReleaseVersions"@ {
            m.insert(
                r.id@,
                if platforms {
                    r.attributes.platform@
                } else {
                    r.attributes.version@
                },
            )
        } else {
            m
        }
    }
}

/// The id of the pre-release version that a build record points to.
pub open spec fn pre_release_id(b: AscBuildRecord) -> Option<Seq<char>> {
    match b.relationships.pre_release_version {
        Some(rel) => match rel.data {
            Some(ident) => Some(ident.id@),
            None => None,
        },
        None => None,
    }
}

/// The value that `m` holds under the optional key `key`.
pub open spec fn lookup_opt(m: Map<Seq<char>, Seq<char>>, key: Option<Seq<char>>) -> Option<
    Seq<char>,
> {
    match key {
        Some(k) => if m.dom().contains(k) {
            Some(m[k])
        } else {
            None
        },
        None => None,
    }
}

/// `s` summarizes the build record `b`, whose page included `records`.
pub open spec fn summarizes(
    s: AscBuildSummary,
    b: AscBuildRecord,
    records: Seq<AscPreReleaseVersionRecord>,
) -> bool {
    &&& s.id@ == b.id@
    &&& s.build_number@ == b.attributes.version@
    &&& opt_view(s.marketing_version) == lookup_opt(
        pre_release_field(records, false),
        pre_release_id(b),
    )
    &&& opt_view(s.platform) == lookup_opt(pre_release_field(records, true), pre_release_id(b))
    &&& s.processing_state@ == b.attributes.processing_state@
    &&& s.uploaded_date@ == b.attributes.uploaded_date@
    &&& opt_view(s.expiration_date) == opt_view(b.attributes.expiration_date)
    &&& s.testflight_internal_state is None
    &&& s.testflight_external_state is None
    &&& s.app_store_version_id is None
    &&& s.app_store_state is None
}

fn pre_release_maps(records: &Vec<AscPreReleaseVersionRecord>) -> (r: (StringMap, StringMap))
    ensures
        r.0@ == pre_release_field(records@, false),
        r.1@ == pre_release_field(records@, true),
{
    let mut versions = StringMap::new();
    let mut platforms = StringMap::new();
    let mut i: usize = 0;
    assert(records@.subrange(0, 0) =~= Seq::<AscPreReleaseVersionRecord>::empty());
    while i < records.len()
        invariant
            i <= records@.len(),
            versions@ == pre_release_field(records@.subrange(0, i as int), false),
            platforms@ == pre_release_field(records@.subrange(0, i as int), true),
        decreases records@.len() - i,
    {
        let ghost next = records@.subrange(0, i as int + 1);
        assert(next.drop_last() =~= records@.subrange(0, i as int));
        let r = &records[i];
        if str_eq(r.resource_type.as_str(), "preReleaseVersions") {
            versions.insert(r.id.clone(), r.attributes.version.clone());
            platforms.insert(r.id.clone(), r.attributes.platform.clone());
        }
        i = i + 1;
    }
    assert(records@.subrange(0, i as int) =~= records@);
    (versions, platforms)
}

fn lookup_related(m: &StringMap, key: &Option<String>) -> (r: Option<String>)
    ensures
        opt_view(r) == lookup_opt(m@, opt_view(*key)),
{
    match key {
        Some(k) => match m.get(k.as_str()) {
            Some(v) => Some(v.clone()),
            None => None,
        },
        None => None,
    }
}

fn related_id(b: &AscBuildRecord) -> (r: Option<String>)
    ensures
        opt_view(r) == pre_release_id(*b),
{
    match &b.relationships.pre_release_version {
        Some(rel) => match &rel.data {
            Some(ident) => Some(ident.id.clone()),
            None => None,
        },
        None => None,
    }
}

fn clone_opt(o: &Option<String>) -> (r: Option<String>)
    ensures
        opt_view(r) == opt_view(*o),
{
    match o {
        Some(s) => Some(s.clone()),
        None => None,
    }
}

/// Turns a page of the builds listing into build summaries, in the order
/// of the page, each with the marketing version and platform of the
/// pre-release version it points to.
pub fn build_page_from_response(response: AscBuildsResponse) -> (page: AscBuildPage)
    ensures
        page.builds@.len() == response.data@.len(),
        forall|i: int|
            0 <= i < page.builds@.len() ==> summarizes(
                #[trigger] page.builds@[i],
                response.data@[i],
                response.included@,
            ),
        opt_view(page.next_page_url) == non_empty_text(response.links.next@),
{
    let (versions, platforms) = pre_release_maps(&response.included);
    let mut builds: Vec<AscBuildSummary> = Vec::new();
    let mut i: usize = 0;
    while i < response.data.len()
        invariant
            i <= response.data@.len(),
            builds@.len() == i,
            versions@ == pre_release_field(response.included@, false),
            platforms@ == pre_release_field(response.included@, true),
            forall|k: int|
                0 <= k < i ==> summarizes(
                    #[trigger] builds@[k],
                    response.data@[k],
                    response.included@,
                ),
        decreases response.data@.len() - i,
    {
        let b = &response.data[i];
        let rid = related_id(b);
        let summary = AscBuildSummary {
            id: b.id.clone(),
            build_number: b.attributes.version.clone(),
            marketing_version: lookup_related(&versions, &rid),
            platform: lookup_related(&platforms, &rid),
            processing_state: b.attributes.processing_state.clone(),
            uploaded_date: b.attributes.uploaded_date.clone(),
            expiration_date: clone_opt(&b.attributes.expiration_date),
            testflight_internal_state: None,
            testflight_external_state: None,
            app_store_version_id: None,
            app_store_state: None,
        };
        builds.push(summary);
        i = i + 1;
    }
    AscBuildPage { builds, next_page_url: non_empty_string(response.links.next.clone()) }
}


/// A scheme of a local Apple project, with the build settings read from it.
#[derive(Clone, Debug, PartialEq, Eq)]
pub struct AppleWorkspaceSchemeSummary {
    pub id: String,
    pub label: String,
    pub bundle_id: Option<String>,
    pub marketing_version: Option<String>,
    pub build_number: Option<String>,
    pub platform: Option<String>,
}

/// A local Apple project and its schemes; the path is held as text.
#[derive(Clone, Debug, PartialEq, Eq)]
pub struct AppleWorkspaceProjectSummary {
    pub id: String,
    pub label: String,
    pub project_path: String,
    pub project_kind: ProjectKind,
    pub schemes: Vec<AppleWorkspaceSchemeSummary>,
}

impl AppleWorkspaceProjectSummary {
    /// The project's path as shown to the user.
    pub fn display_path(&self) -> (r: String)
        ensures
            r@ == self.project_path@,
    {
        self.project_path.clone()
    }
}

/// Where the build that is published to TestFlight comes from.
#[derive(Clone, Copy, Debug, PartialEq, Eq, Structural)]
pub enum AscTestFlightSourceMode {
    LocalProject,
    IpaFile,
    ExistingBuild,
}

/// The name of a source mode.
pub open spec fn source_mode_text(mode: AscTestFlightSourceMode) -> Seq<char> {
    match mode {
        AscTestFlightSourceMode::LocalProject => "Local Project"@,
        AscTestFlightSourceMode::IpaFile => "IPA File"@,
        AscTestFlightSourceMode::ExistingBuild => "Existing Build"@,
    }
}

impl AscTestFlightSourceMode {
    pub fn label(self) -> (r: &'static str)
        ensures
            r@ == source_mode_text(self),
    {
        match self {
            AscTestFlightSourceMode::LocalProject => "Local Project",
            AscTestFlightSourceMode::IpaFile => "IPA File",
            AscTestFlightSourceMode::ExistingBuild => "Existing Build",
        }
    }
}

/// What the TestFlight release form holds, its text fields trimmed.
#[derive(Clone, Debug)]
pub struct AscTestFlightWorkflowValues {
    pub source_mode: AscTestFlightSourceMode,
    pub project_kind: Option<ProjectKind>,
    pub project_path: Option<String>,
    pub scheme: Option<AppleWorkspaceSchemeSummary>,
    pub ipa_path: String,
    pub version: String,
    pub build_id: String,
    pub build_number: String,
    pub group: String,
    pub configuration: String,
    pub export_options: String,
    pub wait_for_processing: bool,
    pub notify_testers: bool,
    pub clean_build: bool,
}

/// `m` with `key` set to `value` when `value` is not empty.
pub open spec fn with_nonempty(m: Map<Seq<char>, Seq<char>>, key: Seq<char>, value: Seq<char>) -> Map<
    Seq<char>,
    Seq<char>,
> {
    if value.len() > 0 {
        m.insert(key, value)
    } else {
        m
    }
}

/// `m` with `key` set to `true` when `on` holds.
pub open spec fn with_flag(m: Map<Seq<char>, Seq<char>>, key: Seq<char>, on: bool) -> Map<
    Seq<char>,
    Seq<char>,
> {
    if on {
        m.insert(key, "true"@)
    } else {
        m
    }
}

/// The workflow inputs for a release from a local project, or why the
/// form cannot give them.
pub open spec fn local_project_inputs(v: AscTestFlightWorkflowValues, base: Map<Seq<char>, Seq<char>>) -> Result<
    Map<Seq<char>, Seq<char>>,
    Seq<char>,
> {
    if v.project_kind is None || v.project_path is None {
        Err("Workspace Project is required"@)
    } else if v.scheme is None {
        Err("Scheme is required"@)
    } else {
        let kind = v.project_kind->0;
        let scheme = v.scheme->0;
        match kind {
            ProjectKind::GpuiApplication => Err(
                "TestFlight local build requires an Apple project or workspace."@,
            ),
            _ => {
                let path_key = if kind == ProjectKind::AppleWorkspace {
                    "workspace_path"@
                } else {
                    "project_path"@
                };
                let m = with_nonempty(
                    with_nonempty(
                        base.insert(path_key, v.project_path->0@).insert(
                            "scheme"@,
                            scheme.label@,
                        ),
                        "version"@,
                        v.version@,
                    ),
                    "configuration"@,
                    v.configuration@,
                );
                if v.export_options@.len() == 0 {
                    Err("Export Options is required for local project publishing."@)
                } else {
                    let m = m.insert("export_options"@, v.export_options@);
                    let m = match scheme.platform {
                        Some(p) => m.insert("platform"@, p@),
                        None => m,
                    };
                    Ok(with_flag(m, "clean"@, v.clean_build))
                }
            },
        }
    }
}

/// The inputs of the TestFlight publishing workflow that the release form
/// gives, or the message that says what the form lacks.
pub open spec fn testflight_inputs(v: AscTestFlightWorkflowValues) -> Result<
    Map<Seq<char>, Seq<char>>,
    Seq<char>,
> {
    if v.group@.len() == 0 {
        Err("Beta Groups is required"@)
    } else {
        let base = Map::<Seq<char>, Seq<char>>::empty().insert("group"@, v.group@);
        let source = match v.source_mode {
            AscTestFlightSourceMode::LocalProject => local_project_inputs(v, base),
            AscTestFlightSourceMode::IpaFile => if v.ipa_path@.len() == 0 {
                Err("IPA Path is required"@)
            } else {
                Ok(with_nonempty(base.insert("ipa_path"@, v.ipa_path@), "version"@, v.version@))
            },
            AscTestFlightSourceMode::ExistingBuild => if v.build_id@.len() == 0
                && v.build_number@.len() == 0 {
                Err("Build ID or Build Number is required"@)
            } else {
                Ok(
                    with_nonempty(
                        with_nonempty(base, "build_id"@, v.build_id@),
                        "build_number"@,
                        v.build_number@,
                    ),
                )
            },
        };
        match source {
            Err(e) => Err(e),
            Ok(m) => Ok(
                with_flag(with_flag(m, "wait"@, v.wait_for_processing), "notify"@, v.notify_testers),
            ),
        }
    }
}

pub(crate) fn insert_nonempty(m: &mut StringMap, key: &str, value: &String)
    ensures
        final(m)@ == with_nonempty(old(m)@, key@, value@),
{
    if value.unicode_len() > 0 {
        m.insert(owned(key), value.clone());
    }
}

fn insert_flag(m: &mut StringMap, key: &str, on: bool)
    ensures
        final(m)@ == with_flag(old(m)@, key@, on),
{
    if on {
        m.insert(owned(key), owned("true"));
    }
}

pub fn build_testflight_workflow_input(values: AscTestFlightWorkflowValues) -> (r: Result<
    StringMap,
    String,
>)
    ensures
        match r {
            Ok(m) => testflight_inputs(values) == Ok::<Map<Seq<char>, Seq<char>>, Seq<char>>(m@),
            Err(e) => testflight_inputs(values) == Err::<Map<Seq<char>, Seq<char>>, Seq<char>>(e@),
        },
{
    let mut input = StringMap::new();
    if values.group.unicode_len() == 0 {
        return Err(owned("Beta Groups is required"));
    }
    input.insert(owned("group"), values.group.clone());
    match values.source_mode {
        AscTestFlightSourceMode::LocalProject => {
            let project_kind = match values.project_kind {
                Some(k) => k,
                None => return Err(owned("Workspace Project is required")),
            };
            let project_path = match &values.project_path {
                Some(p) => p,
                None => return Err(owned("Workspace Project is required")),
            };
            let scheme = match &values.scheme {
                Some(s) => s,
                None => return Err(owned("Scheme is required")),
            };
            match project_kind {
                ProjectKind::AppleWorkspace => {
                    input.insert(owned("workspace_path"), project_path.clone());
                },
                ProjectKind::AppleProject => {
                    input.insert(owned("project_path"), project_path.clone());
                },
                ProjectKind::GpuiApplication => {
                    return Err(
                        owned("TestFlight local build requires an Apple project or workspace."),
                    );
                },
            }
            input.insert(owned("scheme"), scheme.label.clone());
            insert_nonempty(&mut input, "version", &values.version);
            insert_nonempty(&mut input, "configuration", &values.configuration);
            if values.export_options.unicode_len() == 0 {
                return Err(owned("Export Options is required for local project publishing."));
            }
            input.insert(owned("export_options"), values.export_options.clone());
            match &scheme.platform {
                Some(p) => input.insert(owned("platform"), p.clone()),
                None => {},
            }
            insert_flag(&mut input, "clean", values.clean_build);
        },
        AscTestFlightSourceMode::IpaFile => {
            if values.ipa_path.unicode_len() == 0 {
                return Err(owned("IPA Path is required"));
            }
            input.insert(owned("ipa_path"), values.ipa_path.clone());
            insert_nonempty(&mut input, "version", &values.version);
        },
        AscTestFlightSourceMode::ExistingBuild => {
            if values.build_id.unicode_len() == 0 && values.build_number.unicode_len() == 0 {
                return Err(owned("Build ID or Build Number is required"));
            }
            insert_nonempty(&mut input, "build_id", &values.build_id);
            insert_nonempty(&mut input, "build_number", &values.build_number);
        },
    }
    insert_flag(&mut input, "wait", values.wait_for_processing);
    insert_flag(&mut input, "notify", values.notify_testers);
    Ok(input)
}

/// Whether the scheme of a local project builds the app that is selected
/// in App Store Connect, or the message that says why not.
pub open spec fn bundle_id_match(selected: Seq<char>, scheme: AppleWorkspaceSchemeSummary) -> Result<
    (),
    Seq<char>,
> {
    match scheme.bundle_id {
        None => Err(
            "Sofintel could not read the selected scheme bundle ID. Check PRODUCT_BUNDLE_IDENTIFIER for the Release configuration before publishing."@,
        ),
        Some(b) => if trim(b@).len() == 0 {
            Err(
                "Sofintel could not read the selected scheme bundle ID. Check PRODUCT_BUNDLE_IDENTIFIER for the Release configuration before publishing."@,
            )
        } else if trim(b@) == selected {
            Ok(())
        } else {
            Err(
                "The selected App Store Connect app uses bundle ID `"@ + selected
                    + "`, but the local scheme `"@ + scheme.label@ + "` builds `"@ + trim(b@)
                    + "`. Choose the matching app or switch schemes before publishing."@,
            )
        },
    }
}

pub fn validate_local_project_bundle_id_match(
    selected_app_bundle_id: &str,
    scheme: &AppleWorkspaceSchemeSummary,
) -> (r: Result<(), String>)
    ensures
        match r {
            Ok(()) => bundle_id_match(selected_app_bundle_id@, *scheme) == Ok::<(), Seq<char>>(()),
            Err(e) => bundle_id_match(selected_app_bundle_id@, *scheme) == Err::<(), Seq<char>>(
                e@,
            ),
        },
{
    let scheme_bundle_id = match &scheme.bundle_id {
        Some(b) => {
            let t = trim_str(b.as_str());
            if t.unicode_len() == 0 {
                return Err(
                    owned(
                        "Sofintel could not read the selected scheme bundle ID. Check PRODUCT_BUNDLE_IDENTIFIER for the Release configuration before publishing.",
                    ),
                );
            }
            t
        },
        None => {
            return Err(
                owned(
                    "Sofintel could not read the selected scheme bundle ID. Check PRODUCT_BUNDLE_IDENTIFIER for the Release configuration before publishing.",
                ),
            );
        },
    };
    if str_eq(scheme_bundle_id.as_str(), selected_app_bundle_id) {
        return Ok(());
    }
    let mut message = owned("The selected App Store Connect app uses bundle ID `");
    message.append(selected_app_bundle_id);
    message.append("`, but the local scheme `");
    message.append(scheme.label.as_str());
    message.append("` builds `");
    message.append(scheme_bundle_id.as_str());
    message.append("`. Choose the matching app or switch schemes before publishing.");
    Err(message)
}


/// The status line of a form: whether it is busy, and the error or the
/// success it reports.
#[derive(Clone, Debug, PartialEq, Eq)]
pub struct AscFormStatus {
    pub pending: bool,
    pub error_message: Option<String>,
    pub success_message: Option<String>,
}

impl AscFormStatus {
    /// A form that is idle and reports nothing.
    pub fn new() -> (s: AscFormStatus)
        ensures
            !s.pending,
            s.error_message is None,
            s.success_message is None,
    {
        AscFormStatus { pending: false, error_message: None, success_message: None }
    }

    /// Forgets the reported error and success.
    pub fn clear_status(&mut self)
        ensures
            final(self).pending == old(self).pending,
            final(self).error_message is None,
            final(self).success_message is None,
    {
        self.error_message = None;
        self.success_message = None;
    }

    /// Marks the form busy or idle; a form that becomes busy reports
    /// nothing.
    pub fn set_pending(&mut self, pending: bool)
        ensures
            final(self).pending == pending,
            pending ==> final(self).error_message is None && final(self).success_message is None,
            !pending ==> opt_view(final(self).error_message) == opt_view(old(self).error_message)
                && opt_view(final(self).success_message) == opt_view(old(self).success_message),
    {
        self.pending = pending;
        if pending {
            self.clear_status();
        }
    }

    /// Ends the form's work with an error.
    pub fn set_error(&mut self, error: String)
        ensures
            !final(self).pending,
            opt_view(final(self).error_message) == Some(error@),
            final(self).success_message is None,
    {
        self.pending = false;
        self.error_message = Some(error);
        self.success_message = None;
    }

    /// Ends the form's work with a success.
    pub fn finish_success(&mut self, message: String)
        ensures
            !final(self).pending,
            final(self).error_message is None,
            opt_view(final(self).success_message) == Some(message@),
    {
        self.pending = false;
        self.error_message = None;
        self.success_message = Some(message);
    }
}

/// What the app creation form is filled with when a scheme is chosen.
#[derive(Clone, Debug, PartialEq, Eq)]
pub struct AscCreateAppDefaults {
    pub selected_project_id: String,
    pub selected_scheme_id: String,
    pub selected_platform: String,
    pub app_name: String,
    pub bundle_id: String,
    pub sku: String,
    pub primary_locale: String,
    pub initial_version: String,
}

fn text_or(o: &Option<String>, fallback: &str) -> (r: String)
    ensures
        r@ == match opt_view(*o) {
            Some(v) => v,
            None => fallback@,
        },
{
    match o {
        Some(v) => v.clone(),
        None => owned(fallback),
    }
}

/// The app creation form's values for the scheme `scheme` of `project`:
/// the scheme's name, bundle id (also as SKU, else the name), platform
/// (else iOS) and marketing version (else 1.0), in English (US).
pub fn create_app_defaults(
    project: &AppleWorkspaceProjectSummary,
    scheme: &AppleWorkspaceSchemeSummary,
) -> (d: AscCreateAppDefaults)
    ensures
        d.selected_project_id@ == project.id@,
        d.selected_scheme_id@ == scheme.id@,
        d.selected_platform@ == match opt_view(scheme.platform) {
            Some(p) => p,
            None => "IOS"@,
        },
        d.app_name@ == scheme.label@,
        d.bundle_id@ == match opt_view(scheme.bundle_id) {
            Some(b) => b,
            None => Seq::empty(),
        },
        d.sku@ == match opt_view(scheme.bundle_id) {
            Some(b) => b,
            None => scheme.label@,
        },
        d.primary_locale@ == "en-US"@,
        d.initial_version@ == match opt_view(scheme.marketing_version) {
            Some(v) => v,
            None => "1.0"@,
        },
{
    AscCreateAppDefaults {
        selected_project_id: project.id.clone(),
        selected_scheme_id: scheme.id.clone(),
        selected_platform: text_or(&scheme.platform, "IOS"),
        app_name: scheme.label.clone(),
        bundle_id: match &scheme.bundle_id {
            Some(b) => b.clone(),
            None => empty_string(),
        },
        sku: match &scheme.bundle_id {
            Some(b) => b.clone(),
            None => scheme.label.clone(),
        },
        primary_locale: owned("en-US"),
        initial_version: text_or(&scheme.marketing_version, "1.0"),
    }
}

/// What changes in the TestFlight release form when a scheme is chosen:
/// the version always; the configuration and export options only where
/// they are `Some`.
#[derive(Clone, Debug, PartialEq, Eq)]
pub struct AscTestFlightDefaults {
    pub selected_project_id: String,
    pub selected_scheme_id: String,
    pub version: String,
    pub configuration: Option<String>,
    pub export_options: Option<String>,
}

/// The TestFlight release form's changes for the scheme `scheme` of
/// `project`. `previous_project_id` is the project chosen before,
/// `current_configuration` what the configuration field holds (trimmed),
/// and `default_export_options` the project's export options file, when it
/// has one. The version becomes the scheme's (else 1.0); an empty
/// configuration becomes `Release`; the export options become the
/// project's file, or are cleared when the project changed and it has none.
pub fn testflight_defaults(
    previous_project_id: Option<&str>,
    project: &AppleWorkspaceProjectSummary,
    scheme: &AppleWorkspaceSchemeSummary,
    current_configuration: &str,
    default_export_options: Option<String>,
) -> (d: AscTestFlightDefaults)
    ensures
        d.selected_project_id@ == project.id@,
        d.selected_scheme_id@ == scheme.id@,
        d.version@ == match opt_view(scheme.marketing_version) {
            Some(v) => v,
            None => "1.0"@,
        },
        opt_view(d.configuration) == if current_configuration@.len() == 0 {
            Some("Release"@)
        } else {
            None
        },
        opt_view(d.export_options) == match opt_view(default_export_options) {
            Some(p) => Some(p),
            None => if (match previous_project_id {
                Some(p) => Some(p@),
                None => None,
            }) != Some(project.id@) {
                Some(Seq::<char>::empty())
            } else {
                None
            },
        },
{
    let configuration = if current_configuration.unicode_len() == 0 {
        Some(owned("Release"))
    } else {
        None
    };
    let same_project = match previous_project_id {
        Some(p) => str_eq(p, project.id.as_str()),
        None => false,
    };
    let export_options = match default_export_options {
        Some(p) => Some(p),
        None => if !same_project {
            Some(empty_string())
        } else {
            None
        },
    };
    AscTestFlightDefaults {
        selected_project_id: project.id.clone(),
        selected_scheme_id: scheme.id.clone(),
        version: text_or(&scheme.marketing_version, "1.0"),
        configuration,
        export_options,
    }
}

} // verus!
