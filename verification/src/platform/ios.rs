//! iOS simulators, managed through `xcrun simctl` and `xcodebuild`.
use super::{
    arg_list, checked_spec, finished, finished_spec, invocation, invocation_view, lossy_listing,
    strict_listing, strict_listing_spec, CommandResult, Invocation, PlatformKind, ToolStatus,
};
use crate::domain::device::{opt_view, state_from_name, Device, DeviceState, DeviceView};
use crate::domain::runtime::{
    device_type_views, runtime_views, DeviceType, DeviceTypeView, Runtime, RuntimeView,
};
use crate::error::{res_view, res_views, Error, ErrorView};
use crate::text::{
    class_has,
    char_views, chars_of, contains_chars, contains_seq, decimal, eq_str, lowercase, parse_u32,
    parse_u32_spec, push_decimal, split_by, split_chars, string_of, trim_by, trim_chars, words,
    words_of, CharClass,
};
use vstd::prelude::*;

verus! {

/// The iOS simulator platform. A value exists only where the tools were found.
pub struct IosPlatform {
    _private: (),
}

// ---------------------------------------------------------------------------
// Versions in runtime identifiers and in tool output
// ---------------------------------------------------------------------------

/// The version at piece `i`: the piece is `iOS` and the next two pieces read
/// as unsigned numbers; the version is those numbers joined by a dot.
pub open spec fn version_at(parts: Seq<Seq<char>>, i: int) -> Option<Seq<char>> {
    if 0 <= i && parts[i] == "iOS"@ && i + 2 < parts.len() {
        match (parse_u32_spec(parts[i + 1]), parse_u32_spec(parts[i + 2])) {
            (Some(major), Some(minor)) => Some(
                decimal(major as nat) + seq!['.'] + decimal(minor as nat),
            ),
            _ => None,
        }
    } else {
        None
    }
}

/// The first version found at piece `i` or later.
pub open spec fn first_version_from(parts: Seq<Seq<char>>, i: int) -> Option<Seq<char>>
    decreases parts.len() - i,
{
    if i < 0 || i >= parts.len() {
        None
    } else if version_at(parts, i) is Some {
        version_at(parts, i)
    } else {
        first_version_from(parts, i + 1)
    }
}

/// The iOS version that a runtime identifier such as
/// `com.apple.CoreSimulator.SimRuntime.iOS-17-0` names: the identifier is cut
/// at every `.` and `-`, and the first `iOS` piece followed by two numbers
/// gives `major.minor`.
pub open spec fn ios_version_in(s: Seq<char>) -> Option<Seq<char>> {
    first_version_from(split_by(s, CharClass::Either('.', '-')), 0)
}

/// The version after the word at index `i`: the word is `iOS`, a next word
/// exists, and that word, stripped of everything at its ends that is neither
/// numeric nor a dot, holds a dot and a numeric character.
pub open spec fn line_version_at(words: Seq<Seq<char>>, i: int) -> Option<Seq<char>> {
    if 0 <= i && words[i] == "iOS"@ && i + 1 < words.len() {
        let c = trim_by(words[i + 1], CharClass::NotNumericNorDot);
        if contains_seq(c, seq!['.']) && crate::text::has_numeric(c) {
            Some(c)
        } else {
            None
        }
    } else {
        None
    }
}

/// The first version found after word `i` or later.
pub open spec fn first_line_version_from(words: Seq<Seq<char>>, i: int) -> Option<Seq<char>>
    decreases words.len() - i,
{
    if i < 0 || i >= words.len() {
        None
    } else if line_version_at(words, i) is Some {
        line_version_at(words, i)
    } else {
        first_line_version_from(words, i + 1)
    }
}

/// Every version found from word `i` on holds a dot and a numeric character.
proof fn lemma_line_version_shape_from(words: Seq<Seq<char>>, i: int)
    ensures
        first_line_version_from(words, i) matches Some(v) ==> contains_seq(v, seq!['.'])
            && crate::text::has_numeric(v),
    decreases words.len() - i,
{
    if 0 <= i < words.len() && line_version_at(words, i) is None {
        lemma_line_version_shape_from(words, i + 1);
    }
}

/// Law: a version read from a line of tool output is a version number: it
/// holds a dot and at least one numeric character, so a bare run of dots is
/// never one.
pub proof fn law_line_version_is_number(s: Seq<char>)
    ensures
        version_in_line(s) matches Some(v) ==> contains_seq(v, seq!['.'])
            && crate::text::has_numeric(v),
{
    lemma_line_version_shape_from(words_of(s), 0);
}

/// The iOS version that a line of tool output such as
/// `Downloading iOS 17.0 simulator runtime...` mentions.
pub open spec fn version_in_line(s: Seq<char>) -> Option<Seq<char>> {
    first_line_version_from(words_of(s), 0)
}

proof fn lemma_first_version_shift(p: Seq<Seq<char>>, q: Seq<Seq<char>>, k: int)
    requires
        0 <= k,
    ensures
        first_version_from(p + q, p.len() + k) == first_version_from(q, k),
    decreases q.len() - k,
{
    if k < q.len() {
        assert((p + q)[p.len() + k] == q[k]);
        if k + 1 < q.len() {
            assert((p + q)[p.len() + k + 1] == q[k + 1]);
        }
        if k + 2 < q.len() {
            assert((p + q)[p.len() + k + 2] == q[k + 2]);
        }
        assert(version_at(p + q, p.len() + k) == version_at(q, k));
        lemma_first_version_shift(p, q, k + 1);
    }
}

proof fn lemma_first_version_skip(p: Seq<Seq<char>>, q: Seq<Seq<char>>, i: int)
    requires
        0 <= i <= p.len(),
        !p.contains("iOS"@),
    ensures
        first_version_from(p + q, i) == first_version_from(p + q, p.len() as int),
    decreases p.len() - i,
{
    if i < p.len() {
        assert((p + q)[i] == p[i]);
        assert(version_at(p + q, i) is None);
        lemma_first_version_skip(p, q, i + 1);
    }
}

/// A text of digits holds no `.` or `-`.
proof fn lemma_decimal_free(n: nat)
    ensures
        forall|j: int|
            0 <= j < decimal(n).len() ==> !class_has(
                CharClass::Either('.', '-'),
                #[trigger] decimal(n)[j],
            ),
{
    crate::text::lemma_decimal_digits(n);
    assert forall|j: int| 0 <= j < decimal(n).len() implies !class_has(
        CharClass::Either('.', '-'),
        #[trigger] decimal(n)[j],
    ) by {
        assert(crate::text::is_digit(decimal(n)[j]));
    }
}

/// The pieces of `iOS-<major>-<minor>`.
proof fn lemma_version_tail_pieces(major: u32, minor: u32)
    ensures
        split_by(
            "iOS"@ + seq!['-'] + decimal(major as nat) + seq!['-'] + decimal(minor as nat),
            CharClass::Either('.', '-'),
        ) == seq!["iOS"@, decimal(major as nat), decimal(minor as nat)],
{
    let cls = CharClass::Either('.', '-');
    let a = decimal(major as nat);
    let b = decimal(minor as nat);
    reveal_strlit("iOS");
    lemma_decimal_free(major as nat);
    lemma_decimal_free(minor as nat);
    crate::text::lemma_split_free("iOS"@, cls);
    crate::text::lemma_split_free(a, cls);
    crate::text::lemma_split_free(b, cls);
    crate::text::lemma_split_join(a, '-', b, cls);
    crate::text::lemma_split_join("iOS"@, '-', a + seq!['-'] + b, cls);
    assert("iOS"@ + seq!['-'] + a + seq!['-'] + b =~= "iOS"@ + seq!['-'] + (a + seq!['-'] + b));
    assert(seq!["iOS"@] + (seq![a] + seq![b]) =~= seq!["iOS"@, a, b]);
}

/// Law: an identifier ending in `iOS-<major>-<minor>` names the version
/// `<major>.<minor>`, whatever comes before it, as long as that part ends in
/// `.` or `-` and none of its pieces is `iOS`. For example,
/// `com.apple.CoreSimulator.SimRuntime.iOS-17-0` names `17.0`.
pub proof fn law_runtime_identifier_version(prefix: Seq<char>, sep: char, major: u32, minor: u32)
    requires
        sep == '.' || sep == '-',
        !split_by(prefix, CharClass::Either('.', '-')).contains("iOS"@),
    ensures
        ios_version_in(
            prefix + seq![sep] + "iOS"@ + seq!['-'] + decimal(major as nat) + seq!['-']
                + decimal(minor as nat),
        ) == Some(decimal(major as nat) + seq!['.'] + decimal(minor as nat)),
{
    let cls = CharClass::Either('.', '-');
    let tail = "iOS"@ + seq!['-'] + decimal(major as nat) + seq!['-'] + decimal(minor as nat);
    lemma_version_tail_pieces(major, minor);
    crate::text::lemma_split_join(prefix, sep, tail, cls);
    assert(prefix + seq![sep] + "iOS"@ + seq!['-'] + decimal(major as nat) + seq!['-'] + decimal(
        minor as nat,
    ) =~= prefix + seq![sep] + tail);
    let p = split_by(prefix, cls);
    let q = split_by(tail, cls);
    lemma_first_version_skip(p, q, 0);
    lemma_first_version_shift(p, q, 0);
    crate::text::lemma_parse_decimal(major);
    crate::text::lemma_parse_decimal(minor);
    assert(version_at(q, 0) == Some(decimal(major as nat) + seq!['.'] + decimal(minor as nat)));
}

/// Law: `iOS-<major>-<minor>` alone names the version `<major>.<minor>`.
pub proof fn law_bare_identifier_version(major: u32, minor: u32)
    ensures
        ios_version_in("iOS"@ + seq!['-'] + decimal(major as nat) + seq!['-'] + decimal(
            minor as nat,
        )) == Some(decimal(major as nat) + seq!['.'] + decimal(minor as nat)),
{
    let q = split_by(
        "iOS"@ + seq!['-'] + decimal(major as nat) + seq!['-'] + decimal(minor as nat),
        CharClass::Either('.', '-'),
    );
    lemma_version_tail_pieces(major, minor);
    crate::text::lemma_parse_decimal(major);
    crate::text::lemma_parse_decimal(minor);
    assert(version_at(q, 0) == Some(decimal(major as nat) + seq!['.'] + decimal(minor as nat)));
}

/// Law: a version read from a runtime identifier is always two decimal
/// numbers joined by a dot.
pub proof fn law_version_shape(s: Seq<char>)
    ensures
        ios_version_in(s) matches Some(v) ==> exists|a: u32, b: u32|
            v == decimal(a as nat) + seq!['.'] + decimal(b as nat),
{
    let parts = split_by(s, CharClass::Either('.', '-'));
    lemma_version_shape_from(parts, 0);
}

proof fn lemma_version_shape_from(parts: Seq<Seq<char>>, i: int)
    ensures
        first_version_from(parts, i) matches Some(v) ==> exists|a: u32, b: u32|
            v == decimal(a as nat) + seq!['.'] + decimal(b as nat),
    decreases parts.len() - i,
{
    if 0 <= i < parts.len() {
        if version_at(parts, i) is Some {
            let a = parse_u32_spec(parts[i + 1]).unwrap();
            let b = parse_u32_spec(parts[i + 2]).unwrap();
            assert(version_at(parts, i).unwrap() == decimal(a as nat) + seq!['.'] + decimal(
                b as nat,
            ));
        } else {
            lemma_version_shape_from(parts, i + 1);
        }
    }
}

/// The status of the iOS tools, given what was found: the host must be macOS,
/// `xcrun` must answer, and `simctl` must answer; the first that fails names
/// the reason.
pub open spec fn ios_tools_spec(on_macos: bool, xcrun_found: bool, simctl_found: bool) -> (
    bool,
    Option<Seq<char>>,
) {
    if !on_macos {
        (false, Some("iOS simulators are only supported on macOS."@))
    } else if !xcrun_found {
        (
            false,
            Some("Xcode Command Line Tools not found. Install with: xcode-select --install"@),
        )
    } else if !simctl_found {
        (
            false,
            Some(
                "Xcode Simulator tools not found. Make sure Xcode is installed and run: sudo xcode-select -s /Applications/Xcode.app/Contents/Developer"@,
            ),
        )
    } else {
        (true, None)
    }
}

impl super::Platform for IosPlatform {
    open spec fn platform_kind(&self) -> PlatformKind {
        PlatformKind::Ios
    }

    fn kind(&self) -> (r: PlatformKind) {
        PlatformKind::Ios
    }
}

impl IosPlatform {
    /// The platform, where its tools were found.
    pub fn try_new(status: &ToolStatus) -> (r: Option<Self>)
        ensures
            r is Some <==> status.available,
    {
        if status.available {
            Some(IosPlatform { _private: () })
        } else {
            None
        }
    }

    /// The run that shows whether `xcrun` is installed.
    pub fn xcrun_probe() -> (r: Invocation)
        ensures
            invocation_view(r) == ("xcrun"@, seq!["--version"@]),
    {
        invocation("xcrun", arg_list(&["--version"]))
    }

    /// The run that shows whether the simulator tools are installed.
    pub fn simctl_probe() -> (r: Invocation)
        ensures
            invocation_view(r) == ("xcrun"@, seq!["simctl"@, "help"@]),
    {
        invocation("xcrun", arg_list(&["simctl", "help"]))
    }

    /// Whether the iOS tools are usable, given whether the host is macOS and
    /// whether the two probes succeeded.
    pub fn check_tools(on_macos: bool, xcrun_found: bool, simctl_found: bool) -> (r: ToolStatus)
        ensures
            (r.available, opt_view(r.message)) == ios_tools_spec(
                on_macos,
                xcrun_found,
                simctl_found,
            ),
            r.available || r.message is Some,
    {
        if !on_macos {
            return ToolStatus::unavailable("iOS simulators are only supported on macOS.");
        }
        if !xcrun_found {
            return ToolStatus::unavailable(
                "Xcode Command Line Tools not found. Install with: xcode-select --install",
            );
        }
        if !simctl_found {
            return ToolStatus::unavailable(
                "Xcode Simulator tools not found. Make sure Xcode is installed and run: sudo xcode-select -s /Applications/Xcode.app/Contents/Developer",
            );
        }
        ToolStatus::available()
    }

    /// The iOS version that a runtime identifier names, such as `17.0` for
    /// `com.apple.CoreSimulator.SimRuntime.iOS-17-0`.
    pub fn extract_version(input: &str) -> (r: Option<String>)
        ensures
            opt_view(r) == ios_version_in(input@),
    {
        let cs = chars_of(input);
        let parts = split_chars(cs.as_slice(), &CharClass::Either('.', '-'));
        let ghost p = split_by(input@, CharClass::Either('.', '-'));
        let n = parts.len();
        for i in 0..n
            invariant
                n == parts@.len(),
                char_views(parts@) == p,
                p == split_by(input@, CharClass::Either('.', '-')),
                first_version_from(p, 0) == first_version_from(p, i as int),
        {
            assert(parts@[i as int]@ == p[i as int]);
            if eq_str(parts[i].as_slice(), "iOS") && n >= 3 && i < n - 2 {
                assert(parts@[i + 1]@ == p[i + 1]);
                assert(parts@[i + 2]@ == p[i + 2]);
                let major = parse_u32(parts[i + 1].as_slice());
                let minor = parse_u32(parts[i + 2].as_slice());
                if let (Some(a), Some(b)) = (major, minor) {
                    let mut out: Vec<char> = Vec::new();
                    push_decimal(&mut out, a);
                    out.push('.');
                    push_decimal(&mut out, b);
                    assert(out@ =~= decimal(a as nat) + seq!['.'] + decimal(b as nat));
                    assert(version_at(p, i as int) == Some(out@));
                    assert(first_version_from(p, i as int) == Some(out@));
                    let r = string_of(out.as_slice());
                    assert(opt_view(Some(r)) == Some(out@));
                    return Some(r);
                }
            }
        }
        None
    }

    /// The iOS version that a line of tool output mentions, such as `17.0`
    /// for `Downloading iOS 17.0 simulator runtime...`.
    pub fn extract_version_from_line(line: &str) -> (r: Option<String>)
        ensures
            opt_view(r) == version_in_line(line@),
    {
        let cs = chars_of(line);
        let ws = words(cs.as_slice());
        let ghost w = words_of(line@);
        let n = ws.len();
        for i in 0..n
            invariant
                n == ws@.len(),
                char_views(ws@) == w,
                w == words_of(line@),
                first_line_version_from(w, 0) == first_line_version_from(w, i as int),
        {
            assert(ws@[i as int]@ == w[i as int]);
            if eq_str(ws[i].as_slice(), "iOS") && i < n - 1 {
                assert(ws@[i + 1]@ == w[i + 1]);
                let c = trim_chars(ws[i + 1].as_slice(), &CharClass::NotNumericNorDot);
                let dot: [char; 1] = ['.'];
                assert(dot@ =~= seq!['.']);
                if contains_chars(c.as_slice(), dot.as_slice()) && crate::text::any_numeric(
                    c.as_slice(),
                ) {
                    assert(line_version_at(w, i as int) == Some(c@));
                    assert(first_line_version_from(w, i as int) == Some(c@));
                    let r = string_of(c.as_slice());
                    assert(opt_view(Some(r)) == Some(c@));
                    return Some(r);
                }
                assert(line_version_at(w, i as int) is None);
            } else {
                assert(line_version_at(w, i as int) is None);
            }
        }
        None
    }
}


// ---------------------------------------------------------------------------
// Devices
// ---------------------------------------------------------------------------

/// A simulator as `xcrun simctl list --json devices` reports it.
pub struct RawDevice {
    pub udid: String,
    pub name: String,
    pub state: String,
}

/// The simulators listed under one runtime identifier.
pub struct DeviceGroup {
    pub runtime: String,
    pub devices: Vec<RawDevice>,
}

/// A reported simulator as a device: its UDID as the identifier, its state
/// read from the reported name, and the version of its runtime.
pub open spec fn device_of(d: RawDevice, version: Option<Seq<char>>) -> DeviceView {
    DeviceView {
        id: d.udid@,
        name: d.name@,
        state: state_from_name(d.state@),
        platform_version: version,
    }
}

/// The devices of one group, in the order listed.
pub open spec fn group_views(g: DeviceGroup) -> Seq<DeviceView> {
    g.devices@.map_values(|d: RawDevice| device_of(d, ios_version_in(g.runtime@)))
}

/// The devices of all groups, group after group.
pub open spec fn devices_of_groups(gs: Seq<DeviceGroup>) -> Seq<DeviceView>
    decreases gs.len(),
{
    if gs.len() == 0 {
        Seq::empty()
    } else {
        devices_of_groups(gs.drop_last()) + group_views(gs.last())
    }
}

// ---------------------------------------------------------------------------
// Runtimes and device types
// ---------------------------------------------------------------------------

/// A device type as a runtime in `xcrun simctl list runtimes --json` lists it.
pub struct RawSupportedDeviceType {
    pub identifier: String,
    pub name: String,
}

/// An installed runtime as `xcrun simctl list runtimes --json` reports it.
pub struct RawRuntime {
    pub identifier: String,
    pub version: String,
    pub supported_device_types: Vec<RawSupportedDeviceType>,
}

/// A runtime as `xcrun simctl runtime list -j` reports it.
pub struct AvailableRuntime {
    pub identifier: String,
    pub version: String,
    pub platform: String,
}

pub open spec fn raw_type_view(t: RawSupportedDeviceType) -> DeviceTypeView {
    DeviceTypeView { identifier: t.identifier@, name: t.name@ }
}

/// A reported runtime as a runtime: named by its version, with its device
/// types in the order listed.
pub open spec fn runtime_of(r: RawRuntime) -> RuntimeView {
    RuntimeView {
        identifier: r.identifier@,
        name: r.version@,
        supported_device_types: r.supported_device_types@.map_values(
            |t: RawSupportedDeviceType| raw_type_view(t),
        ),
    }
}

/// The device types of all runtimes, runtime after runtime.
pub open spec fn all_device_types(rs: Seq<RuntimeView>) -> Seq<DeviceTypeView>
    decreases rs.len(),
{
    if rs.len() == 0 {
        Seq::empty()
    } else {
        all_device_types(rs.drop_last()) + rs.last().supported_device_types
    }
}

/// Whether some device type in `ds` has the identifier `id`.
pub open spec fn has_identifier(ds: Seq<DeviceTypeView>, id: Seq<char>) -> bool {
    exists|j: int| 0 <= j < ds.len() && #[trigger] ds[j].identifier == id
}

/// The first device type of each identifier, in order of first appearance.
pub open spec fn first_of_each(ds: Seq<DeviceTypeView>) -> Seq<DeviceTypeView>
    decreases ds.len(),
{
    if ds.len() == 0 {
        Seq::empty()
    } else {
        let p = first_of_each(ds.drop_last());
        if has_identifier(p, ds.last().identifier) {
            p
        } else {
            p.push(ds.last())
        }
    }
}

/// Law: keeping the first device type of each identifier leaves every
/// identifier once, loses none, and keeps only device types of the input,
/// each being the first of its identifier there.
pub proof fn law_first_of_each(ds: Seq<DeviceTypeView>)
    ensures
        forall|i: int, j: int|
            0 <= i < j < first_of_each(ds).len() ==> #[trigger] first_of_each(ds)[i].identifier
                != #[trigger] first_of_each(ds)[j].identifier,
        forall|k: int|
            0 <= k < ds.len() ==> has_identifier(first_of_each(ds), #[trigger] ds[k].identifier),
        forall|i: int|
            0 <= i < first_of_each(ds).len() ==> exists|k: int|
                0 <= k < ds.len() && ds[k] == #[trigger] first_of_each(ds)[i] && forall|m: int|
                    0 <= m < k ==> #[trigger] ds[m].identifier != ds[k].identifier,
    decreases ds.len(),
{
    if ds.len() > 0 {
        let prev = ds.drop_last();
        law_first_of_each(prev);
        let p = first_of_each(prev);
        let x = ds.last();
        let r = first_of_each(ds);
        assert forall|k: int| 0 <= k < ds.len() implies has_identifier(
            r,
            #[trigger] ds[k].identifier,
        ) by {
            if k < ds.len() - 1 {
                assert(ds[k] == prev[k]);
                assert(has_identifier(p, prev[k].identifier));
                let j = choose|j: int| 0 <= j < p.len() && #[trigger] p[j].identifier
                    == prev[k].identifier;
                assert(r[j] == p[j]);
            } else if !has_identifier(p, x.identifier) {
                assert(r[p.len() as int] == x);
            }
        }
        assert forall|i: int| 0 <= i < r.len() implies exists|k: int|
            0 <= k < ds.len() && ds[k] == #[trigger] r[i] && forall|m: int|
                0 <= m < k ==> #[trigger] ds[m].identifier != ds[k].identifier by {
            if i < p.len() {
                assert(r[i] == p[i]);
                let k = choose|k: int|
                    0 <= k < prev.len() && prev[k] == #[trigger] p[i] && forall|m: int|
                        0 <= m < k ==> #[trigger] prev[m].identifier != prev[k].identifier;
                assert(ds[k] == prev[k]);
                assert forall|m: int| 0 <= m < k implies #[trigger] ds[m].identifier
                    != ds[k].identifier by {
                    assert(ds[m] == prev[m]);
                }
            } else {
                let k = ds.len() - 1;
                assert(r[i] == x);
                assert(ds[k] == x);
                assert forall|m: int| 0 <= m < k implies #[trigger] ds[m].identifier
                    != ds[k].identifier by {
                    assert(ds[m] == prev[m]);
                    if prev[m].identifier == x.identifier {
                        assert(has_identifier(p, prev[m].identifier));
                    }
                }
            }
        }
        assert forall|i: int, j: int| 0 <= i < j < r.len() implies #[trigger] r[i].identifier
            != #[trigger] r[j].identifier by {
            if j < p.len() {
                assert(r[i] == p[i]);
                assert(r[j] == p[j]);
            } else {
                assert(r[i] == p[i]);
                assert(r[j] == x);
                assert(!has_identifier(p, x.identifier));
                assert(p[i].identifier != x.identifier);
            }
        }
    }
}

/// The runtime that a line of `xcodebuild -downloadAllPlatforms -dry-run`
/// output announces: the line mentions `iOS` and `Downloading` or `download`,
/// and a version follows the word `iOS`.
pub open spec fn dry_run_line_runtime(line: Seq<char>) -> Option<RuntimeView> {
    if contains_seq(line, "iOS"@) && (contains_seq(line, "Downloading"@) || contains_seq(
        line,
        "download"@,
    )) {
        match version_in_line(line) {
            Some(v) => Some(
                RuntimeView { identifier: "iOS "@ + v, name: v, supported_device_types: Seq::empty() },
            ),
            None => None,
        }
    } else {
        None
    }
}

/// The runtimes that the lines announce, in order.
pub open spec fn dry_run_runtimes(lines: Seq<Seq<char>>) -> Seq<RuntimeView>
    decreases lines.len(),
{
    if lines.len() == 0 {
        Seq::empty()
    } else {
        let p = dry_run_runtimes(lines.drop_last());
        match dry_run_line_runtime(lines.last()) {
            Some(r) => p.push(r),
            None => p,
        }
    }
}

/// The text searched for announced downloads: standard output, a line break,
/// then error output.
pub open spec fn dry_run_text(out: super::CommandOutput) -> Seq<char> {
    out.stdout@ + seq!['\n'] + out.stderr@
}

/// The runtimes of `simctl runtime list` whose platform, lowercased, holds `ios`.
pub open spec fn ios_listed(list: Seq<AvailableRuntime>) -> Seq<RuntimeView>
    decreases list.len(),
{
    if list.len() == 0 {
        Seq::empty()
    } else {
        let p = ios_listed(list.drop_last());
        let a = list.last();
        if contains_seq(lowercase(a.platform@), "ios"@) {
            p.push(
                RuntimeView {
                    identifier: a.identifier@,
                    name: a.version@,
                    supported_device_types: Seq::empty(),
                },
            )
        } else {
            p
        }
    }
}

/// The runtimes offered when the dry run announced none: the iOS runtimes of
/// the runtime list where it could be read and holds any, else a single
/// generic `iOS` entry.
pub open spec fn fallback_spec(parsed: Option<Seq<AvailableRuntime>>) -> Seq<RuntimeView> {
    let found = match parsed {
        Some(list) => ios_listed(list),
        None => Seq::empty(),
    };
    if found.len() > 0 {
        found
    } else {
        seq![RuntimeView { identifier: "iOS"@, name: "iOS"@, supported_device_types: Seq::empty() }]
    }
}

/// How a request to download a platform ended.
pub enum DownloadOutcome {
    /// The platform was installed.
    Installed,
    /// The name was not understood as a platform; `simctl runtime add` is
    /// to be tried instead.
    RetryWithSimctl,
    /// The download failed.
    Failed(Error),
}

/// The text that reports a command of the given words and runtime.
pub open spec fn labeled(prefix: Seq<char>, id: Seq<char>) -> Seq<char> {
    prefix + id
}

/// A string made of a prefix and a tail.
fn joined(prefix: &str, tail: &str) -> (r: String)
    ensures
        r@ == prefix@ + tail@,
{
    let mut r = prefix.to_string();
    r.append(tail);
    r
}

impl IosPlatform {
    /// The run that lists all simulators as JSON.
    pub fn list_devices_command() -> (r: Invocation)
        ensures
            invocation_view(r) == ("xcrun"@, seq!["simctl"@, "list"@, "--json"@, "devices"@]),
    {
        invocation("xcrun", arg_list(&["simctl", "list", "--json", "devices"]))
    }

    /// The JSON text of a simulator listing, or the error that the run
    /// amounts to.
    pub fn read_device_listing(result: CommandResult) -> (r: Result<String, Error>)
        ensures
            res_views(r) == strict_listing_spec("xcrun simctl list devices"@, result),
    {
        strict_listing("xcrun simctl list devices", result)
    }

    /// The devices of a listing: every simulator of every group, group after
    /// group, each carrying the version of its group's runtime where that
    /// names one.
    pub fn devices_from_groups(groups: &Vec<DeviceGroup>) -> (r: Vec<Device>)
        ensures
            crate::domain::device::device_views(r@) == devices_of_groups(groups@),
    {
        let mut out: Vec<Device> = Vec::new();
        let n = groups.len();
        assert(groups@.take(0) =~= Seq::<DeviceGroup>::empty());
        for gi in 0..n
            invariant
                n == groups@.len(),
                crate::domain::device::device_views(out@) == devices_of_groups(
                    groups@.take(gi as int),
                ),
        {
            let g = &groups[gi];
            let version = Self::extract_version(g.runtime.as_str());
            let m = g.devices.len();
            let ghost before = devices_of_groups(groups@.take(gi as int));
            assert(group_views(*g).take(0) =~= Seq::<DeviceView>::empty());
            for di in 0..m
                invariant
                    m == g.devices@.len(),
                    opt_view(version) == ios_version_in(g.runtime@),
                    crate::domain::device::device_views(out@) == before + group_views(*g).take(
                        di as int,
                    ),
            {
                let rd = &g.devices[di];
                let mut d = Device::new(rd.udid.as_str(), rd.name.as_str()).with_state(
                    DeviceState::from_name(rd.state.as_str()),
                );
                match &version {
                    Some(v) => {
                        d = d.with_platform_version(v.as_str());
                    },
                    None => {},
                }
                assert(d@ == device_of(*rd, ios_version_in(g.runtime@)));
                let ghost o = out@;
                out.push(d);
                assert(crate::domain::device::device_views(out@) =~= crate::domain::device::device_views(o).push(d@));
                assert(group_views(*g).take(di + 1) =~= group_views(*g).take(di as int).push(
                    device_of(*rd, ios_version_in(g.runtime@)),
                ));
            }
            assert(group_views(*g).take(m as int) =~= group_views(*g));
            assert(groups@.take(gi + 1).drop_last() =~= groups@.take(gi as int));
        }
        assert(groups@.take(n as int) =~= groups@);
        out
    }

    /// The run that boots a simulator.
    pub fn boot_command(device_id: &str) -> (r: Invocation)
        ensures
            invocation_view(r) == ("xcrun"@, seq!["simctl"@, "boot"@, device_id@]),
    {
        invocation("xcrun", arg_list(&["simctl", "boot", device_id]))
    }

    /// The outcome of a boot: a failure whose error output says the simulator
    /// is already booted counts as success.
    pub fn read_boot(result: CommandResult) -> (r: Result<(), Error>)
        ensures
            res_view(r) == boot_outcome(result),
    {
        match result {
            CommandResult::FailedToStart { message } => Err(Error::Io { message }),
            CommandResult::Completed(out) => {
                let err = chars_of(out.stderr.as_str());
                if !out.success && !crate::text::contains_str(
                    err.as_slice(),
                    "current state: Booted",
                ) {
                    Err(
                        Error::CommandFailed {
                            command: "xcrun simctl boot".to_string(),
                            message: out.stderr,
                        },
                    )
                } else {
                    Ok(())
                }
            },
        }
    }

    /// The run that brings up the Simulator application.
    pub fn open_simulator_command() -> (r: Invocation)
        ensures
            invocation_view(r) == ("open"@, seq!["-a"@, "Simulator"@]),
    {
        invocation("open", arg_list(&["-a", "Simulator"]))
    }

    /// The outcome of bringing up the Simulator application.
    pub fn read_open_simulator(result: CommandResult) -> (r: Result<(), Error>)
        ensures
            res_view(r) == finished_spec("open -a Simulator"@, result),
    {
        finished("open -a Simulator", result)
    }

    /// The run that brings the Simulator window to the front; its outcome
    /// does not matter.
    pub fn activate_simulator_command() -> (r: Invocation)
        ensures
            invocation_view(r) == ("osascript"@, seq!["-e"@, ACTIVATE_SIMULATOR@]),
    {
        invocation("osascript", arg_list(&["-e", ACTIVATE_SIMULATOR]))
    }

    /// The run that creates a simulator.
    pub fn create_command(name: &str, device_type: &str, runtime: &str) -> (r: Invocation)
        ensures
            invocation_view(r) == (
                "xcrun"@,
                seq!["simctl"@, "create"@, name@, device_type@, runtime@],
            ),
    {
        invocation("xcrun", arg_list(&["simctl", "create", name, device_type, runtime]))
    }

    /// The outcome of creating a simulator.
    pub fn read_create(result: CommandResult) -> (r: Result<(), Error>)
        ensures
            res_view(r) == finished_spec("xcrun simctl create"@, result),
    {
        finished("xcrun simctl create", result)
    }

    /// The run that deletes a simulator.
    pub fn delete_command(device_id: &str) -> (r: Invocation)
        ensures
            invocation_view(r) == ("xcrun"@, seq!["simctl"@, "delete"@, device_id@]),
    {
        invocation("xcrun", arg_list(&["simctl", "delete", device_id]))
    }

    /// The outcome of deleting a simulator.
    pub fn read_delete(result: CommandResult) -> (r: Result<(), Error>)
        ensures
            res_view(r) == finished_spec("xcrun simctl delete"@, result),
    {
        finished("xcrun simctl delete", result)
    }

    /// The run that erases a simulator's content and settings.
    pub fn erase_command(device_id: &str) -> (r: Invocation)
        ensures
            invocation_view(r) == ("xcrun"@, seq!["simctl"@, "erase"@, device_id@]),
    {
        invocation("xcrun", arg_list(&["simctl", "erase", device_id]))
    }

    /// The outcome of erasing a simulator.
    pub fn read_erase(result: CommandResult) -> (r: Result<(), Error>)
        ensures
            res_view(r) == finished_spec("xcrun simctl erase"@, result),
    {
        finished("xcrun simctl erase", result)
    }

    /// The run that lists the installed runtimes as JSON.
    pub fn list_runtimes_command() -> (r: Invocation)
        ensures
            invocation_view(r) == ("xcrun"@, seq!["simctl"@, "list"@, "runtimes"@, "--json"@]),
    {
        invocation("xcrun", arg_list(&["simctl", "list", "runtimes", "--json"]))
    }

    /// The JSON text of a runtime listing, or the error that the run amounts to.
    pub fn read_runtime_listing(result: CommandResult) -> (r: Result<String, Error>)
        ensures
            res_views(r) == strict_listing_spec("xcrun simctl list runtimes"@, result),
    {
        strict_listing("xcrun simctl list runtimes", result)
    }

    /// The runtimes of a listing, in order, each named by its version and
    /// carrying its supported device types.
    pub fn runtimes_from_raw(raw: &Vec<RawRuntime>) -> (r: Vec<Runtime>)
        ensures
            runtime_views(r@) == raw@.map_values(|x: RawRuntime| runtime_of(x)),
    {
        let mut out: Vec<Runtime> = Vec::new();
        let n = raw.len();
        for i in 0..n
            invariant
                n == raw@.len(),
                runtime_views(out@) == raw@.take(i as int).map_values(
                    |x: RawRuntime| runtime_of(x),
                ),
        {
            let rr = &raw[i];
            let mut types: Vec<DeviceType> = Vec::new();
            let m = rr.supported_device_types.len();
            for j in 0..m
                invariant
                    m == rr.supported_device_types@.len(),
                    device_type_views(types@) == rr.supported_device_types@.take(j as int).map_values(
                        |t: RawSupportedDeviceType| raw_type_view(t),
                    ),
            {
                let t = &rr.supported_device_types[j];
                let ghost before = types@;
                types.push(DeviceType::new(t.identifier.as_str(), t.name.as_str()));
                assert(device_type_views(types@) =~= device_type_views(before).push(
                    raw_type_view(*t),
                ));
                assert(rr.supported_device_types@.take(j + 1).map_values(
                    |t: RawSupportedDeviceType| raw_type_view(t),
                ) =~= rr.supported_device_types@.take(j as int).map_values(
                    |t: RawSupportedDeviceType| raw_type_view(t),
                ).push(raw_type_view(*t)));
            }
            assert(rr.supported_device_types@.take(m as int) =~= rr.supported_device_types@);
            let rt = Runtime::new(rr.identifier.as_str(), rr.version.as_str()).with_device_types(
                types,
            );
            assert(rt@ == runtime_of(*rr));
            let ghost before = out@;
            out.push(rt);
            assert(runtime_views(out@) =~= runtime_views(before).push(runtime_of(*rr)));
            assert(raw@.take(i + 1).map_values(|x: RawRuntime| runtime_of(x)) =~= raw@.take(
                i as int,
            ).map_values(|x: RawRuntime| runtime_of(x)).push(runtime_of(*rr)));
        }
        assert(raw@.take(n as int) =~= raw@);
        out
    }
}

/// Whether some device type in the list has the given identifier.
fn has_type_identifier(list: &Vec<DeviceType>, id: &String) -> (r: bool)
    ensures
        r == has_identifier(device_type_views(list@), id@),
{
    let n = list.len();
    for k in 0..n
        invariant
            n == list@.len(),
            forall|q: int| 0 <= q < k ==> list@[q].identifier@ != id@,
    {
        if list[k].identifier == *id {
            assert(device_type_views(list@)[k as int].identifier == id@);
            return true;
        }
    }
    assert forall|q: int| 0 <= q < n implies #[trigger] device_type_views(list@)[q].identifier
        != id@ by {
        assert(device_type_views(list@)[q] == list@[q]@);
    }
    false
}

impl IosPlatform {
    /// The device types of all runtimes, the first of each identifier kept,
    /// in order of first appearance.
    pub fn device_types_of(runtimes: &Vec<Runtime>) -> (r: Vec<DeviceType>)
        ensures
            device_type_views(r@) == first_of_each(all_device_types(runtime_views(runtimes@))),
    {
        let mut out: Vec<DeviceType> = Vec::new();
        let n = runtimes.len();
        let ghost rv = runtime_views(runtimes@);
        assert(rv.take(0) =~= Seq::<RuntimeView>::empty());
        for i in 0..n
            invariant
                n == runtimes@.len(),
                rv == runtime_views(runtimes@),
                device_type_views(out@) == first_of_each(all_device_types(rv.take(i as int))),
        {
            let rt = &runtimes[i];
            let ghost done = all_device_types(rv.take(i as int));
            let ghost mine = rv[i as int].supported_device_types;
            assert(mine == device_type_views(rt.supported_device_types@));
            let m = rt.supported_device_types.len();
            assert(done + mine.take(0) =~= done);
            for j in 0..m
                invariant
                    m == rt.supported_device_types@.len(),
                    mine == device_type_views(rt.supported_device_types@),
                    device_type_views(out@) == first_of_each(done + mine.take(j as int)),
            {
                let dt = &rt.supported_device_types[j];
                let ghost all = done + mine.take(j as int);
                assert((done + mine.take(j + 1)).drop_last() =~= all);
                assert((done + mine.take(j + 1)).last() == dt@);
                let seen = has_type_identifier(&out, &dt.identifier);
                assert(seen == has_identifier(device_type_views(out@), dt@.identifier));
                if !seen {
                    let ghost before = out@;
                    out.push(DeviceType::new(dt.identifier.as_str(), dt.name.as_str()));
                    assert(device_type_views(out@) =~= device_type_views(before).push(dt@));
                }
            }
            assert(mine.take(m as int) =~= mine);
            assert(rv.take(i + 1).drop_last() =~= rv.take(i as int));
            assert(rv.take(i + 1).last() == rv[i as int]);
        }
        assert(rv.take(n as int) =~= rv);
        out
    }

    /// The run that asks `xcodebuild` which platforms it would download.
    pub fn dry_run_command() -> (r: Invocation)
        ensures
            invocation_view(r) == ("xcodebuild"@, seq!["-downloadAllPlatforms"@, "-dry-run"@]),
    {
        invocation("xcodebuild", arg_list(&["-downloadAllPlatforms", "-dry-run"]))
    }

    /// The runtimes that a dry run announces, or none where the run could not
    /// be started or announced nothing (then the runtime list is consulted).
    pub fn runtimes_from_dry_run(result: &CommandResult) -> (r: Option<Vec<Runtime>>)
        ensures
            match *result {
                CommandResult::FailedToStart { .. } => r is None,
                CommandResult::Completed(out) => {
                    let rs = dry_run_runtimes(crate::text::lines_of(dry_run_text(out)));
                    if rs.len() == 0 {
                        r is None
                    } else {
                        r matches Some(v) && runtime_views(v@) == rs
                    }
                },
            },
    {
        match result {
            CommandResult::FailedToStart { .. } => None,
            CommandResult::Completed(out) => {
                let mut text = chars_of(out.stdout.as_str());
                text.push('\n');
                crate::text::append_str(&mut text, out.stderr.as_str());
                assert(text@ =~= dry_run_text(*out));
                let ls = crate::text::lines(text.as_slice());
                let ghost lv = crate::text::lines_of(dry_run_text(*out));
                let mut found: Vec<Runtime> = Vec::new();
                let n = ls.len();
                assert(lv.take(0) =~= Seq::<Seq<char>>::empty());
                for i in 0..n
                    invariant
                        n == ls@.len(),
                        char_views(ls@) == lv,
                        runtime_views(found@) == dry_run_runtimes(lv.take(i as int)),
                {
                    let line = ls[i].as_slice();
                    assert(ls@[i as int]@ == lv[i as int]);
                    assert(lv.take(i + 1).drop_last() =~= lv.take(i as int));
                    assert(lv.take(i + 1).last() == lv[i as int]);
                    if crate::text::contains_str(line, "iOS") && (crate::text::contains_str(
                        line,
                        "Downloading",
                    ) || crate::text::contains_str(line, "download")) {
                        let line_text = string_of(line);
                        match Self::extract_version_from_line(line_text.as_str()) {
                            Some(version) => {
                                let identifier = joined("iOS ", version.as_str());
                                let rt = Runtime::new(identifier.as_str(), version.as_str());
                                let ghost before = found@;
                                found.push(rt);
                                assert(runtime_views(found@) =~= runtime_views(before).push(rt@));
                            },
                            None => {},
                        }
                    }
                }
                assert(lv.take(n as int) =~= lv);
                if found.len() == 0 {
                    None
                } else {
                    Some(found)
                }
            },
        }
    }

    /// The run that lists the runtimes known to `simctl` as JSON.
    pub fn runtime_list_command() -> (r: Invocation)
        ensures
            invocation_view(r) == ("xcrun"@, seq!["simctl"@, "runtime"@, "list"@, "-j"@]),
    {
        invocation("xcrun", arg_list(&["simctl", "runtime", "list", "-j"]))
    }

    /// The JSON text of the runtime list, where the run succeeded.
    pub fn fallback_listing(result: &CommandResult) -> (r: Option<String>)
        ensures
            match *result {
                CommandResult::Completed(out) => if out.success {
                    r matches Some(t) && t@ == out.stdout@
                } else {
                    r is None
                },
                CommandResult::FailedToStart { .. } => r is None,
            },
    {
        match result {
            CommandResult::Completed(out) => if out.success {
                Some(out.stdout.clone())
            } else {
                None
            },
            CommandResult::FailedToStart { .. } => None,
        }
    }

    /// The runtimes offered when the dry run announced none, given the
    /// parsed runtime list where one could be read.
    pub fn fallback_runtimes(parsed: Option<Vec<AvailableRuntime>>) -> (r: Vec<Runtime>)
        ensures
            runtime_views(r@) == fallback_spec(
                match parsed {
                    Some(v) => Some(v@),
                    None => None,
                },
            ),
    {
        let mut found: Vec<Runtime> = Vec::new();
        let ghost pv = match parsed {
            Some(ref v) => Some(v@),
            None => None::<Seq<AvailableRuntime>>,
        };
        match &parsed {
            Some(list) => {
                let n = list.len();
                assert(list@.take(0) =~= Seq::<AvailableRuntime>::empty());
                for i in 0..n
                    invariant
                        n == list@.len(),
                        runtime_views(found@) == ios_listed(list@.take(i as int)),
                {
                    let a = &list[i];
                    assert(list@.take(i + 1).drop_last() =~= list@.take(i as int));
                    assert(list@.take(i + 1).last() == *a);
                    let lower = crate::text::to_lowercase(a.platform.as_str());
                    let lc = chars_of(lower.as_str());
                    if crate::text::contains_str(lc.as_slice(), "ios") {
                        let rt = Runtime::new(a.identifier.as_str(), a.version.as_str());
                        let ghost before = found@;
                        found.push(rt);
                        assert(runtime_views(found@) =~= runtime_views(before).push(rt@));
                    }
                }
                assert(list@.take(n as int) =~= list@);
            },
            None => {
                assert(runtime_views(found@) =~= Seq::<RuntimeView>::empty());
            },
        }
        if found.len() > 0 {
            found
        } else {
            let r = vec![Runtime::new("iOS", "iOS")];
            assert(runtime_views(r@) =~= fallback_spec(pv));
            r
        }
    }

    /// The lines printed before a runtime download starts.
    pub fn install_notice(runtime_id: &str) -> (r: (String, String))
        ensures
            r.0@ == "Downloading "@ + runtime_id@ + "..."@,
            r.1@ == "This may take a while and require administrator privileges."@,
    {
        let mut first = joined("Downloading ", runtime_id);
        first.append("...");
        (first, "This may take a while and require administrator privileges.".to_string())
    }

    /// The run that downloads a platform through `xcodebuild`.
    pub fn download_platform_command(runtime_id: &str) -> (r: Invocation)
        ensures
            invocation_view(r) == ("xcodebuild"@, seq!["-downloadPlatform"@, runtime_id@]),
    {
        invocation("xcodebuild", arg_list(&["-downloadPlatform", runtime_id]))
    }

    /// How a platform download ended: success; a failure whose error output
    /// mentions `unknown platform` or `invalid` asks for `simctl runtime add`;
    /// any other failure is a failed command.
    pub fn read_download(runtime_id: &str, result: CommandResult) -> (r: DownloadOutcome)
        ensures
            match result {
                CommandResult::FailedToStart { message } => r matches DownloadOutcome::Failed(e)
                    && e@ == ErrorView::Io { message: message@ },
                CommandResult::Completed(out) => if out.success {
                    r is Installed
                } else if contains_seq(out.stderr@, "unknown platform"@) || contains_seq(
                    out.stderr@,
                    "invalid"@,
                ) {
                    r is RetryWithSimctl
                } else {
                    r matches DownloadOutcome::Failed(e) && e@ == ErrorView::CommandFailed {
                        command: "xcodebuild -downloadPlatform "@ + runtime_id@,
                        message: out.stderr@,
                    }
                },
            },
    {
        match result {
            CommandResult::FailedToStart { message } => DownloadOutcome::Failed(
                Error::Io { message },
            ),
            CommandResult::Completed(out) => {
                if out.success {
                    return DownloadOutcome::Installed;
                }
                let err = chars_of(out.stderr.as_str());
                if crate::text::contains_str(err.as_slice(), "unknown platform")
                    || crate::text::contains_str(err.as_slice(), "invalid") {
                    DownloadOutcome::RetryWithSimctl
                } else {
                    DownloadOutcome::Failed(
                        Error::CommandFailed {
                            command: joined("xcodebuild -downloadPlatform ", runtime_id),
                            message: out.stderr,
                        },
                    )
                }
            },
        }
    }

    /// The run that adds a runtime through `simctl`.
    pub fn simctl_add_command(runtime_id: &str) -> (r: Invocation)
        ensures
            invocation_view(r) == ("xcrun"@, seq!["simctl"@, "runtime"@, "add"@, runtime_id@]),
    {
        invocation("xcrun", arg_list(&["simctl", "runtime", "add", runtime_id]))
    }

    /// The outcome of adding a runtime through `simctl`.
    pub fn read_simctl_add(runtime_id: &str, result: CommandResult) -> (r: Result<(), Error>)
        ensures
            res_view(r) == finished_spec("xcrun simctl runtime add "@ + runtime_id@, result),
    {
        let label = joined("xcrun simctl runtime add ", runtime_id);
        finished(label.as_str(), result)
    }
}

/// The outcome of a boot: a failure whose error output says the simulator is
/// already booted counts as success.
pub open spec fn boot_outcome(result: CommandResult) -> Result<(), ErrorView> {
    match result {
        CommandResult::FailedToStart { message } => Err(ErrorView::Io { message: message@ }),
        CommandResult::Completed(out) => if !out.success && !contains_seq(
            out.stderr@,
            "current state: Booted"@,
        ) {
            Err(ErrorView::CommandFailed { command: "xcrun simctl boot"@, message: out.stderr@ })
        } else {
            Ok(())
        },
    }
}

/// Where the start of a simulator stands.
#[derive(Debug, Clone, Copy, PartialEq, Eq, Structural)]
pub enum StartStage {
    /// The simulator is being booted.
    Booting,
    /// The Simulator application is being brought up.
    Opening,
    /// Its window is being brought to the front.
    Activating,
}

/// What starting a simulator asks for next.
pub enum StartStep {
    /// Run the program and hand its outcome to `IosPlatform::start_next`
    /// with the stage.
    Run { invocation: Invocation, stage: StartStage },
    /// The start is over, with this outcome.
    Done(Result<(), Error>),
}

/// Whether `r` runs the program `(program, args)` next, at stage `stage`.
pub open spec fn start_runs(r: StartStep, program: Seq<char>, args: Seq<Seq<char>>, stage: StartStage) -> bool {
    r matches StartStep::Run { invocation, stage: s } && invocation_view(invocation) == (
        program,
        args,
    ) && s == stage
}

/// Whether `r` ends the start with the error `e`.
pub open spec fn start_fails(r: StartStep, e: ErrorView) -> bool {
    r matches StartStep::Done(Err(x)) && x@ == e
}

/// Where the search for installable runtimes stands.
#[derive(Debug, Clone, Copy, PartialEq, Eq, Structural)]
pub enum SearchStage {
    /// `xcodebuild` is asked which platforms it would download.
    DryRun,
    /// `simctl` is asked for its runtime list.
    RuntimeList,
}

/// What the search for installable runtimes asks for next.
pub enum SearchStep {
    /// Run the program and hand its outcome to `IosPlatform::search_next`
    /// with the stage.
    Run { invocation: Invocation, stage: SearchStage },
    /// Read the runtime list's JSON, where there is one, and hand what could
    /// be read to `IosPlatform::fallback_runtimes`.
    ReadRuntimeList { listing: Option<String> },
    /// These runtimes can be installed.
    Found(Vec<Runtime>),
}

/// The runtimes that a dry run announces; none where it could not be started.
pub open spec fn dry_run_found(result: CommandResult) -> Seq<RuntimeView> {
    match result {
        CommandResult::FailedToStart { .. } => Seq::empty(),
        CommandResult::Completed(out) => dry_run_runtimes(crate::text::lines_of(dry_run_text(out))),
    }
}

impl IosPlatform {
    /// The first step of starting a simulator: boot it.
    pub fn start_begin(device_id: &str) -> (r: StartStep)
        ensures
            start_runs(r, "xcrun"@, seq!["simctl"@, "boot"@, device_id@], StartStage::Booting),
    {
        StartStep::Run { invocation: Self::boot_command(device_id), stage: StartStage::Booting }
    }

    /// The step after a run: a failed boot ends the start; a boot brings up
    /// the Simulator application; a failure to bring it up ends the start;
    /// once up, its window is brought to the front, whatever comes of that.
    pub fn start_next(stage: StartStage, result: CommandResult) -> (r: StartStep)
        ensures
            match stage {
                StartStage::Booting => match boot_outcome(result) {
                    Err(e) => start_fails(r, e),
                    Ok(_) => start_runs(r, "open"@, seq!["-a"@, "Simulator"@], StartStage::Opening),
                },
                StartStage::Opening => match finished_spec("open -a Simulator"@, result) {
                    Err(e) => start_fails(r, e),
                    Ok(_) => start_runs(
                        r,
                        "osascript"@,
                        seq!["-e"@, ACTIVATE_SIMULATOR@],
                        StartStage::Activating,
                    ),
                },
                StartStage::Activating => r matches StartStep::Done(Ok(())),
            },
    {
        match stage {
            StartStage::Booting => match Self::read_boot(result) {
                Err(e) => StartStep::Done(Err(e)),
                Ok(()) => StartStep::Run {
                    invocation: Self::open_simulator_command(),
                    stage: StartStage::Opening,
                },
            },
            StartStage::Opening => match Self::read_open_simulator(result) {
                Err(e) => StartStep::Done(Err(e)),
                Ok(()) => StartStep::Run {
                    invocation: Self::activate_simulator_command(),
                    stage: StartStage::Activating,
                },
            },
            StartStage::Activating => StartStep::Done(Ok(())),
        }
    }

    /// The first step of the search for installable runtimes: the dry run.
    pub fn search_begin() -> (r: SearchStep)
        ensures
            r matches SearchStep::Run { invocation, stage } && invocation_view(invocation) == (
                "xcodebuild"@,
                seq!["-downloadAllPlatforms"@, "-dry-run"@],
            ) && stage == SearchStage::DryRun,
    {
        SearchStep::Run { invocation: Self::dry_run_command(), stage: SearchStage::DryRun }
    }

    /// The step after a run: the runtimes the dry run announces, or, where it
    /// announced none or could not start, the runtime list; the list's text,
    /// where that run succeeded, is then to be read.
    pub fn search_next(stage: SearchStage, result: CommandResult) -> (r: SearchStep)
        ensures
            match stage {
                SearchStage::DryRun => if dry_run_found(result).len() == 0 {
                    r matches SearchStep::Run { invocation, stage } && invocation_view(invocation)
                        == ("xcrun"@, seq!["simctl"@, "runtime"@, "list"@, "-j"@]) && stage
                        == SearchStage::RuntimeList
                } else {
                    r matches SearchStep::Found(v) && runtime_views(v@) == dry_run_found(result)
                },
                SearchStage::RuntimeList => r matches SearchStep::ReadRuntimeList { listing }
                    && match result {
                    CommandResult::Completed(out) => if out.success {
                        listing matches Some(t) && t@ == out.stdout@
                    } else {
                        listing is None
                    },
                    CommandResult::FailedToStart { .. } => listing is None,
                },
            },
    {
        match stage {
            SearchStage::DryRun => match Self::runtimes_from_dry_run(&result) {
                Some(v) => SearchStep::Found(v),
                None => SearchStep::Run {
                    invocation: Self::runtime_list_command(),
                    stage: SearchStage::RuntimeList,
                },
            },
            SearchStage::RuntimeList => SearchStep::ReadRuntimeList {
                listing: Self::fallback_listing(&result),
            },
        }
    }
}

/// The script that brings the Simulator window to the front.
pub const ACTIVATE_SIMULATOR: &'static str =
    r#"if running of application "Simulator" then
                    tell the application "Simulator" to activate
                end if"#;
} // verus!
