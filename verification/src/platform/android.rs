//! Android emulators, managed through `emulator`, `avdmanager` and
//! `sdkmanager`.
use super::{
    arg_list, finished, finished_spec, invocation, invocation_view, lossy_listing,
    lossy_listing_spec, strict_listing, strict_listing_spec, CommandResult, Invocation,
    PlatformKind, ToolStatus,
};
use crate::domain::device::{device_views, opt_view, Device, DeviceState, DeviceView};
use crate::domain::runtime::{
    device_type_views, runtime_views, DeviceType, DeviceTypeView, Runtime, RuntimeView,
};
use crate::error::{res_view, res_views, Error, ErrorView};
use crate::text::{
    class_has,
    append_chars, char_views, chars_of, contains_str, contains_seq, lines, lines_of,
    replace_chars, replace_seq, split_by, split_chars, starts_with_seq, starts_with_str,
    string_of, trim_by, trim_chars, CharClass,
};
use vstd::prelude::*;

verus! {

/// The Android emulator platform. A value exists only where the tools were
/// found.
pub struct AndroidPlatform {
    _private: (),
}

/// The status of the Android tools, given what was found: the host must be
/// macOS, and `emulator` and `avdmanager` must start; the first that fails
/// names the reason.
pub open spec fn android_tools_spec(on_macos: bool, emulator_found: bool, avdmanager_found: bool) -> (
    bool,
    Option<Seq<char>>,
) {
    if !on_macos {
        (false, Some("Android emulators are currently only supported on macOS."@))
    } else if !emulator_found {
        (
            false,
            Some(
                "Android Emulator not found. Make sure Android SDK is installed and ANDROID_HOME is set. Add $ANDROID_HOME/emulator to your PATH."@,
            ),
        )
    } else if !avdmanager_found {
        (
            false,
            Some(
                "Android AVD Manager not found. Make sure Android SDK is installed and ANDROID_HOME is set. Add $ANDROID_HOME/cmdline-tools/latest/bin to your PATH."@,
            ),
        )
    } else {
        (true, None)
    }
}

/// The system image path that a line of `sdkmanager --list` output names:
/// the line has at least four `|`-separated columns, and its first column,
/// trimmed, has exactly four `;`-separated parts; the path is
/// `system-images;` followed by the last three parts, each trimmed.
pub open spec fn system_image_of(line: Seq<char>) -> Option<Seq<char>> {
    let cols = split_by(line, CharClass::Only('|'));
    if cols.len() >= 4 {
        let parts = split_by(trim_by(cols[0], CharClass::Whitespace), CharClass::Only(';'));
        if parts.len() == 4 {
            Some(
                "system-images"@ + seq![';'] + trim_by(parts[1], CharClass::Whitespace) + seq![';']
                    + trim_by(parts[2], CharClass::Whitespace) + seq![';'] + trim_by(
                    parts[3],
                    CharClass::Whitespace,
                ),
            )
        } else {
            None
        }
    } else {
        None
    }
}

/// A trimmed piece of a `;`-split text holds no `;`.
proof fn lemma_trimmed_piece_free(s: Seq<char>, k: int)
    requires
        0 <= k < split_by(s, CharClass::Only(';')).len(),
    ensures
        forall|j: int|
            0 <= j < trim_by(split_by(s, CharClass::Only(';'))[k], CharClass::Whitespace).len()
                ==> !class_has(
                CharClass::Only(';'),
                #[trigger] trim_by(split_by(s, CharClass::Only(';'))[k], CharClass::Whitespace)[j],
            ),
{
    let piece = split_by(s, CharClass::Only(';'))[k];
    crate::text::lemma_split_pieces_free(s, CharClass::Only(';'));
    assert forall|j: int| 0 <= j < piece.len() implies #[trigger] piece[j] != ';' by {
        assert(!class_has(CharClass::Only(';'), split_by(s, CharClass::Only(';'))[k][j]));
    }
    crate::text::lemma_trim_keeps_absent(piece, CharClass::Whitespace, ';');
}

/// Law: a path read from a line of `sdkmanager --list` output always has
/// exactly four `;`-separated parts, the first being `system-images`, the
/// others being the line's trimmed parts; so its display name is always the
/// `<level> (<variant>, <arch>)` form.
pub proof fn law_system_image_path_parts(line: Seq<char>)
    ensures
        system_image_of(line) matches Some(p) ==> {
            let parts = split_by(
                trim_by(split_by(line, CharClass::Only('|'))[0], CharClass::Whitespace),
                CharClass::Only(';'),
            );
            split_by(p, CharClass::Only(';')) == seq![
                "system-images"@,
                trim_by(parts[1], CharClass::Whitespace),
                trim_by(parts[2], CharClass::Whitespace),
                trim_by(parts[3], CharClass::Whitespace),
            ]
        },
{
    if system_image_of(line) is Some {
        let cls = CharClass::Only(';');
        let first = trim_by(split_by(line, CharClass::Only('|'))[0], CharClass::Whitespace);
        let parts = split_by(first, cls);
        let t1 = trim_by(parts[1], CharClass::Whitespace);
        let t2 = trim_by(parts[2], CharClass::Whitespace);
        let t3 = trim_by(parts[3], CharClass::Whitespace);
        lemma_trimmed_piece_free(first, 1);
        lemma_trimmed_piece_free(first, 2);
        lemma_trimmed_piece_free(first, 3);
        reveal_strlit("system-images");
        crate::text::lemma_split_free("system-images"@, cls);
        crate::text::lemma_split_free(t1, cls);
        crate::text::lemma_split_free(t2, cls);
        crate::text::lemma_split_free(t3, cls);
        crate::text::lemma_split_join(t2, ';', t3, cls);
        crate::text::lemma_split_join(t1, ';', t2 + seq![';'] + t3, cls);
        crate::text::lemma_split_join(
            "system-images"@,
            ';',
            t1 + seq![';'] + (t2 + seq![';'] + t3),
            cls,
        );
        let p = system_image_of(line).unwrap();
        assert(p =~= "system-images"@ + seq![';'] + (t1 + seq![';'] + (t2 + seq![';'] + t3)));
        assert(seq!["system-images"@] + (seq![t1] + (seq![t2] + seq![t3])) =~= seq![
            "system-images"@,
            t1,
            t2,
            t3,
        ]);
    }
}

/// The display name of a system image path with four `;`-separated parts:
/// `android-` in the second part becomes `Android `, `_` in the third part
/// becomes a space, giving `<level> (<variant>, <arch>)`; any other path is
/// shown as it is.
pub open spec fn system_image_name(path: Seq<char>) -> Seq<char> {
    let parts = split_by(path, CharClass::Only(';'));
    if parts.len() == 4 {
        replace_seq(parts[1], "android-"@, "Android "@) + " ("@ + replace_seq(
            parts[2],
            seq!['_'],
            seq![' '],
        ) + ", "@ + parts[3] + seq![')']
    } else {
        path
    }
}

/// The lines of a listing that mention a system image, read as paths.
pub open spec fn system_images_in(ls: Seq<Seq<char>>) -> Seq<Seq<char>>
    decreases ls.len(),
{
    if ls.len() == 0 {
        Seq::empty()
    } else {
        let p = system_images_in(ls.drop_last());
        if contains_seq(ls.last(), "system-images;"@) {
            match system_image_of(ls.last()) {
                Some(path) => p.push(path),
                None => p,
            }
        } else {
            p
        }
    }
}

/// A system image as a runtime named by its path.
pub open spec fn image_runtime(path: Seq<char>) -> RuntimeView {
    RuntimeView { identifier: path, name: path, supported_device_types: Seq::empty() }
}

/// A system image as a runtime named by its display name.
pub open spec fn offered_runtime(path: Seq<char>) -> RuntimeView {
    RuntimeView {
        identifier: path,
        name: system_image_name(path),
        supported_device_types: Seq::empty(),
    }
}

/// Whether some runtime in `rs` has the identifier `id`.
pub open spec fn has_runtime(rs: Seq<RuntimeView>, id: Seq<char>) -> bool {
    exists|j: int| 0 <= j < rs.len() && #[trigger] rs[j].identifier == id
}

/// The paths not among the installed runtimes, in order.
pub open spec fn not_installed(paths: Seq<Seq<char>>, installed: Seq<RuntimeView>) -> Seq<
    Seq<char>,
>
    decreases paths.len(),
{
    if paths.len() == 0 {
        Seq::empty()
    } else {
        let p = not_installed(paths.drop_last(), installed);
        if has_runtime(installed, paths.last()) {
            p
        } else {
            p.push(paths.last())
        }
    }
}

/// Law: the system images offered for installation are exactly those of the
/// listing that are not installed, in listing order: none of them is
/// installed, and every listed one that is not installed is offered.
pub proof fn law_offered_not_installed(paths: Seq<Seq<char>>, installed: Seq<RuntimeView>)
    ensures
        forall|i: int|
            0 <= i < not_installed(paths, installed).len() ==> !has_runtime(
                installed,
                #[trigger] not_installed(paths, installed)[i],
            ),
        forall|k: int|
            0 <= k < paths.len() && !has_runtime(installed, #[trigger] paths[k]) ==> not_installed(
                paths,
                installed,
            ).contains(paths[k]),
    decreases paths.len(),
{
    if paths.len() > 0 {
        let prev = paths.drop_last();
        law_offered_not_installed(prev, installed);
        let p = not_installed(prev, installed);
        let r = not_installed(paths, installed);
        assert forall|i: int| 0 <= i < r.len() implies !has_runtime(installed, #[trigger] r[i]) by {
            if i < p.len() {
                assert(r[i] == p[i]);
            }
        }
        assert forall|k: int|
            0 <= k < paths.len() && !has_runtime(installed, #[trigger] paths[k]) implies r.contains(
            paths[k],
        ) by {
            if k < paths.len() - 1 {
                assert(paths[k] == prev[k]);
                assert(p.contains(prev[k]));
                let j = choose|j: int| 0 <= j < p.len() && p[j] == prev[k];
                assert(r[j] == p[j]);
            } else {
                assert(r[p.len() as int] == paths.last());
            }
        }
    }
}

/// A line that names a system image puts it among the listing's images.
proof fn lemma_image_listed(ls: Seq<Seq<char>>, k: int)
    requires
        0 <= k < ls.len(),
        contains_seq(ls[k], "system-images;"@),
        system_image_of(ls[k]) is Some,
    ensures
        system_images_in(ls).contains(system_image_of(ls[k])->0),
    decreases ls.len(),
{
    let path = system_image_of(ls[k])->0;
    let p = system_images_in(ls.drop_last());
    if k == ls.len() - 1 {
        assert(system_images_in(ls)[p.len() as int] == path);
    } else {
        assert(ls.drop_last()[k] == ls[k]);
        lemma_image_listed(ls.drop_last(), k);
        let j = choose|j: int| 0 <= j < p.len() && p[j] == path;
        assert(system_images_in(ls)[j] == p[j]);
    }
}

/// Law: a system image that some line of an SDK listing names, and that the
/// listing's `Installed packages` section does not name (as with an image
/// listed only under `Available Packages`), is offered for installation,
/// identified by its path and named by its display name.
pub proof fn law_uninstalled_image_offered(ls: Seq<Seq<char>>, k: int)
    requires
        0 <= k < ls.len(),
        contains_seq(ls[k], "system-images;"@),
        system_image_of(ls[k]) is Some,
        !installed_images(ls).contains(system_image_of(ls[k])->0),
    ensures
        offered_images(ls).contains(
            RuntimeView {
                identifier: system_image_of(ls[k])->0,
                name: system_image_name(system_image_of(ls[k])->0),
                supported_device_types: Seq::empty(),
            },
        ),
{
    let path = system_image_of(ls[k])->0;
    let paths = system_images_in(ls);
    let inst = installed_images(ls).map_values(|p: Seq<char>| image_runtime(p));
    lemma_image_listed(ls, k);
    let m = choose|m: int| 0 <= m < paths.len() && paths[m] == path;
    if has_runtime(inst, path) {
        let j = choose|j: int| 0 <= j < inst.len() && #[trigger] inst[j].identifier == path;
        assert(installed_images(ls)[j] == path);
        assert(false);
    }
    law_offered_not_installed(paths, inst);
    assert(!has_runtime(inst, paths[m]));
    let ni = not_installed(paths, inst);
    assert(ni.contains(path));
    let q = choose|q: int| 0 <= q < ni.len() && ni[q] == path;
    assert(offered_images(ls)[q] == offered_runtime(path));
}

/// Law: no system image that the `Installed packages` section names is
/// offered for installation.
pub proof fn law_installed_image_not_offered(ls: Seq<Seq<char>>)
    ensures
        forall|i: int|
            0 <= i < offered_images(ls).len() ==> !installed_images(ls).contains(
                #[trigger] offered_images(ls)[i].identifier,
            ),
{
    let paths = system_images_in(ls);
    let inst = installed_images(ls).map_values(|p: Seq<char>| image_runtime(p));
    law_offered_not_installed(paths, inst);
    let ni = not_installed(paths, inst);
    assert forall|i: int| 0 <= i < offered_images(ls).len() implies !installed_images(
        ls,
    ).contains(#[trigger] offered_images(ls)[i].identifier) by {
        assert(offered_images(ls)[i].identifier == ni[i]);
        assert(!has_runtime(inst, ni[i]));
        if installed_images(ls).contains(ni[i]) {
            let j = choose|j: int| 0 <= j < installed_images(ls).len() && installed_images(ls)[j]
                == ni[i];
            assert(inst[j].identifier == ni[i]);
        }
    }
}

/// The AVD names of an `emulator -list-avds` listing: its non-empty lines.
pub open spec fn avd_names(ls: Seq<Seq<char>>) -> Seq<Seq<char>>
    decreases ls.len(),
{
    if ls.len() == 0 {
        Seq::empty()
    } else {
        let p = avd_names(ls.drop_last());
        if ls.last().len() > 0 {
            p.push(ls.last())
        } else {
            p
        }
    }
}

/// An AVD named `n` as a device.
pub open spec fn avd_device(n: Seq<char>) -> DeviceView {
    DeviceView { id: n, name: n, state: DeviceState::Unknown, platform_version: None }
}

/// The profile names of an `avdmanager list device` listing: for each line
/// that begins with `id:` and holds a `"`, the text between its first and
/// second `"`.
pub open spec fn profile_names(ls: Seq<Seq<char>>) -> Seq<Seq<char>>
    decreases ls.len(),
{
    if ls.len() == 0 {
        Seq::empty()
    } else {
        let p = profile_names(ls.drop_last());
        let pieces = split_by(ls.last(), CharClass::Only('"'));
        if starts_with_seq(ls.last(), "id:"@) && pieces.len() >= 2 {
            p.push(pieces[1])
        } else {
            p
        }
    }
}

/// A device profile named `n`.
pub open spec fn profile_type(n: Seq<char>) -> DeviceTypeView {
    DeviceTypeView { identifier: n, name: n }
}

/// The list, or the error that no system image is there when it is empty.
pub open spec fn nonempty_or_no_images<T>(s: Seq<T>) -> Result<Seq<T>, ErrorView> {
    if s.len() == 0 {
        Err(ErrorView::NoDevicesAvailable { platform: "Android system image"@ })
    } else {
        Ok(s)
    }
}

/// Whether, after the given lines of an SDK listing, the listing is inside
/// its `Installed packages` section: the last section heading read (a line
/// that, trimmed, begins with `Installed packages` or with `Available`, as
/// `Available Packages:` and `Available Updates:` do) is that one.
pub open spec fn in_installed_section(ls: Seq<Seq<char>>) -> bool
    decreases ls.len(),
{
    if ls.len() == 0 {
        false
    } else {
        let t = trim_by(ls.last(), CharClass::Whitespace);
        if starts_with_seq(t, "Installed packages"@) {
            true
        } else if starts_with_seq(t, "Available"@) {
            false
        } else {
            in_installed_section(ls.drop_last())
        }
    }
}

/// The system images that an SDK listing names inside its `Installed
/// packages` section, read as paths, in order.
pub open spec fn installed_images(ls: Seq<Seq<char>>) -> Seq<Seq<char>>
    decreases ls.len(),
{
    if ls.len() == 0 {
        Seq::empty()
    } else {
        let p = installed_images(ls.drop_last());
        if in_installed_section(ls.drop_last()) && contains_seq(ls.last(), "system-images;"@) {
            match system_image_of(ls.last()) {
                Some(path) => p.push(path),
                None => p,
            }
        } else {
            p
        }
    }
}

/// The system images that an SDK listing offers for installation: those it
/// names anywhere that its `Installed packages` section does not name, each
/// named by its display name.
pub open spec fn offered_images(ls: Seq<Seq<char>>) -> Seq<RuntimeView> {
    not_installed(
        system_images_in(ls),
        installed_images(ls).map_values(|p: Seq<char>| image_runtime(p)),
    ).map_values(|p: Seq<char>| offered_runtime(p))
}

/// A string made of a prefix and a tail.
fn joined(prefix: &str, tail: &str) -> (r: String)
    ensures
        r@ == prefix@ + tail@,
{
    let mut r = prefix.to_string();
    r.append(tail);
    r
}

/// The characters between trimmed pieces of a system image path.
fn trimmed(s: &Vec<char>) -> (r: Vec<char>)
    ensures
        r@ == trim_by(s@, CharClass::Whitespace),
{
    trim_chars(s.as_slice(), &CharClass::Whitespace)
}

impl super::Platform for AndroidPlatform {
    open spec fn platform_kind(&self) -> PlatformKind {
        PlatformKind::Android
    }

    fn kind(&self) -> (r: PlatformKind) {
        PlatformKind::Android
    }
}

impl AndroidPlatform {
    /// The platform, where its tools were found.
    pub fn try_new(status: &ToolStatus) -> (r: Option<Self>)
        ensures
            r is Some <==> status.available,
    {
        if status.available {
            Some(AndroidPlatform { _private: () })
        } else {
            None
        }
    }

    /// The run that shows whether the emulator is installed (it need only start).
    pub fn emulator_probe() -> (r: Invocation)
        ensures
            invocation_view(r) == ("emulator"@, seq!["-version"@]),
    {
        invocation("emulator", arg_list(&["-version"]))
    }

    /// The run that shows whether the AVD manager is installed (it need only start).
    pub fn avdmanager_probe() -> (r: Invocation)
        ensures
            invocation_view(r) == ("avdmanager"@, seq!["list"@, "target"@]),
    {
        invocation("avdmanager", arg_list(&["list", "target"]))
    }

    /// Whether the Android tools are usable, given whether the host is macOS
    /// and whether the two probes could be started.
    pub fn check_tools(on_macos: bool, emulator_found: bool, avdmanager_found: bool) -> (r:
        ToolStatus)
        ensures
            (r.available, opt_view(r.message)) == android_tools_spec(
                on_macos,
                emulator_found,
                avdmanager_found,
            ),
            r.available || r.message is Some,
    {
        if !on_macos {
            return ToolStatus::unavailable(
                "Android emulators are currently only supported on macOS.",
            );
        }
        if !emulator_found {
            return ToolStatus::unavailable(
                "Android Emulator not found. Make sure Android SDK is installed and ANDROID_HOME is set. Add $ANDROID_HOME/emulator to your PATH.",
            );
        }
        if !avdmanager_found {
            return ToolStatus::unavailable(
                "Android AVD Manager not found. Make sure Android SDK is installed and ANDROID_HOME is set. Add $ANDROID_HOME/cmdline-tools/latest/bin to your PATH.",
            );
        }
        ToolStatus::available()
    }

    /// The system image path that a line of `sdkmanager --list` output names.
    pub fn parse_system_image(line: &str) -> (r: Option<String>)
        ensures
            opt_view(r) == system_image_of(line@),
    {
        let cs = chars_of(line);
        let cols = split_chars(cs.as_slice(), &CharClass::Only('|'));
        if cols.len() >= 4 {
            let first = trimmed(&cols[0]);
            let parts = split_chars(first.as_slice(), &CharClass::Only(';'));
            if parts.len() == 4 {
                let mut out: Vec<char> = chars_of("system-images");
                out.push(';');
                let a = trimmed(&parts[1]);
                append_chars(&mut out, a.as_slice());
                out.push(';');
                let b = trimmed(&parts[2]);
                append_chars(&mut out, b.as_slice());
                out.push(';');
                let c = trimmed(&parts[3]);
                append_chars(&mut out, c.as_slice());
                assert(cols@[0]@ == split_by(line@, CharClass::Only('|'))[0]);
                assert(parts@[1]@ == split_by(first@, CharClass::Only(';'))[1]);
                assert(parts@[2]@ == split_by(first@, CharClass::Only(';'))[2]);
                assert(parts@[3]@ == split_by(first@, CharClass::Only(';'))[3]);
                assert(out@ =~= system_image_of(line@).unwrap());
                return Some(string_of(out.as_slice()));
            }
        }
        None
    }

    /// The display name of a system image path, such as
    /// `Android 34 (google apis, arm64-v8a)` for
    /// `system-images;android-34;google_apis;arm64-v8a`.
    pub fn format_system_image_name(path: &str) -> (r: String)
        ensures
            r@ == system_image_name(path@),
    {
        let cs = chars_of(path);
        let parts = split_chars(cs.as_slice(), &CharClass::Only(';'));
        if parts.len() == 4 {
            let from = chars_of("android-");
            proof {
                reveal_strlit("android-");
            }
            let to = chars_of("Android ");
            let level = replace_chars(parts[1].as_slice(), from.as_slice(), to.as_slice());
            let under: [char; 1] = ['_'];
            let space: [char; 1] = [' '];
            assert(under@ =~= seq!['_']);
            assert(space@ =~= seq![' ']);
            let variant = replace_chars(parts[2].as_slice(), under.as_slice(), space.as_slice());
            let mut out = level;
            crate::text::append_str(&mut out, " (");
            append_chars(&mut out, variant.as_slice());
            crate::text::append_str(&mut out, ", ");
            append_chars(&mut out, parts[3].as_slice());
            out.push(')');
            assert(parts@[1]@ == split_by(path@, CharClass::Only(';'))[1]);
            assert(parts@[2]@ == split_by(path@, CharClass::Only(';'))[2]);
            assert(parts@[3]@ == split_by(path@, CharClass::Only(';'))[3]);
            assert(out@ =~= system_image_name(path@));
            string_of(out.as_slice())
        } else {
            path.to_string()
        }
    }
}

/// The system image paths in the lines of a listing.
fn images_in_lines(ls: &Vec<Vec<char>>) -> (r: Vec<String>)
    ensures
        crate::text::string_views(r@) == system_images_in(char_views(ls@)),
{
    let ghost lv = char_views(ls@);
    let mut out: Vec<String> = Vec::new();
    let n = ls.len();
    assert(lv.take(0) =~= Seq::<Seq<char>>::empty());
    for i in 0..n
        invariant
            n == ls@.len(),
            lv == char_views(ls@),
            crate::text::string_views(out@) == system_images_in(lv.take(i as int)),
    {
        assert(lv.take(i + 1).drop_last() =~= lv.take(i as int));
        assert(lv.take(i + 1).last() == ls@[i as int]@);
        let line = ls[i].as_slice();
        if contains_str(line, "system-images;") {
            let text = string_of(line);
            match AndroidPlatform::parse_system_image(text.as_str()) {
                Some(path) => {
                    let ghost before = out@;
                    out.push(path);
                    assert(crate::text::string_views(out@) =~= crate::text::string_views(
                        before,
                    ).push(path@));
                },
                None => {},
            }
        }
    }
    assert(lv.take(n as int) =~= lv);
    out
}

/// The system image paths in the `Installed packages` section of a listing.
fn installed_images_in_lines(ls: &Vec<Vec<char>>) -> (r: Vec<String>)
    ensures
        crate::text::string_views(r@) == installed_images(char_views(ls@)),
{
    let ghost lv = char_views(ls@);
    let mut out: Vec<String> = Vec::new();
    let mut inside = false;
    let n = ls.len();
    assert(lv.take(0) =~= Seq::<Seq<char>>::empty());
    for i in 0..n
        invariant
            n == ls@.len(),
            lv == char_views(ls@),
            inside == in_installed_section(lv.take(i as int)),
            crate::text::string_views(out@) == installed_images(lv.take(i as int)),
    {
        assert(lv.take(i + 1).drop_last() =~= lv.take(i as int));
        assert(lv.take(i + 1).last() == ls@[i as int]@);
        let line = ls[i].as_slice();
        if inside && contains_str(line, "system-images;") {
            let text = string_of(line);
            match AndroidPlatform::parse_system_image(text.as_str()) {
                Some(path) => {
                    let ghost before = out@;
                    out.push(path);
                    assert(crate::text::string_views(out@) =~= crate::text::string_views(
                        before,
                    ).push(path@));
                },
                None => {},
            }
        }
        let t = trim_chars(line, &CharClass::Whitespace);
        if starts_with_str(t.as_slice(), "Installed packages") {
            inside = true;
        } else if starts_with_str(t.as_slice(), "Available") {
            inside = false;
        }
    }
    assert(lv.take(n as int) =~= lv);
    out
}

/// Each path as a runtime named by the path.
fn image_runtimes(paths: &Vec<String>) -> (r: Vec<Runtime>)
    ensures
        runtime_views(r@) == crate::text::string_views(paths@).map_values(
            |p: Seq<char>| image_runtime(p),
        ),
{
    let ghost pv = crate::text::string_views(paths@);
    let mut out: Vec<Runtime> = Vec::new();
    let n = paths.len();
    for i in 0..n
        invariant
            n == paths@.len(),
            crate::text::string_views(paths@) == pv,
            runtime_views(out@) == pv.take(i as int).map_values(|p: Seq<char>| image_runtime(p)),
    {
        assert(crate::text::string_views(paths@)[i as int] == paths@[i as int]@);
        let rt = Runtime::new(paths[i].as_str(), paths[i].as_str());
        let ghost before = out@;
        out.push(rt);
        assert(runtime_views(out@) =~= runtime_views(before).push(rt@));
        assert(pv.take(i + 1).map_values(|p: Seq<char>| image_runtime(p)) =~= pv.take(
            i as int,
        ).map_values(|p: Seq<char>| image_runtime(p)).push(image_runtime(pv[i as int])));
    }
    assert(pv.take(n as int) =~= pv);
    out
}

/// Whether some runtime in the list has the given identifier.
fn has_runtime_identifier(list: &Vec<Runtime>, id: &String) -> (r: bool)
    ensures
        r == has_runtime(runtime_views(list@), id@),
{
    let n = list.len();
    for k in 0..n
        invariant
            n == list@.len(),
            forall|q: int| 0 <= q < k ==> list@[q].identifier@ != id@,
    {
        if list[k].identifier == *id {
            assert(runtime_views(list@)[k as int].identifier == id@);
            return true;
        }
    }
    assert forall|q: int| 0 <= q < n implies #[trigger] runtime_views(list@)[q].identifier
        != id@ by {
        assert(runtime_views(list@)[q] == list@[q]@);
    }
    false
}

impl AndroidPlatform {
    /// The system image paths named in an SDK listing, in order.
    pub fn system_images_from_listing(text: &str) -> (r: Vec<String>)
        ensures
            crate::text::string_views(r@) == system_images_in(lines_of(text@)),
    {
        let cs = chars_of(text);
        let ls = lines(cs.as_slice());
        images_in_lines(&ls)
    }

    /// The run that lists the AVDs.
    pub fn list_devices_command() -> (r: Invocation)
        ensures
            invocation_view(r) == ("emulator"@, seq!["-list-avds"@]),
    {
        invocation("emulator", arg_list(&["-list-avds"]))
    }

    /// The text of an AVD listing, or the error that the run amounts to.
    pub fn read_device_listing(result: CommandResult) -> (r: Result<String, Error>)
        ensures
            res_views(r) == strict_listing_spec("emulator -list-avds"@, result),
    {
        strict_listing("emulator -list-avds", result)
    }

    /// The devices of an AVD listing: one per non-empty line, named and
    /// identified by the line.
    pub fn devices_from_listing(text: &str) -> (r: Vec<Device>)
        ensures
            device_views(r@) == avd_names(lines_of(text@)).map_values(
                |n: Seq<char>| avd_device(n),
            ),
    {
        let cs = chars_of(text);
        let ls = lines(cs.as_slice());
        let ghost lv = lines_of(text@);
        let mut out: Vec<Device> = Vec::new();
        let n = ls.len();
        assert(lv.take(0) =~= Seq::<Seq<char>>::empty());
        for i in 0..n
            invariant
                n == ls@.len(),
                char_views(ls@) == lv,
                device_views(out@) == avd_names(lv.take(i as int)).map_values(
                    |n: Seq<char>| avd_device(n),
                ),
        {
            assert(lv.take(i + 1).drop_last() =~= lv.take(i as int));
            assert(lv.take(i + 1).last() == ls@[i as int]@);
            if ls[i].len() > 0 {
                let name = string_of(ls[i].as_slice());
                let d = Device::new(name.as_str(), name.as_str());
                let ghost before = out@;
                out.push(d);
                assert(device_views(out@) =~= device_views(before).push(avd_device(name@)));
                assert(avd_names(lv.take(i + 1)).map_values(|n: Seq<char>| avd_device(n))
                    =~= avd_names(lv.take(i as int)).map_values(|n: Seq<char>| avd_device(n)).push(
                    avd_device(name@),
                ));
            }
        }
        assert(lv.take(n as int) =~= lv);
        out
    }

    /// The run that starts an emulator detached inside `screen`.
    pub fn start_command(device_id: &str) -> (r: Invocation)
        ensures
            invocation_view(r) == (
                "screen"@,
                seq!["-m"@, "-d"@, "emulator"@, "-avd"@, device_id@],
            ),
    {
        invocation("screen", arg_list(&["-m", "-d", "emulator", "-avd", device_id]))
    }

    /// The outcome of starting an emulator.
    pub fn read_start(device_id: &str, result: CommandResult) -> (r: Result<(), Error>)
        ensures
            res_view(r) == finished_spec("emulator -avd "@ + device_id@, result),
    {
        let label = joined("emulator -avd ", device_id);
        finished(label.as_str(), result)
    }

    /// The run that creates an AVD.
    pub fn create_command(name: &str, device_type: &str, runtime: &str) -> (r: Invocation)
        ensures
            invocation_view(r) == (
                "avdmanager"@,
                seq!["create"@, "avd"@, "-n"@, name@, "-k"@, runtime@, "-d"@, device_type@],
            ),
    {
        invocation(
            "avdmanager",
            arg_list(&["create", "avd", "-n", name, "-k", runtime, "-d", device_type]),
        )
    }

    /// The outcome of creating an AVD.
    pub fn read_create(result: CommandResult) -> (r: Result<(), Error>)
        ensures
            res_view(r) == finished_spec("avdmanager create avd"@, result),
    {
        finished("avdmanager create avd", result)
    }

    /// The run that deletes an AVD.
    pub fn delete_command(device_id: &str) -> (r: Invocation)
        ensures
            invocation_view(r) == ("avdmanager"@, seq!["delete"@, "avd"@, "--name"@, device_id@]),
    {
        invocation("avdmanager", arg_list(&["delete", "avd", "--name", device_id]))
    }

    /// The outcome of deleting an AVD.
    pub fn read_delete(result: CommandResult) -> (r: Result<(), Error>)
        ensures
            res_view(r) == finished_spec("avdmanager delete avd"@, result),
    {
        finished("avdmanager delete avd", result)
    }

    /// Erasing an emulator is not offered.
    pub fn erase_device(&self, device_id: &str) -> (r: Result<(), Error>)
        ensures
            r matches Err(e) && e@ == (ErrorView::NotImplemented {
                feature: "Android emulator erase"@,
            }),
    {
        Err(Error::NotImplemented { feature: "Android emulator erase".to_string() })
    }

    /// The run that lists SDK packages.
    pub fn sdk_list_command() -> (r: Invocation)
        ensures
            invocation_view(r) == ("sdkmanager"@, seq!["--list"@]),
    {
        invocation("sdkmanager", arg_list(&["--list"]))
    }

    /// The text of an SDK package listing, or the error that the run amounts to.
    pub fn read_sdk_listing(result: CommandResult) -> (r: Result<String, Error>)
        ensures
            res_views(r) == lossy_listing_spec("sdkmanager --list"@, result),
    {
        lossy_listing("sdkmanager --list", result)
    }

    /// The system images that an SDK listing names (every line holding
    /// `system-images;` that reads as a path), each named by its path, or the
    /// error that there are none.
    pub fn runtimes_from_listing(text: &str) -> (r: Result<Vec<Runtime>, Error>)
        ensures
            match nonempty_or_no_images(
                system_images_in(lines_of(text@)).map_values(|p: Seq<char>| image_runtime(p)),
            ) {
                Ok(rs) => r matches Ok(v) && runtime_views(v@) == rs,
                Err(e) => r matches Err(x) && x@ == e,
            },
    {
        let cs = chars_of(text);
        let ls = lines(cs.as_slice());
        let paths = images_in_lines(&ls);
        let out = image_runtimes(&paths);
        if out.len() == 0 {
            Err(Error::NoDevicesAvailable { platform: "Android system image".to_string() })
        } else {
            Ok(out)
        }
    }

    /// The system images of an SDK listing that its `Installed packages`
    /// section does not name, in listing order, each named by its display
    /// name, or the error that there are none.
    pub fn available_runtimes_from_listing(text: &str) -> (r: Result<Vec<Runtime>, Error>)
        ensures
            match nonempty_or_no_images(offered_images(lines_of(text@))) {
                Ok(rs) => r matches Ok(v) && runtime_views(v@) == rs,
                Err(e) => r matches Err(x) && x@ == e,
            },
    {
        let cs = chars_of(text);
        let ls = lines(cs.as_slice());
        let installed_paths = installed_images_in_lines(&ls);
        let inst = image_runtimes(&installed_paths);
        let paths = images_in_lines(&ls);
        let ghost pv = system_images_in(lines_of(text@));
        let ghost iv = runtime_views(inst@);
        let mut out: Vec<Runtime> = Vec::new();
        let n = paths.len();
        assert(pv.take(0) =~= Seq::<Seq<char>>::empty());
        for i in 0..n
            invariant
                n == paths@.len(),
                crate::text::string_views(paths@) == pv,
                iv == runtime_views(inst@),
                runtime_views(out@) == not_installed(pv.take(i as int), iv).map_values(
                    |p: Seq<char>| offered_runtime(p),
                ),
        {
            assert(crate::text::string_views(paths@)[i as int] == paths@[i as int]@);
            assert(pv.take(i + 1).drop_last() =~= pv.take(i as int));
            assert(pv.take(i + 1).last() == pv[i as int]);
            if !has_runtime_identifier(&inst, &paths[i]) {
                let name = Self::format_system_image_name(paths[i].as_str());
                let rt = Runtime::new(paths[i].as_str(), name.as_str());
                let ghost before = out@;
                out.push(rt);
                assert(runtime_views(out@) =~= runtime_views(before).push(rt@));
                assert(not_installed(pv.take(i + 1), iv).map_values(
                    |p: Seq<char>| offered_runtime(p),
                ) =~= not_installed(pv.take(i as int), iv).map_values(
                    |p: Seq<char>| offered_runtime(p),
                ).push(offered_runtime(pv[i as int])));
            }
        }
        assert(pv.take(n as int) =~= pv);
        if out.len() == 0 {
            Err(Error::NoDevicesAvailable { platform: "Android system image".to_string() })
        } else {
            Ok(out)
        }
    }

    /// The run that lists device profiles.
    pub fn device_list_command() -> (r: Invocation)
        ensures
            invocation_view(r) == ("avdmanager"@, seq!["list"@, "device"@]),
    {
        invocation("avdmanager", arg_list(&["list", "device"]))
    }

    /// The text of a device profile listing, or the error that the run
    /// amounts to.
    pub fn read_device_type_listing(result: CommandResult) -> (r: Result<String, Error>)
        ensures
            res_views(r) == lossy_listing_spec("avdmanager list device"@, result),
    {
        lossy_listing("avdmanager list device", result)
    }

    /// The profile names of a device profile listing, in order.
    pub fn profile_names_from_listing(text: &str) -> (r: Vec<String>)
        ensures
            crate::text::string_views(r@) == profile_names(lines_of(text@)),
    {
        let cs = chars_of(text);
        let ls = lines(cs.as_slice());
        let ghost lv = lines_of(text@);
        let mut out: Vec<String> = Vec::new();
        let n = ls.len();
        assert(lv.take(0) =~= Seq::<Seq<char>>::empty());
        for i in 0..n
            invariant
                n == ls@.len(),
                char_views(ls@) == lv,
                crate::text::string_views(out@) == profile_names(lv.take(i as int)),
        {
            assert(lv.take(i + 1).drop_last() =~= lv.take(i as int));
            assert(lv.take(i + 1).last() == ls@[i as int]@);
            if starts_with_str(ls[i].as_slice(), "id:") {
                let pieces = split_chars(ls[i].as_slice(), &CharClass::Only('"'));
                if pieces.len() >= 2 {
                    assert(pieces@[1]@ == split_by(ls@[i as int]@, CharClass::Only('"'))[1]);
                    let name = string_of(pieces[1].as_slice());
                    let ghost before = out@;
                    out.push(name);
                    assert(crate::text::string_views(out@) =~= crate::text::string_views(
                        before,
                    ).push(name@));
                }
            }
        }
        assert(lv.take(n as int) =~= lv);
        out
    }

    /// The device types of a device profile listing, each named and
    /// identified by its profile name, or the error that there are none.
    pub fn device_types_from_listing(text: &str) -> (r: Result<Vec<DeviceType>, Error>)
        ensures
            ({
                let ts = profile_names(lines_of(text@)).map_values(
                    |n: Seq<char>| profile_type(n),
                );
                if ts.len() == 0 {
                    r matches Err(e) && e@ == (ErrorView::NoDevicesAvailable {
                        platform: "Android device profile"@,
                    })
                } else {
                    r matches Ok(v) && device_type_views(v@) == ts
                }
            }),
    {
        let names = Self::profile_names_from_listing(text);
        let ghost nv = profile_names(lines_of(text@));
        let mut out: Vec<DeviceType> = Vec::new();
        let n = names.len();
        for i in 0..n
            invariant
                n == names@.len(),
                crate::text::string_views(names@) == nv,
                device_type_views(out@) == nv.take(i as int).map_values(
                    |n: Seq<char>| profile_type(n),
                ),
        {
            assert(crate::text::string_views(names@)[i as int] == names@[i as int]@);
            let t = DeviceType::new(names[i].as_str(), names[i].as_str());
            let ghost before = out@;
            out.push(t);
            assert(device_type_views(out@) =~= device_type_views(before).push(t@));
            assert(nv.take(i + 1).map_values(|n: Seq<char>| profile_type(n)) =~= nv.take(
                i as int,
            ).map_values(|n: Seq<char>| profile_type(n)).push(profile_type(nv[i as int])));
        }
        assert(nv.take(n as int) =~= nv);
        if out.len() == 0 {
            Err(Error::NoDevicesAvailable { platform: "Android device profile".to_string() })
        } else {
            Ok(out)
        }
    }

    /// The lines printed before a system image is installed.
    pub fn install_notice(runtime_id: &str) -> (r: (String, String))
        ensures
            r.0@ == "Installing "@ + runtime_id@ + "..."@,
            r.1@ == "This may take a while depending on your internet connection."@,
    {
        let mut first = joined("Installing ", runtime_id);
        first.append("...");
        (first, "This may take a while depending on your internet connection.".to_string())
    }

    /// The run that installs a system image.
    pub fn install_command(runtime_id: &str) -> (r: Invocation)
        ensures
            invocation_view(r) == ("sdkmanager"@, seq![runtime_id@]),
    {
        invocation("sdkmanager", arg_list(&[runtime_id]))
    }

    /// The outcome of installing a system image.
    pub fn read_install(runtime_id: &str, result: CommandResult) -> (r: Result<(), Error>)
        ensures
            res_view(r) == finished_spec("sdkmanager "@ + runtime_id@, result),
    {
        let label = joined("sdkmanager ", runtime_id);
        finished(label.as_str(), result)
    }

    /// The line printed once a system image is installed.
    pub fn installed_notice(runtime_id: &str) -> (r: String)
        ensures
            r@ == "Successfully installed "@ + runtime_id@,
    {
        joined("Successfully installed ", runtime_id)
    }
}

} // verus!
