//! The launcher: how the applications it finds are named, identified and
//! coloured.

use vstd::prelude::*;
use vstd::string::*;
use vstd::utf8::encode_utf8;
use crate::model::{in_order, lemma_position_is, position, ranked};
use crate::ranking::{insert_ranked, key_views};
use crate::text::{
    clone_opt, contains, find_from, first_occurrence, lowercase, lowercased, opt_text,
    replace, replace_char, replaced, starts_with, text_contains, text_eq, text_le, text_starts_with,
    with_char_replaced,
};

verus! {

/// In what form an application was found.
#[derive(Debug, Clone, Copy, PartialEq, Eq, Structural)]
pub enum AppStatus {
    Installed,
    InstallerAvailable,
    DevBuild,
}

/// An application that the launcher shows.
#[derive(Debug)]
pub struct AppInfo {
    pub name: String,
    pub display_name: String,
    pub path: String,
    pub size: u64,
    pub icon_color: String,
    pub status: AppStatus,
    pub installer_path: Option<String>,
    pub update_available: bool,
}

/// Where the launcher's backend lives.
#[derive(Debug)]
pub struct SupabaseConfig {
    pub url: String,
    pub anon_key: String,
}

/// How many applications are known by name.
pub const KNOWN_APP_COUNT: usize = 5;

/// The identifier of the `i`-th known application.
pub open spec fn known_id(i: int) -> Seq<char> {
    if i == 0 {
        "birch-dev"@
    } else if i == 1 {
        "birch-host"@
    } else if i == 2 {
        "birchvault-desktop"@
    } else if i == 3 {
        "birch-launcher"@
    } else {
        "birchvault"@
    }
}

/// The name under which the `i`-th known application is shown.
pub open spec fn known_display(i: int) -> Seq<char> {
    if i == 0 {
        "Birch Dev"@
    } else if i == 1 {
        "Birch Host"@
    } else if i == 3 {
        "Birch Launcher"@
    } else {
        "BirchVault"@
    }
}

/// The colour of the `i`-th known application.
pub open spec fn known_color(i: int) -> Seq<char> {
    if i == 0 {
        "#10b981"@
    } else if i == 1 {
        "#6366f1"@
    } else if i == 3 {
        "#f59e0b"@
    } else {
        "#8b5cf6"@
    }
}

fn known_id_text(i: usize) -> (r: &'static str)
    requires
        i < KNOWN_APP_COUNT,
    ensures
        r@ == known_id(i as int),
{
    if i == 0 {
        "birch-dev"
    } else if i == 1 {
        "birch-host"
    } else if i == 2 {
        "birchvault-desktop"
    } else if i == 3 {
        "birch-launcher"
    } else {
        "birchvault"
    }
}

fn known_display_text(i: usize) -> (r: &'static str)
    requires
        i < KNOWN_APP_COUNT,
    ensures
        r@ == known_display(i as int),
{
    if i == 0 {
        "Birch Dev"
    } else if i == 1 {
        "Birch Host"
    } else if i == 3 {
        "Birch Launcher"
    } else {
        "BirchVault"
    }
}

fn known_color_text(i: usize) -> (r: &'static str)
    requires
        i < KNOWN_APP_COUNT,
    ensures
        r@ == known_color(i as int),
{
    if i == 0 {
        "#10b981"
    } else if i == 1 {
        "#6366f1"
    } else if i == 3 {
        "#f59e0b"
    } else {
        "#8b5cf6"
    }
}

/// The first known application, from `from` on, whose identifier stands in
/// `lower`; 5 where none does.
pub open spec fn known_in(lower: Seq<char>, from: int) -> int
    decreases 5 - from,
{
    if from < 0 || from >= 5 {
        5
    } else if text_contains(lower, known_id(from)) {
        from
    } else {
        known_in(lower, from + 1)
    }
}

/// Decides `known_in` from the start.
fn find_known(lower: &str) -> (k: usize)
    ensures
        k == known_in(lower@, 0),
        k <= KNOWN_APP_COUNT,
{
    let mut i: usize = 0;
    while i < KNOWN_APP_COUNT
        invariant
            i <= KNOWN_APP_COUNT,
            known_in(lower@, 0) == known_in(lower@, i as int),
        decreases KNOWN_APP_COUNT - i,
    {
        if contains(lower, known_id_text(i)) {
            return i;
        }
        i = i + 1;
    }
    i
}

/// The upper case of one character, as the standard library gives it: one
/// character for most, several for some.
pub uninterp spec fn uppercased(c: char) -> Seq<char>;

/// Calls `char::to_uppercase` and collects what it yields.
#[verifier::external_body]
fn uppercase(c: char) -> (r: String)
    ensures
        r@ == uppercased(c),
{
    c.to_uppercase().collect()
}

/// A name in kebab case as a title: every hyphen becomes a space, and the
/// first character of every word is put in upper case.
pub open spec fn title_case(name: Seq<char>, from: int, at_start: bool) -> Seq<char>
    decreases name.len() - from,
{
    if from < 0 || from >= name.len() {
        Seq::empty()
    } else if name[from] == '-' {
        seq![' '] + title_case(name, from + 1, true)
    } else if at_start {
        uppercased(name[from]) + title_case(name, from + 1, false)
    } else {
        seq![name[from]] + title_case(name, from + 1, false)
    }
}

/// Builds `title_case`.
fn to_title_case(name: &str) -> (r: String)
    ensures
        r@ == title_case(name@, 0, true),
{
    let n = name.unicode_len();
    let mut out = String::from_str("");
    let mut at_start = true;
    let mut i: usize = 0;
    proof {
        reveal_strlit("");
        reveal_strlit(" ");
        assert(" "@ =~= seq![' ']);
    }
    while i < n
        invariant
            i <= n,
            n == name@.len(),
            " "@ == seq![' '],
            out@ + title_case(name@, i as int, at_start) == title_case(name@, 0, true),
        decreases n - i,
    {
        let c = name.get_char(i);
        let ghost before = out@;
        let ghost rest = title_case(name@, i + 1, c == '-');
        if c == '-' {
            out.append(" ");
            at_start = true;
            proof {
                assert(out@ + rest =~= before + (seq![' '] + rest));
            }
        } else if at_start {
            let upper = uppercase(c);
            out.append(upper.as_str());
            at_start = false;
            proof {
                assert(out@ + rest =~= before + (uppercased(c) + rest));
            }
        } else {
            out.append(name.substring_char(i, i + 1));
            proof {
                assert(name@.subrange(i as int, i + 1) =~= seq![c]);
                assert(out@ + rest =~= before + (seq![c] + rest));
            }
        }
        i = i + 1;
    }
    proof {
        assert(out@ + Seq::<char>::empty() =~= out@);
    }
    out
}

/// The name under which a file is shown: that of the first known application
/// whose identifier stands in the file's name in lower case, and otherwise
/// the file's name as a title.
pub open spec fn display_name(file_name: Seq<char>) -> Seq<char> {
    let k = known_in(lowercased(file_name), 0);
    if k < 5 {
        known_display(k)
    } else {
        title_case(file_name, 0, true)
    }
}

/// The name under which a file is shown.
pub fn get_display_name(file_name: &str) -> (r: String)
    ensures
        r@ == display_name(file_name@),
{
    let lower = lowercase(file_name);
    let k = find_known(lower.as_str());
    if k < KNOWN_APP_COUNT {
        String::from_str(known_display_text(k))
    } else {
        to_title_case(file_name)
    }
}

/// The colour of a file's icon: that of the first known application whose
/// identifier stands in the file's name in lower case, and amber otherwise.
pub open spec fn icon_color(file_name: Seq<char>) -> Seq<char> {
    let k = known_in(lowercased(file_name), 0);
    if k < 5 {
        known_color(k)
    } else {
        "#f59e0b"@
    }
}

/// The colour of a file's icon.
pub fn get_icon_color(file_name: &str) -> (r: String)
    ensures
        r@ == icon_color(file_name@),
{
    let lower = lowercase(file_name);
    let k = find_known(lower.as_str());
    if k < KNOWN_APP_COUNT {
        String::from_str(known_color_text(k))
    } else {
        String::from_str("#f59e0b")
    }
}

/// Whether a file is the launcher itself, by its name without regard to
/// case.
pub fn is_birch_launcher(file_name: &str) -> (r: bool)
    ensures
        r == (lowercased(file_name@) == "birch launcher"@ || lowercased(file_name@)
            == "birch-launcher"@ || lowercased(file_name@) == "birchlauncher"@),
{
    let lower = lowercase(file_name);
    text_eq(lower.as_str(), "birch launcher") || text_eq(lower.as_str(), "birch-launcher")
        || text_eq(lower.as_str(), "birchlauncher")
}

/// A name in lower case with spaces and underscores turned into hyphens.
pub open spec fn normalized(file_name: Seq<char>) -> Seq<char> {
    with_char_replaced(with_char_replaced(lowercased(file_name), ' ', '-'), '_', '-')
}

/// Whether the `i`-th known application is meant by a file name: its
/// identifier stands in the normalized name, or in the name in lower case
/// with its hyphens as they are, as spaces or as underscores.
pub open spec fn means_known(file_name: Seq<char>, i: int) -> bool {
    let lower = lowercased(file_name);
    ||| text_contains(normalized(file_name), known_id(i))
    ||| text_contains(lower, with_char_replaced(known_id(i), '-', ' '))
    ||| text_contains(lower, with_char_replaced(known_id(i), '-', '_'))
    ||| text_contains(lower, known_id(i))
}

/// The first known application, from `from` on, that a file name means; 5
/// where it means none.
pub open spec fn meant_app(file_name: Seq<char>, from: int) -> int
    decreases 5 - from,
{
    if from < 0 || from >= 5 {
        5
    } else if means_known(file_name, from) {
        from
    } else {
        meant_app(file_name, from + 1)
    }
}

/// The identifier under which a file counts: that of the first known
/// application it means, and otherwise its normalized name.
pub open spec fn app_id(file_name: Seq<char>) -> Seq<char> {
    let k = meant_app(file_name, 0);
    if k < 5 {
        known_id(k)
    } else {
        normalized(file_name)
    }
}

/// The identifier under which a file counts.
pub fn get_app_id(file_name: &str) -> (r: String)
    ensures
        r@ == app_id(file_name@),
{
    proof {
        reveal_strlit("-");
        reveal_strlit(" ");
        reveal_strlit("_");
        assert("-"@ =~= seq!['-']);
        assert(" "@ =~= seq![' ']);
        assert("_"@ =~= seq!['_']);
    }
    let lower = lowercase(file_name);
    let spaced = replace_char(lower.as_str(), ' ', '-', "-");
    let norm = replace_char(spaced.as_str(), '_', '-', "-");
    let mut i: usize = 0;
    while i < KNOWN_APP_COUNT
        invariant
            i <= KNOWN_APP_COUNT,
            lower@ == lowercased(file_name@),
            norm@ == normalized(file_name@),
            "-"@ == seq!['-'],
            " "@ == seq![' '],
            "_"@ == seq!['_'],
            meant_app(file_name@, 0) == meant_app(file_name@, i as int),
        decreases KNOWN_APP_COUNT - i,
    {
        let id = known_id_text(i);
        let with_spaces = replace_char(id, '-', ' ', " ");
        let with_underscores = replace_char(id, '-', '_', "_");
        if contains(norm.as_str(), id) || contains(lower.as_str(), with_spaces.as_str())
            || contains(lower.as_str(), with_underscores.as_str()) || contains(
            lower.as_str(),
            id,
        ) {
            return String::from_str(id);
        }
        i = i + 1;
    }
    norm
}

impl View for AppInfo {
    type V = AppInfoView;

    open spec fn view(&self) -> AppInfoView {
        AppInfoView {
            name: self.name@,
            display_name: self.display_name@,
            path: self.path@,
            size: self.size,
            icon_color: self.icon_color@,
            status: self.status,
            installer_path: opt_text(self.installer_path),
            update_available: self.update_available,
        }
    }
}

pub struct AppInfoView {
    pub name: Seq<char>,
    pub display_name: Seq<char>,
    pub path: Seq<char>,
    pub size: u64,
    pub icon_color: Seq<char>,
    pub status: AppStatus,
    pub installer_path: Option<Seq<char>>,
    pub update_available: bool,
}

/// The smallest file that counts as an application, in bytes.
pub const MIN_APP_SIZE: u64 = 1_000_000;

/// How deep the search for installers goes.
pub const INSTALLER_DEPTH: usize = 10;

/// How deep the search for development builds goes.
pub const DEV_BUILD_DEPTH: usize = 12;

/// The SHA-256 of some bytes, in lower-case hexadecimal.
pub uninterp spec fn sha256_hex(data: Seq<u8>) -> Seq<char>;

/// Calls `Sha256::digest` and writes the digest with `{:x}`.
#[verifier::external_body]
fn sha256(data: &[u8]) -> (r: String)
    ensures
        r@ == sha256_hex(data@),
{
    format!("{:x}", <sha2::Sha256 as sha2::Digest>::digest(data))
}

/// The eight bytes of a number, lowest first.
pub open spec fn le_bytes(n: u64) -> Seq<u8> {
    Seq::new(8, |i: int| ((n as int / vstd::arithmetic::power2::pow2((8 * i) as nat) as int) % 256) as u8)
}

/// The fingerprint of a file: the hash of its beginning followed by its
/// size, so that files that differ only in length differ in fingerprint.
pub open spec fn fingerprint(beginning: Seq<u8>, size: u64) -> Seq<char> {
    sha256_hex(beginning + le_bytes(size))
}

/// How much of a file goes into its fingerprint, in bytes.
pub const FINGERPRINT_BYTES: usize = 1_048_576;

/// Builds `fingerprint`.
pub fn compute_file_hash(beginning: &[u8], size: u64) -> (r: String)
    ensures
        r@ == fingerprint(beginning@, size),
{
    let mut data: Vec<u8> = Vec::new();
    data.extend_from_slice(beginning);
    let mut rest: u64 = size;
    let mut i: usize = 0;
    let ghost start = data@;
    proof {
        vstd::arithmetic::power2::lemma2_to64();
        assert(vstd::arithmetic::power2::pow2((8 * 0) as nat) == 1);
        assert(size as int / 1 == size as int);
        assert(data@ =~= start + le_bytes(size).take(0));
    }
    while i < 8
        invariant
            i <= 8,
            start == beginning@,
            data@ == start + le_bytes(size).take(i as int),
            rest as int == size as int / vstd::arithmetic::power2::pow2((8 * i) as nat) as int,
        decreases 8 - i,
    {
        let low: u8 = (rest % 256) as u8;
        data.push(low);
        proof {
            let p = vstd::arithmetic::power2::pow2((8 * i) as nat) as int;
            vstd::arithmetic::power2::lemma_pow2_pos((8 * i) as nat);
            vstd::arithmetic::power2::lemma_pow2_adds((8 * i) as nat, 8);
            vstd::arithmetic::power2::lemma2_to64();
            assert(vstd::arithmetic::power2::pow2((8 * (i + 1)) as nat) == p * 256);
            assert((size as int / p) / 256 == size as int / (p * 256)) by (nonlinear_arith)
                requires
                    p > 0,
            ;
            assert(le_bytes(size).take(i + 1) =~= le_bytes(size).take(i as int).push(low));
            assert(data@ =~= start + le_bytes(size).take(i + 1));
        }
        rest = rest / 256;
        i = i + 1;
    }
    proof {
        assert(le_bytes(size).take(8) =~= le_bytes(size));
    }
    sha256(data.as_slice())
}

/// Whether a directory, by its name in lower case, holds nothing that the
/// search for installers wants.
pub open spec fn barred_for_installers(dir: Seq<char>) -> bool {
    dir == "node_modules"@ || dir == ".git"@ || dir == "deps"@ || dir == "debug"@ || dir
        == ".cargo"@
}

/// Whether the search for installers goes into a directory, by its name in
/// lower case and its depth.
pub open spec fn enters_for_installers(dir: Seq<char>, depth: int) -> bool {
    depth < 10 && !barred_for_installers(dir) && (dir == "bundle"@ || dir == "nsis"@ || dir
        == "release"@ || dir == "target"@ || dir == "src-tauri"@ || text_starts_with(
        dir,
        "birch"@,
    ))
}

/// Decides `enters_for_installers` for a directory found at `depth`: its
/// own files are then read at `depth + 1`.
pub fn descends_for_installers(dir_lower: &str, depth: usize) -> (r: bool)
    ensures
        r == enters_for_installers(dir_lower@, depth as int),
{
    if depth >= INSTALLER_DEPTH {
        return false;
    }
    if text_eq(dir_lower, "node_modules") || text_eq(dir_lower, ".git") || text_eq(
        dir_lower,
        "deps",
    ) || text_eq(dir_lower, "debug") || text_eq(dir_lower, ".cargo") {
        return false;
    }
    text_eq(dir_lower, "bundle") || text_eq(dir_lower, "nsis") || text_eq(dir_lower, "release")
        || text_eq(dir_lower, "target") || text_eq(dir_lower, "src-tauri") || starts_with(
        dir_lower,
        "birch",
    )
}

/// Whether a program, by its name without extension, is the installer of an
/// application other than the launcher.
pub open spec fn names_installer(stem: Seq<char>) -> bool {
    let lower = lowercased(stem);
    (text_contains(lower, "setup"@) || text_contains(lower, "install"@)) && !text_contains(
        lower,
        "launcher"@,
    )
}

/// Decides `names_installer`.
pub fn is_installer(stem: &str) -> (r: bool)
    ensures
        r == names_installer(stem@),
{
    let lower = lowercase(stem);
    (contains(lower.as_str(), "setup") || contains(lower.as_str(), "install")) && !contains(
        lower.as_str(),
        "launcher",
    )
}

/// Whether the search for development builds goes into a directory, by its
/// name in lower case and its depth.
pub open spec fn enters_for_dev_builds(dir: Seq<char>, depth: int) -> bool {
    depth < 12 && !(dir == "node_modules"@ || dir == ".git"@ || dir == "deps"@ || dir == "build"@
        || dir == "incremental"@ || dir == ".fingerprint"@ || dir == "bundle"@ || dir == "debug"@
        || dir == ".cargo"@)
}

/// Decides `enters_for_dev_builds`.
pub fn descends_for_dev_builds(dir_lower: &str, depth: usize) -> (r: bool)
    ensures
        r == enters_for_dev_builds(dir_lower@, depth as int),
{
    if depth >= DEV_BUILD_DEPTH {
        return false;
    }
    !(text_eq(dir_lower, "node_modules") || text_eq(dir_lower, ".git") || text_eq(
        dir_lower,
        "deps",
    ) || text_eq(dir_lower, "build") || text_eq(dir_lower, "incremental") || text_eq(
        dir_lower,
        ".fingerprint",
    ) || text_eq(dir_lower, "bundle") || text_eq(dir_lower, "debug") || text_eq(
        dir_lower,
        ".cargo",
    ))
}

/// Where in a path, as bytes, the release folder of a build begins: at the
/// first `target\release\`, or, without one, at the first `target/release/`.
pub open spec fn release_folder(path: Seq<u8>) -> Option<int> {
    match first_occurrence(path, encode_utf8("target\\release\\"@), 0) {
        Some(i) => Some(i),
        None => first_occurrence(path, encode_utf8("target/release/"@), 0),
    }
}

/// Whether a file lies in the release folder of a build, and not deeper:
/// no separator follows the folder's name.
pub open spec fn directly_in_release(path: Seq<char>) -> bool {
    let bytes = encode_utf8(path);
    match release_folder(bytes) {
        Some(i) => first_occurrence(bytes, encode_utf8("\\"@), i + 15) is None
            && first_occurrence(bytes, encode_utf8("/"@), i + 15) is None,
        None => false,
    }
}

/// Whether a program is the development build of an application: not an
/// installer and not the launcher, directly in a release folder, and big
/// enough to be more than a helper.
pub open spec fn is_dev_build(stem: Seq<char>, path: Seq<char>, size: u64) -> bool {
    let lower = lowercased(stem);
    &&& !text_contains(lower, "setup"@)
    &&& !text_contains(lower, "install"@)
    &&& !(lower == "birch launcher"@ || lower == "birch-launcher"@ || lower == "birchlauncher"@)
    &&& directly_in_release(lowercased(path))
    &&& size >= 1_000_000
}

/// Decides `is_dev_build`.
pub fn counts_as_dev_build(stem: &str, path: &str, size: u64) -> (r: bool)
    ensures
        r == is_dev_build(stem@, path@, size),
{
    let lower = lowercase(stem);
    if contains(lower.as_str(), "setup") || contains(lower.as_str(), "install")
        || is_birch_launcher(stem) {
        return false;
    }
    let path_lower = lowercase(path);
    let bytes = path_lower.as_str().as_bytes();
    let at = match find_from(bytes, "target\\release\\".as_bytes(), 0) {
        Some(i) => Some(i),
        None => find_from(bytes, "target/release/".as_bytes(), 0),
    };
    match at {
        Some(i) => {
            proof {
                reveal_strlit("target\\release\\");
                reveal_strlit("target/release/");
                vstd::utf8::is_ascii_chars_encode_utf8("target\\release\\"@);
                vstd::utf8::is_ascii_chars_encode_utf8("target/release/"@);
                assert(encode_utf8("target\\release\\"@).len() == 15);
                assert(encode_utf8("target/release/"@).len() == 15);
                assert(i + 15 <= bytes@.len());
            }
            if i > bytes.len() - 15 {
                return false;
            }
            let after = i + 15;
            if find_from(bytes, "\\".as_bytes(), after).is_some() || find_from(
                bytes,
                "/".as_bytes(),
                after,
            ).is_some() {
                return false;
            }
            size >= MIN_APP_SIZE
        },
        None => false,
    }
}

/// Whether a program in an installation folder is an application: the
/// folder's name speaks of birch, the program is not the launcher, and it is
/// big enough.
pub open spec fn is_installed_app(dir: Seq<char>, stem: Seq<char>, size: u64) -> bool {
    let lower = lowercased(stem);
    &&& text_contains(lowercased(dir), "birch"@)
    &&& !(lower == "birch launcher"@ || lower == "birch-launcher"@ || lower == "birchlauncher"@)
    &&& size >= 1_000_000
}

/// Decides `is_installed_app`.
pub fn counts_as_installed(dir: &str, stem: &str, size: u64) -> (r: bool)
    ensures
        r == is_installed_app(dir@, stem@, size),
{
    contains(lowercase(dir).as_str(), "birch") && !is_birch_launcher(stem) && size
        >= MIN_APP_SIZE
}

/// An application that is installed on this machine.
#[derive(Debug)]
pub struct InstalledApp {
    pub app_id: String,
    pub app: AppInfo,
    /// The fingerprint of the installed program; empty where it could not
    /// be taken.
    pub hash: String,
}

/// An installer that lies in the project folder.
#[derive(Debug)]
pub struct Installer {
    pub app_id: String,
    pub path: String,
}

/// A development build that lies in the project folder.
#[derive(Debug)]
pub struct DevBuild {
    pub app_id: String,
    /// The program's name without extension.
    pub file_name: String,
    pub path: String,
    pub size: u64,
    /// The fingerprint of the build; empty where it could not be taken.
    pub hash: String,
}

impl Clone for AppInfo {
    fn clone(&self) -> (r: Self)
        ensures
            r@ == self@,
    {
        AppInfo {
            name: self.name.clone(),
            display_name: self.display_name.clone(),
            path: self.path.clone(),
            size: self.size,
            icon_color: self.icon_color.clone(),
            status: self.status,
            installer_path: clone_opt(&self.installer_path),
            update_available: self.update_available,
        }
    }
}

/// What is shown of a program under its name, found in some form.
pub open spec fn described(
    file_name: Seq<char>,
    path: Seq<char>,
    size: u64,
    status: AppStatus,
    installer_path: Option<Seq<char>>,
) -> AppInfoView {
    AppInfoView {
        name: file_name,
        display_name: display_name(file_name),
        path,
        size,
        icon_color: icon_color(file_name),
        status,
        installer_path,
        update_available: false,
    }
}

/// Builds `described`.
pub fn describe(
    file_name: &str,
    path: &str,
    size: u64,
    status: AppStatus,
    installer_path: Option<String>,
) -> (r: AppInfo)
    ensures
        r@ == described(file_name@, path@, size, status, opt_text(installer_path)),
{
    AppInfo {
        name: file_name.to_owned(),
        display_name: get_display_name(file_name),
        path: path.to_owned(),
        size,
        icon_color: get_icon_color(file_name),
        status,
        installer_path,
        update_available: false,
    }
}

/// An installed program as the launcher records it.
pub fn describe_installed(file_name: &str, path: &str, size: u64, hash: String) -> (r:
    InstalledApp)
    ensures
        r.app_id@ == app_id(file_name@),
        r.hash@ == hash@,
        r.app@ == described(file_name@, path@, size, AppStatus::Installed, None),
{
    InstalledApp {
        app_id: get_app_id(file_name),
        app: describe(file_name, path, size, AppStatus::Installed, None),
        hash,
    }
}

pub open spec fn installed_ids(v: Seq<InstalledApp>) -> Seq<Seq<char>> {
    Seq::new(v.len(), |i: int| v[i].app_id@)
}

pub open spec fn installer_ids(v: Seq<Installer>) -> Seq<Seq<char>> {
    Seq::new(v.len(), |i: int| v[i].app_id@)
}

pub open spec fn dev_build_ids(v: Seq<DevBuild>) -> Seq<Seq<char>> {
    Seq::new(v.len(), |i: int| v[i].app_id@)
}

/// The installed application with what the project folder knows of it: an
/// update is available where a development build of it has another
/// fingerprint, both being known, and the installer for it is named then.
pub open spec fn upgraded(app: InstalledApp, installers: Seq<Installer>, dev: Seq<DevBuild>)
    -> AppInfoView {
    let d = position(dev_build_ids(dev), app.app_id@);
    if d < dev.len() && app.hash@.len() > 0 && dev[d].hash@.len() > 0 && dev[d].hash@
        != app.hash@ {
        let i = position(installer_ids(installers), app.app_id@);
        AppInfoView {
            update_available: true,
            installer_path: if i < installers.len() {
                Some(installers[i].path@)
            } else {
                app.app@.installer_path
            },
            ..app.app@
        }
    } else {
        app.app@
    }
}

/// What is shown of an installer whose application is not installed: the
/// development build of the application where there is one, and the bare
/// identifier otherwise.
pub open spec fn offered(installer: Installer, dev: Seq<DevBuild>) -> AppInfoView {
    let d = position(dev_build_ids(dev), installer.app_id@);
    if d < dev.len() {
        described(
            dev[d].file_name@,
            dev[d].path@,
            dev[d].size,
            AppStatus::InstallerAvailable,
            Some(installer.path@),
        )
    } else {
        described(
            installer.app_id@,
            Seq::empty(),
            0,
            AppStatus::InstallerAvailable,
            Some(installer.path@),
        )
    }
}

/// What is shown of the first `upto` installed applications.
pub open spec fn installed_part(
    installed: Seq<InstalledApp>,
    installers: Seq<Installer>,
    dev: Seq<DevBuild>,
    upto: int,
) -> Seq<AppInfoView>
    decreases upto,
{
    if upto <= 0 || upto > installed.len() {
        Seq::empty()
    } else {
        installed_part(installed, installers, dev, upto - 1).push(
            upgraded(installed[upto - 1], installers, dev),
        )
    }
}

/// Whether installer `j` is shown: its application is not installed, and no
/// installer before it is for the same application.
pub open spec fn installer_shown(installed: Seq<InstalledApp>, installers: Seq<Installer>, j: int)
    -> bool {
    position(installed_ids(installed), installers[j].app_id@) >= installed.len() && position(
        installer_ids(installers),
        installers[j].app_id@,
    ) >= j
}

/// What is shown of the first `upto` installers.
pub open spec fn installer_part(
    installed: Seq<InstalledApp>,
    installers: Seq<Installer>,
    dev: Seq<DevBuild>,
    upto: int,
) -> Seq<AppInfoView>
    decreases upto,
{
    if upto <= 0 || upto > installers.len() {
        Seq::empty()
    } else if installer_shown(installed, installers, upto - 1) {
        installer_part(installed, installers, dev, upto - 1).push(
            offered(installers[upto - 1], dev),
        )
    } else {
        installer_part(installed, installers, dev, upto - 1)
    }
}

/// Whether development build `k` is shown by itself: its application is
/// neither installed nor offered by an installer.
pub open spec fn dev_build_shown(
    installed: Seq<InstalledApp>,
    installers: Seq<Installer>,
    dev: Seq<DevBuild>,
    k: int,
) -> bool {
    position(installed_ids(installed), dev[k].app_id@) >= installed.len() && position(
        installer_ids(installers),
        dev[k].app_id@,
    ) >= installers.len()
}

/// What is shown of the first `upto` development builds.
pub open spec fn dev_build_part(
    installed: Seq<InstalledApp>,
    installers: Seq<Installer>,
    dev: Seq<DevBuild>,
    upto: int,
) -> Seq<AppInfoView>
    decreases upto,
{
    if upto <= 0 || upto > dev.len() {
        Seq::empty()
    } else if dev_build_shown(installed, installers, dev, upto - 1) {
        dev_build_part(installed, installers, dev, upto - 1).push(
            described(
                dev[upto - 1].file_name@,
                dev[upto - 1].path@,
                dev[upto - 1].size,
                AppStatus::DevBuild,
                None,
            ),
        )
    } else {
        dev_build_part(installed, installers, dev, upto - 1)
    }
}

/// Everything that is shown, before it is put in order: the installed
/// applications, then the installers, then the development builds.
pub open spec fn found_apps(
    installed: Seq<InstalledApp>,
    installers: Seq<Installer>,
    dev: Seq<DevBuild>,
) -> Seq<AppInfoView> {
    installed_part(installed, installers, dev, installed.len() as int) + installer_part(
        installed,
        installers,
        dev,
        installers.len() as int,
    ) + dev_build_part(installed, installers, dev, dev.len() as int)
}

/// The views of a list of applications, in the same order.
pub open spec fn app_views(v: Seq<AppInfo>) -> Seq<AppInfoView> {
    Seq::new(v.len(), |i: int| v[i]@)
}

fn find_installed(installed: &Vec<InstalledApp>, id: &str) -> (p: usize)
    ensures
        p == position(installed_ids(installed@), id@),
        p <= installed.len(),
{
    let mut i: usize = 0;
    while i < installed.len()
        invariant
            i <= installed.len(),
            forall|j: int| 0 <= j < i ==> installed_ids(installed@)[j] != id@,
        decreases installed.len() - i,
    {
        if text_eq(installed[i].app_id.as_str(), id) {
            proof {
                lemma_position_is(installed_ids(installed@), id@, i as int);
            }
            return i;
        }
        i = i + 1;
    }
    proof {
        lemma_position_is(installed_ids(installed@), id@, i as int);
    }
    i
}

fn find_installer(installers: &Vec<Installer>, id: &str) -> (p: usize)
    ensures
        p == position(installer_ids(installers@), id@),
        p <= installers.len(),
{
    let mut i: usize = 0;
    while i < installers.len()
        invariant
            i <= installers.len(),
            forall|j: int| 0 <= j < i ==> installer_ids(installers@)[j] != id@,
        decreases installers.len() - i,
    {
        if text_eq(installers[i].app_id.as_str(), id) {
            proof {
                lemma_position_is(installer_ids(installers@), id@, i as int);
            }
            return i;
        }
        i = i + 1;
    }
    proof {
        lemma_position_is(installer_ids(installers@), id@, i as int);
    }
    i
}

fn find_dev_build(dev: &Vec<DevBuild>, id: &str) -> (p: usize)
    ensures
        p == position(dev_build_ids(dev@), id@),
        p <= dev.len(),
{
    let mut i: usize = 0;
    while i < dev.len()
        invariant
            i <= dev.len(),
            forall|j: int| 0 <= j < i ==> dev_build_ids(dev@)[j] != id@,
        decreases dev.len() - i,
    {
        if text_eq(dev[i].app_id.as_str(), id) {
            proof {
                lemma_position_is(dev_build_ids(dev@), id@, i as int);
            }
            return i;
        }
        i = i + 1;
    }
    proof {
        lemma_position_is(dev_build_ids(dev@), id@, i as int);
    }
    i
}

/// Puts one more application into the list, which is kept in order of the
/// names shown, compared in lower case.
fn show(keys: &mut Vec<String>, out: &mut Vec<AppInfo>, app: AppInfo)
    requires
        old(keys).len() == old(out).len(),
        ranked(key_views(old(keys)@), false),
        forall|k: int|
            0 <= k < old(out).len() ==> (#[trigger] old(keys)[k])@ == lowercased(
                old(out)[k].display_name@,
            ),
    ensures
        final(keys).len() == final(out).len(),
        ranked(key_views(final(keys)@), false),
        forall|k: int|
            0 <= k < final(out).len() ==> (#[trigger] final(keys)[k])@ == lowercased(
                final(out)[k].display_name@,
            ),
        app_views(final(out)@).to_multiset() == app_views(old(out)@).to_multiset().insert(app@),
{
    let key = lowercase(app.display_name.as_str());
    let ghost added = app@;
    let at = insert_ranked(keys, out, key, app, false);
    proof {
        assert(app_views(out@) =~= app_views(old(out)@).insert(at as int, added));
        vstd::seq_lib::to_multiset_insert(app_views(old(out)@), at as int, added);
    }
}

/// What the launcher shows for a project folder: every installed
/// application, with a note where the folder holds a newer build of it;
/// every application that is not installed but has an installer in the
/// folder; and every development build of an application that is neither.
/// The list is in order of the names shown, without regard to case.
pub fn scan_folder(installed: &Vec<InstalledApp>, installers: &Vec<Installer>, dev: &Vec<DevBuild>)
    -> (r: Vec<AppInfo>)
    ensures
        app_views(r@).to_multiset() == found_apps(installed@, installers@, dev@).to_multiset(),
        forall|i: int, j: int|
            0 <= i < j < r.len() ==> text_le(
                lowercased(r[i].display_name@),
                lowercased(r[j].display_name@),
            ),
{
    let mut keys: Vec<String> = Vec::new();
    let mut out: Vec<AppInfo> = Vec::new();
    proof {
        assert(app_views(out@) =~= Seq::empty());
    }
    let mut i: usize = 0;
    while i < installed.len()
        invariant
            i <= installed.len(),
            keys.len() == out.len(),
            ranked(key_views(keys@), false),
            forall|k: int|
                0 <= k < out.len() ==> (#[trigger] keys[k])@ == lowercased(out[k].display_name@),
            app_views(out@).to_multiset() == installed_part(
                installed@,
                installers@,
                dev@,
                i as int,
            ).to_multiset(),
        decreases installed.len() - i,
    {
        let entry = &installed[i];
        let mut app = entry.app.clone();
        let d = find_dev_build(dev, entry.app_id.as_str());
        if d < dev.len() {
            let other = &dev[d].hash;
            if entry.hash.as_str().unicode_len() > 0 && other.as_str().unicode_len() > 0
                && !text_eq(other.as_str(), entry.hash.as_str()) {
                app.update_available = true;
                let at = find_installer(installers, entry.app_id.as_str());
                if at < installers.len() {
                    app.installer_path = Some(installers[at].path.clone());
                }
            }
        }
        proof {
            assert(app@ == upgraded(installed@[i as int], installers@, dev@));
            vstd::seq_lib::to_multiset_build(
                installed_part(installed@, installers@, dev@, i as int),
                app@,
            );
        }
        show(&mut keys, &mut out, app);
        i = i + 1;
    }
    let ghost first = installed_part(installed@, installers@, dev@, installed.len() as int);
    let mut j: usize = 0;
    proof {
        assert(first + Seq::<AppInfoView>::empty() =~= first);
    }
    while j < installers.len()
        invariant
            j <= installers.len(),
            keys.len() == out.len(),
            ranked(key_views(keys@), false),
            forall|k: int|
                0 <= k < out.len() ==> (#[trigger] keys[k])@ == lowercased(out[k].display_name@),
            first == installed_part(installed@, installers@, dev@, installed.len() as int),
            app_views(out@).to_multiset() == (first + installer_part(
                installed@,
                installers@,
                dev@,
                j as int,
            )).to_multiset(),
        decreases installers.len() - j,
    {
        let entry = &installers[j];
        let id = entry.app_id.as_str();
        if find_installed(installed, id) >= installed.len() && find_installer(installers, id)
            >= j {
            let d = find_dev_build(dev, id);
            let app = if d < dev.len() {
                describe(
                    dev[d].file_name.as_str(),
                    dev[d].path.as_str(),
                    dev[d].size,
                    AppStatus::InstallerAvailable,
                    Some(entry.path.clone()),
                )
            } else {
                proof {
                    reveal_strlit("");
                    assert(""@ =~= Seq::<char>::empty());
                }
                describe(id, "", 0, AppStatus::InstallerAvailable, Some(entry.path.clone()))
            };
            proof {
                let part = installer_part(installed@, installers@, dev@, j as int);
                assert(app@ == offered(installers@[j as int], dev@));
                assert(first + part.push(app@) =~= (first + part).push(app@));
                vstd::seq_lib::to_multiset_build(first + part, app@);
            }
            show(&mut keys, &mut out, app);
        }
        j = j + 1;
    }
    let ghost second = first + installer_part(
        installed@,
        installers@,
        dev@,
        installers.len() as int,
    );
    let mut k: usize = 0;
    proof {
        assert(second + Seq::<AppInfoView>::empty() =~= second);
    }
    while k < dev.len()
        invariant
            k <= dev.len(),
            keys.len() == out.len(),
            ranked(key_views(keys@), false),
            forall|m: int|
                0 <= m < out.len() ==> (#[trigger] keys[m])@ == lowercased(out[m].display_name@),
            second == first + installer_part(
                installed@,
                installers@,
                dev@,
                installers.len() as int,
            ),
            first == installed_part(installed@, installers@, dev@, installed.len() as int),
            app_views(out@).to_multiset() == (second + dev_build_part(
                installed@,
                installers@,
                dev@,
                k as int,
            )).to_multiset(),
        decreases dev.len() - k,
    {
        let entry = &dev[k];
        let id = entry.app_id.as_str();
        if find_installed(installed, id) >= installed.len() && find_installer(installers, id)
            >= installers.len() {
            let app = describe(
                entry.file_name.as_str(),
                entry.path.as_str(),
                entry.size,
                AppStatus::DevBuild,
                None,
            );
            proof {
                let part = dev_build_part(installed@, installers@, dev@, k as int);
                assert(second + part.push(app@) =~= (second + part).push(app@));
                vstd::seq_lib::to_multiset_build(second + part, app@);
            }
            show(&mut keys, &mut out, app);
        }
        k = k + 1;
    }
    proof {
        assert forall|a: int, b: int| 0 <= a < b < out.len() implies text_le(
            lowercased(out[a].display_name@),
            lowercased(out[b].display_name@),
        ) by {
            assert(in_order(key_views(keys@)[a], key_views(keys@)[b], false));
        }
    }
    out
}

/// The kind of a message shown to the user.
#[derive(Debug, Clone, Copy, PartialEq, Eq, Structural)]
pub enum DialogKind {
    Info,
    Warning,
    Error,
}

/// The kind that a word names: `error` and `warning` their own, anything
/// else, or no word, plain information.
pub fn dialog_kind(kind: &Option<String>) -> (r: DialogKind)
    ensures
        r == (match opt_text(*kind) {
            Some(word) => if word == "error"@ {
                DialogKind::Error
            } else if word == "warning"@ {
                DialogKind::Warning
            } else {
                DialogKind::Info
            },
            None => DialogKind::Info,
        }),
{
    match kind {
        Some(word) => {
            if text_eq(word.as_str(), "error") {
                DialogKind::Error
            } else if text_eq(word.as_str(), "warning") {
                DialogKind::Warning
            } else {
                DialogKind::Info
            }
        },
        None => DialogKind::Info,
    }
}

/// Asks the user for a text. The launcher itself has no window to ask in:
/// the answer is always that the front end has to ask.
pub fn show_input_dialog(
    _title: &str,
    _message: &str,
    _placeholder: &Option<String>,
    _is_password: Option<bool>,
) -> (r: Result<Option<String>, String>)
    ensures
        r matches Err(m) && m@ == "INPUT_REQUIRED"@,
{
    Err(String::from_str("INPUT_REQUIRED"))
}

/// The identifier of a machine: its host name and its own random
/// identifier, joined by an underscore.
pub fn machine_id(hostname: &str, uuid: &str) -> (r: String)
    ensures
        r@ == hostname@ + "_"@ + uuid@,
{
    hostname.to_owned().concat("_").concat(uuid)
}

/// Where the MSI package lies that belongs to an installer, by the
/// installer's path.
pub open spec fn msi_path_of(installer: Seq<char>) -> Seq<char> {
    replaced(
        replaced(installer, "_x64-setup.exe"@, "_x64_en-US.msi"@),
        "-setup.exe"@,
        "_en-US.msi"@,
    )
}

/// Builds `msi_path_of`.
pub fn msi_path(installer: &str) -> (r: String)
    ensures
        r@ == msi_path_of(installer@),
{
    let first = replace(installer, "_x64-setup.exe", "_x64_en-US.msi");
    replace(first.as_str(), "-setup.exe", "_en-US.msi")
}

/// The width and the height of an icon, in pixels.
pub const ICON_SIZE: u32 = 48;

/// Why no PNG could be made.
#[derive(Debug)]
pub enum PngFailure {
    /// There are fewer bytes than the picture has.
    Shape,
    /// The encoder gave up; its complaint.
    Encoding(String),
}

pub enum PngFailureView {
    Shape,
    Encoding(Seq<char>),
}

impl View for PngFailure {
    type V = PngFailureView;

    open spec fn view(&self) -> PngFailureView {
        match self {
            PngFailure::Shape => PngFailureView::Shape,
            PngFailure::Encoding(m) => PngFailureView::Encoding(m@),
        }
    }
}

/// The PNG file that `image` writes for a picture given as rows of red,
/// green, blue and alpha bytes, or why it writes none.
pub uninterp spec fn png_of(width: u32, height: u32, rgba: Seq<u8>) -> Result<
    Seq<u8>,
    PngFailureView,
>;

/// Makes an `image::RgbaImage` of the bytes with `from_raw` and writes it
/// as PNG with `write_to` into a buffer in memory.
#[verifier::external_body]
fn encode_png(width: u32, height: u32, rgba: Vec<u8>) -> (r: Result<Vec<u8>, PngFailure>)
    ensures
        match r {
            Ok(png) => png_of(width, height, rgba@) == Ok::<Seq<u8>, PngFailureView>(png@),
            Err(e) => png_of(width, height, rgba@) == Err::<Seq<u8>, PngFailureView>(e@),
        },
{
    let picture = match image::RgbaImage::from_raw(width, height, rgba) {
        Some(p) => p,
        None => return Err(PngFailure::Shape),
    };
    let mut out = std::io::Cursor::new(Vec::new());
    match picture.write_to(&mut out, image::ImageFormat::Png) {
        Ok(_) => Ok(out.into_inner()),
        Err(e) => Err(PngFailure::Encoding(e.to_string())),
    }
}

/// Pixels with blue and red exchanged: every full group of four bytes has
/// its first and third byte swapped; what is left over at the end stays.
pub open spec fn red_blue_swapped(pixels: Seq<u8>) -> Seq<u8> {
    let full = pixels.len() - pixels.len() % 4;
    Seq::new(
        pixels.len(),
        |i: int|
            if i < full && i % 4 == 0 {
                pixels[i + 2]
            } else if i < full && i % 4 == 2 {
                pixels[i - 2]
            } else {
                pixels[i]
            },
    )
}

/// Builds `red_blue_swapped` in place.
pub fn swap_red_and_blue(pixels: &mut Vec<u8>)
    ensures
        final(pixels)@ == red_blue_swapped(old(pixels)@),
{
    let n = pixels.len();
    let full = n - n % 4;
    let mut i: usize = 0;
    while i < full
        invariant
            i <= full,
            i % 4 == 0,
            full == n - n % 4,
            n == old(pixels).len(),
            pixels.len() == n,
            forall|k: int| 0 <= k < i ==> (#[trigger] pixels[k]) == red_blue_swapped(old(pixels)@)[k],
            forall|k: int| i <= k < n ==> (#[trigger] pixels[k]) == old(pixels)[k],
        decreases full - i,
    {
        let blue = pixels[i];
        let red = pixels[i + 2];
        pixels.set(i, red);
        pixels.set(i + 2, blue);
        i = i + 4;
    }
    proof {
        assert(pixels@ =~= red_blue_swapped(old(pixels)@));
    }
}

/// What is shown for an icon whose pixels were read as blue, green, red and
/// alpha: the picture as a PNG inside a data address, or why there is none.
pub open spec fn icon_address(pixels: Seq<u8>) -> Result<Seq<char>, Seq<char>> {
    match png_of(48, 48, red_blue_swapped(pixels)) {
        Ok(png) => Ok("data:image/png;base64,"@ + crate::crypto::base64_text(png)),
        Err(PngFailureView::Shape) => Err("Failed to create image"@),
        Err(PngFailureView::Encoding(m)) => Err("Failed to encode PNG: "@ + m),
    }
}

/// Builds `icon_address`.
pub fn icon_data_url(pixels: Vec<u8>) -> (r: Result<String, String>)
    ensures
        match r {
            Ok(address) => icon_address(pixels@) == Ok::<Seq<char>, Seq<char>>(address@),
            Err(m) => icon_address(pixels@) == Err::<Seq<char>, Seq<char>>(m@),
        },
{
    let mut rgba = pixels;
    swap_red_and_blue(&mut rgba);
    match encode_png(ICON_SIZE, ICON_SIZE, rgba) {
        Ok(png) => Ok(
            String::from_str("data:image/png;base64,").concat(
                crate::crypto::base64_encode(png.as_slice()).as_str(),
            ),
        ),
        Err(PngFailure::Shape) => Err(String::from_str("Failed to create image")),
        Err(PngFailure::Encoding(m)) => Err(
            String::from_str("Failed to encode PNG: ").concat(m.as_str()),
        ),
    }
}

} // verus!
