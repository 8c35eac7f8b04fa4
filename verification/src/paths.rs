//! Where the data lives and where the bundled server is found.
//!
//! Nothing here touches the file system. The caller asks for the candidate
//! paths, looks at the disk, and hands back what it saw.

use crate::error::{LaunchError, LaunchErrorView};
use vstd::prelude::*;
use vstd::string::*;

verus! {

/// Directory name of the historical data location.
pub const LEGACY_DIR_NAME: &'static str = "panini";

/// Database file whose presence marks a data directory as used.
pub const DATABASE_FILE_NAME: &'static str = "panini.db";

/// Database directory whose presence marks a data directory as used.
pub const DATABASE_DIR_NAME: &'static str = "db";

/// Directory under the resource root that holds the server.
pub const SERVER_DIR_NAME: &'static str = "server";

/// File under the server directory that the runtime is started on.
pub const ENTRY_FILE_NAME: &'static str = "index.js";

/// Environment variable that holds the user's home directory.
pub const ENV_HOME: &'static str = "HOME";

/// Environment variable that holds the roaming application-data directory.
pub const ENV_APP_DATA: &'static str = "APPDATA";

/// Environment variable that holds the configuration directory.
pub const ENV_CONFIG_HOME: &'static str = "XDG_CONFIG_HOME";

/// The operating-system families whose conventions differ.
#[derive(Clone, Copy, PartialEq, Eq, Structural, Debug)]
pub enum OsFamily {
    Windows,
    MacOs,
    Linux,
}

/// The character the family puts between path components.
pub open spec fn separator(family: OsFamily) -> char {
    if family == OsFamily::Windows {
        '\\'
    } else {
        '/'
    }
}

/// `c` separates components on this family. Windows accepts both slashes.
pub open spec fn is_separator(c: char, family: OsFamily) -> bool {
    c == '/' || (family == OsFamily::Windows && c == '\\')
}

/// `base` extended by the component `leaf`. A separator is put between
/// them unless `base` is empty or already ends in one.
pub open spec fn joined(base: Seq<char>, leaf: Seq<char>, family: OsFamily) -> Seq<char> {
    if base.len() == 0 || is_separator(base.last(), family) {
        base + leaf
    } else {
        base.push(separator(family)) + leaf
    }
}

/// `path` names a place regardless of the working directory: on Windows it
/// begins with a drive letter, a colon and a separator, or with two
/// backslashes; elsewhere it begins with a slash.
pub open spec fn is_absolute(path: Seq<char>, family: OsFamily) -> bool {
    if family == OsFamily::Windows {
        ||| {
            &&& path.len() >= 3
            &&& (('a' <= path[0] && path[0] <= 'z') || ('A' <= path[0] && path[0] <= 'Z'))
            &&& path[1] == ':'
            &&& is_separator(path[2], family)
        }
        ||| path.len() >= 2 && path[0] == '\\' && path[1] == '\\'
    } else {
        path.len() >= 1 && path[0] == '/'
    }
}

/// Extending an absolute path leaves it absolute.
pub proof fn lemma_join_keeps_absolute(base: Seq<char>, leaf: Seq<char>, family: OsFamily)
    requires
        is_absolute(base, family),
    ensures
        is_absolute(joined(base, leaf, family), family),
{
    let path = joined(base, leaf, family);
    assert(path.len() >= base.len());
    assert(path[0] == base[0]);
    if base.len() >= 2 {
        assert(path[1] == base[1]);
    }
    if base.len() >= 3 {
        assert(path[2] == base[2]);
    }
}

/// The prefix Windows puts before an extended-length path.
pub open spec fn verbatim_prefix() -> Seq<char> {
    seq!['\\', '\\', '?', '\\']
}

/// The prefix Windows puts before an extended-length network path.
pub open spec fn verbatim_unc_prefix() -> Seq<char> {
    seq!['\\', '\\', '?', '\\', 'U', 'N', 'C', '\\']
}

/// `s` begins with `prefix`.
pub open spec fn starts_with(s: Seq<char>, prefix: Seq<char>) -> bool {
    prefix.len() <= s.len() && s.subrange(0, prefix.len() as int) == prefix
}

/// `path` as a child process can use it: on Windows the extended-length
/// prefix is removed, a network path keeping its two leading backslashes.
/// Elsewhere the path is returned as it is.
pub open spec fn normalized(path: Seq<char>, family: OsFamily) -> Seq<char> {
    if family != OsFamily::Windows {
        path
    } else if starts_with(path, verbatim_unc_prefix()) {
        seq!['\\', '\\'] + path.skip(8)
    } else if starts_with(path, verbatim_prefix()) {
        path.skip(4)
    } else {
        path
    }
}

fn separator_text(family: OsFamily) -> (s: &'static str)
    ensures
        s@ == seq![separator(family)],
{
    proof {
        reveal_strlit("\\");
        reveal_strlit("/");
    }
    match family {
        OsFamily::Windows => "\\",
        _ => "/",
    }
}

/// Extends `base` by the component `leaf`.
pub fn join_path(base: &str, leaf: &str, family: OsFamily) -> (path: String)
    ensures
        path@ == joined(base@, leaf@, family),
{
    let mut path = String::from_str(base);
    let len = base.unicode_len();
    if len > 0 {
        let last = base.get_char(len - 1);
        let windows = match family {
            OsFamily::Windows => true,
            _ => false,
        };
        if !(last == '/' || (windows && last == '\\')) {
            path.append(separator_text(family));
        }
    }
    path.append(leaf);
    path
}

/// Whether `path` begins with the four characters of the extended-length
/// prefix.
fn has_verbatim_prefix(path: &str, len: usize) -> (b: bool)
    requires
        len == path@.len(),
    ensures
        b == starts_with(path@, verbatim_prefix()),
{
    if len < 4 {
        return false;
    }
    let b = path.get_char(0) == '\\' && path.get_char(1) == '\\' && path.get_char(2) == '?'
        && path.get_char(3) == '\\';
    proof {
        let p = path@.subrange(0, 4);
        if b {
            assert(p =~= verbatim_prefix());
        } else {
            assert(p[0] == path@[0] && p[1] == path@[1] && p[2] == path@[2] && p[3] == path@[3]);
        }
    }
    b
}

/// Whether the characters after the extended-length prefix spell `UNC\`.
fn has_unc_marker(path: &str, len: usize) -> (b: bool)
    requires
        len == path@.len(),
        starts_with(path@, verbatim_prefix()),
    ensures
        b == starts_with(path@, verbatim_unc_prefix()),
{
    if len < 8 {
        return false;
    }
    let b = path.get_char(4) == 'U' && path.get_char(5) == 'N' && path.get_char(6) == 'C'
        && path.get_char(7) == '\\';
    proof {
        let p = path@.subrange(0, 8);
        let q = path@.subrange(0, 4);
        assert(q[0] == path@[0] && q[1] == path@[1] && q[2] == path@[2] && q[3] == path@[3]);
        if b {
            assert(p =~= verbatim_unc_prefix());
        } else {
            assert(p[4] == path@[4] && p[5] == path@[5] && p[6] == path@[6] && p[7] == path@[7]);
        }
    }
    b
}

/// Removes the extended-length prefix from a Windows path.
pub fn normalize_path(path: &str, family: OsFamily) -> (clean: String)
    ensures
        clean@ == normalized(path@, family),
{
    match family {
        OsFamily::Windows => {},
        _ => {
            return String::from_str(path);
        },
    }
    let len = path.unicode_len();
    if !has_verbatim_prefix(path, len) {
        proof {
            if starts_with(path@, verbatim_unc_prefix()) {
                assert(path@.subrange(0, 4) =~= path@.subrange(0, 8).subrange(0, 4));
                assert(path@.subrange(0, 4) =~= verbatim_prefix());
            }
        }
        return String::from_str(path);
    }
    if has_unc_marker(path, len) {
        proof {
            reveal_strlit("\\\\");
        }
        let mut clean = String::from_str("\\\\");
        clean.append(path.substring_char(8, len));
        assert(clean@ == seq!['\\', '\\'] + path@.skip(8));
        clean
    } else {
        String::from_str(path.substring_char(4, len))
    }
}

/// The per-user locations the operating system announces, as the caller
/// read them from the environment. An unset variable is `None`.
pub struct DataRoots {
    /// The user's home directory.
    pub home: Option<String>,
    /// The roaming application-data directory (Windows).
    pub app_data: Option<String>,
    /// The configuration directory, where the desktop names one (Linux).
    pub config_home: Option<String>,
}

/// A root that is set and not empty.
pub open spec fn usable_root(root: Option<String>) -> Option<Seq<char>> {
    match root {
        Some(r) => if r@.len() > 0 {
            Some(r@)
        } else {
            None
        },
        None => None,
    }
}

/// The historical data location of the family, given the roots that are
/// set:
/// on Windows, `panini` under the application-data directory;
/// on macOS, `Library/Application Support/panini` under the home directory;
/// on Linux, `panini` under the configuration directory, which is `.config`
/// under the home directory unless the desktop names another.
pub open spec fn legacy_location(family: OsFamily, roots: DataRoots) -> Option<Seq<char>> {
    match family {
        OsFamily::Windows => match usable_root(roots.app_data) {
            Some(base) => Some(joined(base, LEGACY_DIR_NAME@, family)),
            None => None,
        },
        OsFamily::MacOs => match usable_root(roots.home) {
            Some(home) => Some(
                joined(
                    joined(joined(home, "Library"@, family), "Application Support"@, family),
                    LEGACY_DIR_NAME@,
                    family,
                ),
            ),
            None => None,
        },
        OsFamily::Linux => match usable_root(roots.config_home) {
            Some(base) => Some(joined(base, LEGACY_DIR_NAME@, family)),
            None => match usable_root(roots.home) {
                Some(home) => Some(
                    joined(joined(home, ".config"@, family), LEGACY_DIR_NAME@, family),
                ),
                None => None,
            },
        },
    }
}

fn usable<'a>(root: &'a Option<String>) -> (r: Option<&'a str>)
    ensures
        match r {
            Some(text) => usable_root(*root) == Some(text@),
            None => usable_root(*root) is None,
        },
{
    match root {
        Some(text) => {
            if text.as_str().unicode_len() > 0 {
                Some(text.as_str())
            } else {
                None
            }
        },
        None => None,
    }
}

/// The historical data location on this machine, if the roots it hangs
/// from are set.
pub fn legacy_data_dir(family: OsFamily, roots: &DataRoots) -> (dir: Option<String>)
    ensures
        match dir {
            Some(path) => legacy_location(family, *roots) == Some(path@),
            None => legacy_location(family, *roots) is None,
        },
{
    match family {
        OsFamily::Windows => match usable(&roots.app_data) {
            Some(base) => Some(join_path(base, LEGACY_DIR_NAME, family)),
            None => None,
        },
        OsFamily::MacOs => match usable(&roots.home) {
            Some(home) => {
                let library = join_path(home, "Library", family);
                let support = join_path(library.as_str(), "Application Support", family);
                Some(join_path(support.as_str(), LEGACY_DIR_NAME, family))
            },
            None => None,
        },
        OsFamily::Linux => match usable(&roots.config_home) {
            Some(base) => Some(join_path(base, LEGACY_DIR_NAME, family)),
            None => match usable(&roots.home) {
                Some(home) => {
                    let config = join_path(home, ".config", family);
                    Some(join_path(config.as_str(), LEGACY_DIR_NAME, family))
                },
                None => None,
            },
        },
    }
}

/// The two places in `dir` where a database would be: the file, then the
/// directory. Finding either shows that `dir` has been used.
pub fn database_markers(dir: &str, family: OsFamily) -> (markers: (String, String))
    ensures
        markers.0@ == joined(dir@, DATABASE_FILE_NAME@, family),
        markers.1@ == joined(dir@, DATABASE_DIR_NAME@, family),
{
    (join_path(dir, DATABASE_FILE_NAME, family), join_path(dir, DATABASE_DIR_NAME, family))
}

/// What the caller found at a candidate data directory.
pub struct DirProbe {
    pub path: String,
    /// The directory exists.
    pub exists: bool,
    /// It holds the database file.
    pub has_database_file: bool,
    /// It holds the database directory.
    pub has_database_dir: bool,
}

impl DirProbe {
    /// The directory exists and shows evidence of prior use.
    pub open spec fn holds_data(&self) -> bool {
        self.exists && (self.has_database_file || self.has_database_dir)
    }
}

/// Which candidate a data directory is.
#[derive(Clone, Copy, PartialEq, Eq, Structural, Debug)]
pub enum DataOrigin {
    /// The historical location.
    Legacy,
    /// The location the platform manages for the application.
    Current,
}

/// The directory the child keeps its data in.
pub struct DataDirectory {
    pub path: String,
    pub origin: DataOrigin,
    /// The directory is missing: the caller creates it, with its parents,
    /// before the child is started.
    pub must_create: bool,
}

/// Mathematical view of a [`DataDirectory`].
pub struct DataDirectoryView {
    pub path: Seq<char>,
    pub origin: DataOrigin,
    pub must_create: bool,
}

impl View for DataDirectory {
    type V = DataDirectoryView;

    open spec fn view(&self) -> DataDirectoryView {
        DataDirectoryView { path: self.path@, origin: self.origin, must_create: self.must_create }
    }
}

/// The legacy candidate is present and holds data.
pub open spec fn legacy_wins(legacy: Option<DirProbe>) -> bool {
    match legacy {
        Some(probe) => probe.holds_data(),
        None => false,
    }
}

/// The data directory that the two candidates lead to, if any.
///
/// The legacy directory is chosen exactly when it exists and holds a
/// database. Otherwise the current directory is chosen, to be created if it
/// does not exist. Where the platform named no current directory, there is
/// nothing to fall back on.
pub open spec fn chosen_directory(
    legacy: Option<DirProbe>,
    current: Result<DirProbe, String>,
    family: OsFamily,
) -> Option<DataDirectoryView> {
    if legacy_wins(legacy) {
        Some(
            DataDirectoryView {
                path: normalized(legacy.unwrap().path@, family),
                origin: DataOrigin::Legacy,
                must_create: false,
            },
        )
    } else {
        match current {
            Ok(probe) => Some(
                DataDirectoryView {
                    path: normalized(probe.path@, family),
                    origin: DataOrigin::Current,
                    must_create: !probe.exists,
                },
            ),
            Err(_) => None,
        }
    }
}

/// Chooses the data directory, as [`chosen_directory`] says. Nothing is
/// created or moved: the child is pointed at whichever directory already has
/// data. Where there is no directory to choose, the platform's reason is
/// reported.
pub fn resolve_data_directory(
    legacy: &Option<DirProbe>,
    current: &Result<DirProbe, String>,
    family: OsFamily,
) -> (res: Result<DataDirectory, LaunchError>)
    ensures
        match res {
            Ok(dir) => chosen_directory(*legacy, *current, family) == Some(dir@),
            Err(e) => {
                &&& chosen_directory(*legacy, *current, family) is None
                &&& current matches Err(reason)
                &&& e@ == LaunchErrorView::DataDir(reason@)
            },
        },
{
    match legacy {
        Some(old_dir) => {
            if old_dir.exists && (old_dir.has_database_file || old_dir.has_database_dir) {
                return Ok(
                    DataDirectory {
                        path: normalize_path(old_dir.path.as_str(), family),
                        origin: DataOrigin::Legacy,
                        must_create: false,
                    },
                );
            }
        },
        None => {},
    }
    match current {
        Ok(new_dir) => Ok(
            DataDirectory {
                path: normalize_path(new_dir.path.as_str(), family),
                origin: DataOrigin::Current,
                must_create: !new_dir.exists,
            },
        ),
        Err(reason) => Err(LaunchError::DataDir(reason.clone())),
    }
}

/// The legacy directory takes precedence exactly when it has been used:
/// one that exists and holds a database is chosen whatever the current
/// directory looks like, and is not to be created; one that is missing or
/// holds no database yields to the current directory, which is to be created
/// if it does not exist.
pub proof fn lemma_legacy_precedence(legacy: DirProbe, current: DirProbe, family: OsFamily)
    ensures
        legacy.holds_data() ==> chosen_directory(Some(legacy), Ok(current), family) == Some(
            DataDirectoryView {
                path: normalized(legacy.path@, family),
                origin: DataOrigin::Legacy,
                must_create: false,
            },
        ),
        !legacy.holds_data() ==> chosen_directory(Some(legacy), Ok(current), family) == Some(
            DataDirectoryView {
                path: normalized(current.path@, family),
                origin: DataOrigin::Current,
                must_create: !current.exists,
            },
        ),
{
}

/// Where the bundled server is found.
pub struct ServerResources {
    /// The file the runtime is started on.
    pub entry_point: String,
    /// The directory the application's resources were installed to.
    pub resource_root: String,
}

/// The entry point under a resource root.
pub open spec fn entry_point_under(root: Seq<char>, family: OsFamily) -> Seq<char> {
    joined(joined(root, SERVER_DIR_NAME@, family), ENTRY_FILE_NAME@, family)
}

/// Locates the server under the resource root the platform reports. Both
/// paths come out normalized.
pub fn resolve_server_resources(resource_root: &str, family: OsFamily) -> (found: ServerResources)
    ensures
        found.resource_root@ == normalized(resource_root@, family),
        found.entry_point@ == entry_point_under(normalized(resource_root@, family), family),
{
    let root = normalize_path(resource_root, family);
    let server = join_path(root.as_str(), SERVER_DIR_NAME, family);
    let entry_point = join_path(server.as_str(), ENTRY_FILE_NAME, family);
    ServerResources { entry_point, resource_root: root }
}

} // verus!
