//! One server instance: its paths, its installation status, its version.

use crate::error::DstError;
use crate::files::join;
use crate::files::join_path;
use crate::files::FileRead;
use crate::text::parse_u32;
use crate::text::parse_u32_in;
use crate::text::to_chars;
use crate::text::trim;
use crate::text::trim_bounds;
use vstd::prelude::*;

verus! {

/// The four paths of a server instance.
pub struct ServerPaths {
    /// The directory of the installation.
    pub root: Seq<char>,
    /// The 32-bit server binary.
    pub binary32: Seq<char>,
    /// The 64-bit server binary.
    pub binary64: Seq<char>,
    /// The file that holds the version number.
    pub version_marker: Seq<char>,
}

/// The paths of the installation in the directory `root`.
pub open spec fn resolve_paths(root: Seq<char>) -> ServerPaths {
    ServerPaths {
        root,
        binary32: join(join(root, "bin"@), "dontstarve_dedicated_server_nullrenderer.exe"@),
        binary64: join(join(root, "bin_64"@), "dontstarve_dedicated_server_nullrenderer_x64.exe"@),
        version_marker: join(root, "version.txt"@),
    }
}

/// Which of the three required files of an installation are there.
#[derive(Debug, Clone, Copy, PartialEq, Eq, Structural)]
pub struct Presence {
    /// The 32-bit server binary is there.
    pub bin_32: bool,
    /// The 64-bit server binary is there.
    pub bin_64: bool,
    /// The version marker is there.
    pub version_txt: bool,
}

/// The state of an installation.
#[derive(Debug, Clone, PartialEq, Eq)]
pub enum InstallationStatus {
    /// Nothing has been checked yet.
    Unknown,
    /// None of the three required files is there.
    NotInstalled,
    /// All three required files are there.
    Installed,
    /// One or two of the required files are missing: their paths, binaries
    /// first, the version marker last.
    Broken(Vec<String>),
}

/// An `InstallationStatus` with its paths as sequences of characters.
pub enum StatusView {
    Unknown,
    NotInstalled,
    Installed,
    Broken(Seq<Seq<char>>),
}

impl View for InstallationStatus {
    type V = StatusView;

    open spec fn view(&self) -> StatusView {
        match self {
            InstallationStatus::Unknown => StatusView::Unknown,
            InstallationStatus::NotInstalled => StatusView::NotInstalled,
            InstallationStatus::Installed => StatusView::Installed,
            InstallationStatus::Broken(missing) => StatusView::Broken(missing.deep_view()),
        }
    }
}

impl Default for InstallationStatus {
    /// The state before any check.
    fn default() -> (status: InstallationStatus)
        ensures
            status@ == StatusView::Unknown,
    {
        InstallationStatus::Unknown
    }
}

/// The path `p` if it is missing, and nothing if it is there.
pub open spec fn if_missing(there: bool, p: Seq<char>) -> Seq<Seq<char>> {
    if there {
        Seq::empty()
    } else {
        seq![p]
    }
}

/// The required files that are missing, binaries first, the version marker
/// last.
pub open spec fn missing_paths(paths: ServerPaths, found: Presence) -> Seq<Seq<char>> {
    if_missing(found.bin_32, paths.binary32) + if_missing(found.bin_64, paths.binary64)
        + if_missing(found.version_txt, paths.version_marker)
}

/// The status of an installation of which `found` says what is there:
/// installed with nothing missing, not installed with everything missing,
/// broken in between.
pub open spec fn integrity(paths: ServerPaths, found: Presence) -> StatusView {
    let missing = missing_paths(paths, found);
    if missing.len() == 0 {
        StatusView::Installed
    } else if missing.len() == 3 {
        StatusView::NotInstalled
    } else {
        StatusView::Broken(missing)
    }
}

/// What kind of build a version is.
#[derive(Debug, Clone, Copy, PartialEq, Eq, Structural)]
pub enum VersionKind {
    /// A release build.
    Release,
    /// A test build.
    Test,
    /// Not known. The version marker holds a number and nothing else, so
    /// this is all that reading it can say.
    Unknown,
}

/// How a version stands to the newest one.
#[derive(Debug, Clone, Copy, PartialEq, Eq, Structural)]
pub enum VersionStatus {
    /// A newer version exists.
    Outdated,
    /// No newer version exists.
    Newest,
    /// The version has no number to compare.
    Unknown,
}

/// The version of an installation.
#[derive(Debug, Clone, Copy, PartialEq, Eq, Structural)]
pub struct VersionInfo {
    /// The kind of build.
    pub kind: VersionKind,
    /// The version number, where one is known.
    pub number: Option<u32>,
}

impl Default for VersionInfo {
    /// The version of which nothing is known.
    fn default() -> (info: VersionInfo)
        ensures
            info == (VersionInfo { kind: VersionKind::Unknown, number: None }),
    {
        VersionInfo { kind: VersionKind::Unknown, number: None }
    }
}

impl VersionInfo {
    /// How a version with the number `number` stands to the newest version,
    /// whose number is `newest`.
    pub open spec fn status_of(number: Option<u32>, newest: u32) -> VersionStatus {
        match number {
            None => VersionStatus::Unknown,
            Some(n) => if n < newest {
                VersionStatus::Outdated
            } else {
                VersionStatus::Newest
            },
        }
    }

    /// Compares this version with the newest one, whose number the caller
    /// supplies.
    pub fn status(&self, newest: u32) -> (status: VersionStatus)
        ensures
            status == Self::status_of(self.number, newest),
    {
        match self.number {
            None => VersionStatus::Unknown,
            Some(n) => if n < newest {
                VersionStatus::Outdated
            } else {
                VersionStatus::Newest
            },
        }
    }
}

/// The number that the text of a version marker denotes: the text, trimmed,
/// must be one unsigned number and nothing else.
pub open spec fn version_number(content: Seq<char>) -> Option<u32> {
    parse_u32(trim(content))
}

/// What reading the version marker gives: an error where the file could not
/// be read or does not hold exactly one number, else that number.
pub open spec fn version_of(marker: FileRead) -> Result<VersionInfo, DstError> {
    match marker.text() {
        None => Err(DstError::Io),
        Some(content) => match version_number(content) {
            None => Err(DstError::Parse),
            Some(n) => Ok(VersionInfo { kind: VersionKind::Unknown, number: Some(n) }),
        },
    }
}

/// Reads the text of a version marker.
pub fn parse_version(content: &str) -> (r: Result<u32, DstError>)
    ensures
        r == match version_number(content@) {
            Some(n) => Ok::<u32, DstError>(n),
            None => Err(DstError::Parse),
        },
{
    let chars = to_chars(content);
    assert(chars@.subrange(0, chars@.len() as int) == chars@);
    let (a, b) = trim_bounds(chars.as_slice(), 0, chars.len());
    match parse_u32_in(chars.as_slice(), a, b) {
        Some(n) => Ok(n),
        None => Err(DstError::Parse),
    }
}

/// A server instance: the directory of an installation and the paths of
/// the three files that it requires.
#[derive(Debug, PartialEq, Eq)]
pub struct DstServer {
    dir_path: String,
    bin_32: String,
    bin_64: String,
    version_txt: String,
}

impl View for DstServer {
    type V = ServerPaths;

    closed spec fn view(&self) -> ServerPaths {
        resolve_paths(self.dir_path@)
    }
}

impl Clone for DstServer {
    fn clone(&self) -> (server: DstServer)
        ensures
            server@ == self@,
    {
        proof {
            use_type_invariant(self);
        }
        DstServer {
            dir_path: self.dir_path.clone(),
            bin_32: self.bin_32.clone(),
            bin_64: self.bin_64.clone(),
            version_txt: self.version_txt.clone(),
        }
    }
}

impl DstServer {
    /// The three file paths held are those that the directory determines.
    #[verifier::type_invariant]
    spec fn paths_resolved(self) -> bool {
        &&& self.bin_32@ == resolve_paths(self.dir_path@).binary32
        &&& self.bin_64@ == resolve_paths(self.dir_path@).binary64
        &&& self.version_txt@ == resolve_paths(self.dir_path@).version_marker
    }

    /// The server instance installed in `dir_path`. The directory need not
    /// exist.
    pub fn new(dir_path: String) -> (server: DstServer)
        ensures
            server@ == resolve_paths(dir_path@),
    {
        let bin_dir = join_path(dir_path.as_str(), "bin");
        let bin_32 = join_path(bin_dir.as_str(), "dontstarve_dedicated_server_nullrenderer.exe");
        let bin_64_dir = join_path(dir_path.as_str(), "bin_64");
        let bin_64 = join_path(
            bin_64_dir.as_str(),
            "dontstarve_dedicated_server_nullrenderer_x64.exe",
        );
        let version_txt = join_path(dir_path.as_str(), "version.txt");
        DstServer { dir_path, bin_32, bin_64, version_txt }
    }

    /// The directory of the installation.
    pub fn dir_path(&self) -> (path: &str)
        ensures
            path@ == self@.root,
    {
        self.dir_path.as_str()
    }

    /// The path of the 32-bit server binary.
    pub fn bin_32(&self) -> (path: &str)
        ensures
            path@ == self@.binary32,
    {
        proof {
            use_type_invariant(self);
        }
        self.bin_32.as_str()
    }

    /// The path of the 64-bit server binary.
    pub fn bin_64(&self) -> (path: &str)
        ensures
            path@ == self@.binary64,
    {
        proof {
            use_type_invariant(self);
        }
        self.bin_64.as_str()
    }

    /// The path of the version marker.
    pub fn version_txt(&self) -> (path: &str)
        ensures
            path@ == self@.version_marker,
    {
        proof {
            use_type_invariant(self);
        }
        self.version_txt.as_str()
    }

    /// Classifies the installation from what the caller found at its three
    /// required paths.
    pub fn check_integrity(&self, found: Presence) -> (status: InstallationStatus)
        ensures
            status@ == integrity(self@, found),
            found.bin_32 && found.bin_64 && found.version_txt ==> status@ == StatusView::Installed,
            !found.bin_32 && !found.bin_64 && !found.version_txt ==> status@
                == StatusView::NotInstalled,
            (found.bin_32 || found.bin_64 || found.version_txt) && !(found.bin_32 && found.bin_64
                && found.version_txt) ==> status@ == StatusView::Broken(
                missing_paths(self@, found),
            ),
            status@ != StatusView::Unknown,
    {
        proof {
            use_type_invariant(self);
        }
        let mut missing: Vec<String> = Vec::new();
        if !found.bin_32 {
            missing.push(self.bin_32.clone());
        }
        if !found.bin_64 {
            missing.push(self.bin_64.clone());
        }
        if !found.version_txt {
            missing.push(self.version_txt.clone());
        }
        assert(missing.deep_view() == missing_paths(self@, found));
        if missing.len() == 0 {
            InstallationStatus::Installed
        } else if missing.len() == 3 {
            InstallationStatus::NotInstalled
        } else {
            InstallationStatus::Broken(missing)
        }
    }

    /// The version of the installation, from what reading its version
    /// marker gave.
    pub fn version(&self, marker: &FileRead) -> (r: Result<VersionInfo, DstError>)
        ensures
            r == version_of(*marker),
    {
        match marker {
            FileRead::Text(content) => match parse_version(content.as_str()) {
                Ok(n) => Ok(VersionInfo { kind: VersionKind::Unknown, number: Some(n) }),
                Err(e) => Err(e),
            },
            _ => Err(DstError::Io),
        }
    }
}

/// The paths of a server instance are determined by its directory alone.
pub proof fn lemma_paths_follow_root(a: DstServer, b: DstServer)
    requires
        a@.root == b@.root,
    ensures
        a@ == b@,
        a@ == resolve_paths(a@.root),
{
}

/// Two checks of one installation that find the same files there give
/// equal statuses, the lists of missing paths included.
pub proof fn lemma_check_repeats(
    a: DstServer,
    b: DstServer,
    found: Presence,
    first: InstallationStatus,
    second: InstallationStatus,
)
    requires
        a@.root == b@.root,
        first@ == integrity(a@, found),
        second@ == integrity(b@, found),
    ensures
        first@ == second@,
{
}

/// A check never leaves the status unknown, and it reports a broken
/// installation exactly when one or two of the three files are missing;
/// the paths it then names are the missing ones, in their fixed order.
pub proof fn lemma_integrity_cases(paths: ServerPaths, found: Presence)
    ensures
        integrity(paths, found) != StatusView::Unknown,
        integrity(paths, found) == StatusView::Installed <==> found.bin_32 && found.bin_64
            && found.version_txt,
        integrity(paths, found) == StatusView::NotInstalled <==> !found.bin_32 && !found.bin_64
            && !found.version_txt,
        integrity(paths, found) is Broken <==> 1 <= missing_paths(paths, found).len() <= 2,
        integrity(paths, found) is Broken ==> integrity(paths, found)->Broken_0 == missing_paths(
            paths,
            found,
        ),
{
}

} // verus!
