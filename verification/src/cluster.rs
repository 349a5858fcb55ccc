//! A cluster and its configuration.
//!
//! A cluster directory may hold three access lists, one name to a line, and
//! a mod override file. Each of the four may be missing; a missing file
//! gives an empty list.

use crate::dstserver::DstServer;
use crate::error::DstError;
use crate::files::join;
use crate::files::join_path;
use crate::files::FileRead;
use crate::files::PathState;
use crate::modoverrides::lemma_enabled_are_named;
use crate::modoverrides::mod_ids;
use crate::modoverrides::mod_ids_of;
use crate::text::clean_lines;
use crate::text::clean_lines_of;
use crate::text::is_clean;
use crate::text::lemma_clean_lines_are_trimmed;
use vstd::prelude::*;

verus! {

/// The files of a cluster directory that make up its configuration.
#[derive(Debug, Clone, Copy, PartialEq, Eq, Structural)]
pub enum ClusterFile {
    /// The list of administrators.
    Admin,
    /// The list of players who may always join.
    Whitelist,
    /// The list of players who may not join.
    Blocklist,
    /// The mod override file.
    ModOverrides,
}

impl ClusterFile {
    /// The name of the file within the cluster directory.
    pub open spec fn name(self) -> Seq<char> {
        match self {
            ClusterFile::Admin => "admin.txt"@,
            ClusterFile::Whitelist => "whitelist.txt"@,
            ClusterFile::Blocklist => "blocklist.txt"@,
            ClusterFile::ModOverrides => "modoverrides.lua"@,
        }
    }

    /// Whether the file is to be read, given what stands at its path. A
    /// list is read wherever anything stands there; the mod override file
    /// only where a regular file does.
    pub open spec fn wanted(self, found: PathState) -> bool {
        match self {
            ClusterFile::ModOverrides => found == PathState::File,
            _ => found != PathState::Absent,
        }
    }

    /// The name of the file within the cluster directory.
    pub fn file_name(&self) -> (name: &'static str)
        ensures
            name@ == self.name(),
    {
        match self {
            ClusterFile::Admin => "admin.txt",
            ClusterFile::Whitelist => "whitelist.txt",
            ClusterFile::Blocklist => "blocklist.txt",
            ClusterFile::ModOverrides => "modoverrides.lua",
        }
    }

    /// The path of the file in the cluster directory `cluster_dir`.
    pub fn path_in(&self, cluster_dir: &str) -> (path: String)
        ensures
            path@ == join(cluster_dir@, self.name()),
    {
        join_path(cluster_dir, self.file_name())
    }

    /// Tells whether the file is to be read, given what stands at its path.
    pub fn is_read(&self, found: PathState) -> (r: bool)
        ensures
            r == self.wanted(found),
    {
        match self {
            ClusterFile::ModOverrides => match found {
                PathState::File => true,
                _ => false,
            },
            _ => match found {
                PathState::Absent => false,
                _ => true,
            },
        }
    }
}

/// What a caller got from the four files of a cluster directory.
#[derive(Debug, Clone, PartialEq, Eq)]
pub struct ClusterFiles {
    /// From the list of administrators.
    pub admin: FileRead,
    /// From the list of players who may always join.
    pub whitelist: FileRead,
    /// From the list of players who may not join.
    pub blocklist: FileRead,
    /// From the mod override file.
    pub modoverrides: FileRead,
}

/// The four lists of a cluster configuration.
pub struct ClusterConfigView {
    pub admin_list: Seq<Seq<char>>,
    pub whitelist_list: Seq<Seq<char>>,
    pub blocklist_list: Seq<Seq<char>>,
    pub mod_list: Seq<Seq<char>>,
}

/// The names that a list file gives: its trimmed, non-empty lines, and none
/// where the file is missing.
pub open spec fn names_in(file: FileRead) -> Seq<Seq<char>> {
    match file.text() {
        Some(text) => clean_lines(text),
        None => Seq::empty(),
    }
}

/// The mods that a mod override file enables, and none where the file is
/// missing.
pub open spec fn mods_in(file: FileRead) -> Seq<Seq<char>> {
    match file.text() {
        Some(text) => mod_ids(text),
        None => Seq::empty(),
    }
}

/// One of the four files was there and could not be read.
pub open spec fn any_unreadable(files: ClusterFiles) -> bool {
    ||| files.admin is Unreadable
    ||| files.whitelist is Unreadable
    ||| files.blocklist is Unreadable
    ||| files.modoverrides is Unreadable
}

/// The configuration that the four files give.
pub open spec fn loaded(files: ClusterFiles) -> Result<ClusterConfigView, DstError> {
    if any_unreadable(files) {
        Err(DstError::Io)
    } else {
        Ok(
            ClusterConfigView {
                admin_list: names_in(files.admin),
                whitelist_list: names_in(files.whitelist),
                blocklist_list: names_in(files.blocklist),
                mod_list: mods_in(files.modoverrides),
            },
        )
    }
}

/// The names that a list file gives.
fn read_names(file: &FileRead) -> (names: Vec<String>)
    ensures
        names.deep_view() == names_in(*file),
{
    match file {
        FileRead::Text(text) => clean_lines_of(text.as_str()),
        _ => {
            let names: Vec<String> = Vec::new();
            names
        },
    }
}

/// The mods that a mod override file enables.
fn read_mods(file: &FileRead) -> (mods: Vec<String>)
    ensures
        mods.deep_view() == mods_in(*file),
{
    match file {
        FileRead::Text(text) => mod_ids_of(text.as_str()),
        _ => {
            let mods: Vec<String> = Vec::new();
            mods
        },
    }
}

/// Tells whether the file was there and could not be read.
fn is_unreadable(file: &FileRead) -> (r: bool)
    ensures
        r == (*file is Unreadable),
{
    match file {
        FileRead::Unreadable => true,
        _ => false,
    }
}

/// The configuration of a cluster: who administers it, who may and who may
/// not join, and which mods are enabled. Each list keeps the order in which
/// its entries came, and may hold an entry more than once.
#[derive(Debug, Clone, PartialEq, Eq)]
pub struct DstClusterConfig {
    admin_list: Vec<String>,
    whitelist_list: Vec<String>,
    blocklist_list: Vec<String>,
    mod_list: Vec<String>,
}

impl View for DstClusterConfig {
    type V = ClusterConfigView;

    closed spec fn view(&self) -> ClusterConfigView {
        ClusterConfigView {
            admin_list: self.admin_list.deep_view(),
            whitelist_list: self.whitelist_list.deep_view(),
            blocklist_list: self.blocklist_list.deep_view(),
            mod_list: self.mod_list.deep_view(),
        }
    }
}

impl DstClusterConfig {
    /// A configuration with four empty lists.
    pub fn new() -> (config: DstClusterConfig)
        ensures
            config@ == (ClusterConfigView {
                admin_list: Seq::empty(),
                whitelist_list: Seq::empty(),
                blocklist_list: Seq::empty(),
                mod_list: Seq::empty(),
            }),
    {
        let config = DstClusterConfig {
            admin_list: Vec::new(),
            whitelist_list: Vec::new(),
            blocklist_list: Vec::new(),
            mod_list: Vec::new(),
        };
        assert(config.admin_list.deep_view() == Seq::<Seq<char>>::empty());
        assert(config.whitelist_list.deep_view() == Seq::<Seq<char>>::empty());
        assert(config.blocklist_list.deep_view() == Seq::<Seq<char>>::empty());
        assert(config.mod_list.deep_view() == Seq::<Seq<char>>::empty());
        config
    }

    /// The configuration in a cluster directory, from what reading its four
    /// files gave. A missing file is no error; an unreadable one is.
    pub fn from_cluster_dir_path(files: &ClusterFiles) -> (r: Result<DstClusterConfig, DstError>)
        ensures
            r matches Ok(config) ==> loaded(*files) == Ok::<ClusterConfigView, DstError>(config@),
            r matches Err(e) ==> loaded(*files) == Err::<ClusterConfigView, DstError>(e),
            r is Err <==> any_unreadable(*files),
    {
        if is_unreadable(&files.admin) || is_unreadable(&files.whitelist) || is_unreadable(
            &files.blocklist,
        ) || is_unreadable(&files.modoverrides) {
            return Err(DstError::Io);
        }
        Ok(
            DstClusterConfig {
                admin_list: read_names(&files.admin),
                whitelist_list: read_names(&files.whitelist),
                blocklist_list: read_names(&files.blocklist),
                mod_list: read_mods(&files.modoverrides),
            },
        )
    }

    /// The administrators.
    pub fn admin_list(&self) -> (list: &[String])
        ensures
            list.deep_view() == self@.admin_list,
    {
        self.admin_list.as_slice()
    }

    /// The players who may always join.
    pub fn whitelist_list(&self) -> (list: &[String])
        ensures
            list.deep_view() == self@.whitelist_list,
    {
        self.whitelist_list.as_slice()
    }

    /// The players who may not join.
    pub fn blocklist_list(&self) -> (list: &[String])
        ensures
            list.deep_view() == self@.blocklist_list,
    {
        self.blocklist_list.as_slice()
    }

    /// The identifiers of the enabled mods.
    pub fn mod_list(&self) -> (list: &[String])
        ensures
            list.deep_view() == self@.mod_list,
    {
        self.mod_list.as_slice()
    }

    /// Appends an administrator. The name is taken as it is, be it empty or
    /// already in the list.
    pub fn add_admin(&mut self, admin: String)
        ensures
            final(self)@ == (ClusterConfigView {
                admin_list: old(self)@.admin_list.push(admin@),
                ..old(self)@
            }),
    {
        let ghost before = self.admin_list.deep_view();
        self.admin_list.push(admin);
        assert(self.admin_list.deep_view() == before.push(admin@));
    }

    /// Appends a player who may always join. The name is taken as it is.
    pub fn add_whitelist(&mut self, whitelist: String)
        ensures
            final(self)@ == (ClusterConfigView {
                whitelist_list: old(self)@.whitelist_list.push(whitelist@),
                ..old(self)@
            }),
    {
        let ghost before = self.whitelist_list.deep_view();
        self.whitelist_list.push(whitelist);
        assert(self.whitelist_list.deep_view() == before.push(whitelist@));
    }

    /// Appends a player who may not join. The name is taken as it is.
    pub fn add_blocklist(&mut self, blocklist: String)
        ensures
            final(self)@ == (ClusterConfigView {
                blocklist_list: old(self)@.blocklist_list.push(blocklist@),
                ..old(self)@
            }),
    {
        let ghost before = self.blocklist_list.deep_view();
        self.blocklist_list.push(blocklist);
        assert(self.blocklist_list.deep_view() == before.push(blocklist@));
    }

    /// Appends an enabled mod. The identifier is taken as it is.
    pub fn add_mod(&mut self, mod_id: String)
        ensures
            final(self)@ == (ClusterConfigView {
                mod_list: old(self)@.mod_list.push(mod_id@),
                ..old(self)@
            }),
    {
        let ghost before = self.mod_list.deep_view();
        self.mod_list.push(mod_id);
        assert(self.mod_list.deep_view() == before.push(mod_id@));
    }
}

/// A cluster: a main server, a cave server where the cluster has caves, the
/// directory of the cluster, and its configuration.
#[derive(Debug, Clone, PartialEq, Eq)]
pub struct DstCluster {
    /// The main server.
    pub main_server: DstServer,
    /// The cave server, if the cluster has one.
    pub cave_server: Option<DstServer>,
    /// The directory of the cluster.
    pub dir_path: String,
    /// The configuration.
    pub config: DstClusterConfig,
}

/// What is read from a cluster directory holds no empty entry, and every
/// name of its three access lists is trimmed. (Entries that are appended
/// later are taken as they are.)
pub proof fn lemma_loaded_entries_are_clean(files: ClusterFiles, i: int)
    requires
        loaded(files) is Ok,
    ensures
        ({
            let config = loaded(files)->Ok_0;
            &&& 0 <= i < config.admin_list.len() ==> is_clean(config.admin_list[i])
            &&& 0 <= i < config.whitelist_list.len() ==> is_clean(config.whitelist_list[i])
            &&& 0 <= i < config.blocklist_list.len() ==> is_clean(config.blocklist_list[i])
            &&& 0 <= i < config.mod_list.len() ==> config.mod_list[i].len() > 0
        }),
{
    let config = loaded(files)->Ok_0;
    if 0 <= i < config.admin_list.len() {
        lemma_clean_lines_are_trimmed(files.admin.text()->0, i);
    }
    if 0 <= i < config.whitelist_list.len() {
        lemma_clean_lines_are_trimmed(files.whitelist.text()->0, i);
    }
    if 0 <= i < config.blocklist_list.len() {
        lemma_clean_lines_are_trimmed(files.blocklist.text()->0, i);
    }
    if 0 <= i < config.mod_list.len() {
        lemma_enabled_are_named(clean_lines(files.modoverrides.text()->0));
    }
}

/// Where nothing stands at its path, no file is read.
pub proof fn lemma_absent_is_not_read(file: ClusterFile)
    ensures
        !file.wanted(PathState::Absent),
{
}

/// Where none of the four files is there, all four lists are empty and
/// nothing fails.
pub proof fn lemma_nothing_there(files: ClusterFiles)
    requires
        files.admin is Absent,
        files.whitelist is Absent,
        files.blocklist is Absent,
        files.modoverrides is Absent,
    ensures
        loaded(files) == Ok::<ClusterConfigView, DstError>(
            ClusterConfigView {
                admin_list: Seq::empty(),
                whitelist_list: Seq::empty(),
                blocklist_list: Seq::empty(),
                mod_list: Seq::empty(),
            },
        ),
{
}

} // verus!
