use dstcluster::cluster::ClusterFile;
use dstcluster::cluster::ClusterFiles;
use dstcluster::cluster::DstCluster;
use dstcluster::cluster::DstClusterConfig;
use dstcluster::dstserver::DstServer;
use dstcluster::error::DstError;
use dstcluster::files::FileRead;
use dstcluster::files::PathState;

fn text(t: &str) -> FileRead {
    FileRead::Text(t.to_string())
}

fn nothing() -> ClusterFiles {
    ClusterFiles {
        admin: FileRead::Absent,
        whitelist: FileRead::Absent,
        blocklist: FileRead::Absent,
        modoverrides: FileRead::Absent,
    }
}

fn none() -> Vec<String> {
    Vec::new()
}

#[test]
fn new_config_is_empty() {
    let c = DstClusterConfig::new();
    assert_eq!(c.admin_list(), none());
    assert_eq!(c.whitelist_list(), none());
    assert_eq!(c.blocklist_list(), none());
    assert_eq!(c.mod_list(), none());
}

#[test]
fn directory_without_files_gives_empty_config() {
    let c = DstClusterConfig::from_cluster_dir_path(&nothing()).unwrap();
    assert_eq!(c, DstClusterConfig::new());
    assert_eq!(c.admin_list(), none());
    assert_eq!(c.whitelist_list(), none());
    assert_eq!(c.blocklist_list(), none());
    assert_eq!(c.mod_list(), none());
}

#[test]
fn admin_list_is_trimmed_lines_without_blank_ones() {
    let files = ClusterFiles { admin: text("alice\n\n  bob  \n"), ..nothing() };
    let c = DstClusterConfig::from_cluster_dir_path(&files).unwrap();
    assert_eq!(c.admin_list(), ["alice", "bob"]);
    assert_eq!(c.whitelist_list(), none());
    assert_eq!(c.blocklist_list(), none());
    assert_eq!(c.mod_list(), none());
}

#[test]
fn mod_list_drops_the_trailing_assignment() {
    let overrides = "Workshop123456789=12345\n[12345]\nWorkshop123456789=67890\n";
    let files = ClusterFiles { modoverrides: text(overrides), ..nothing() };
    let c = DstClusterConfig::from_cluster_dir_path(&files).unwrap();
    assert_eq!(c.mod_list(), ["12345"]);
    assert_eq!(c.admin_list(), none());
}

#[test]
fn each_file_fills_its_own_list() {
    let files = ClusterFiles {
        admin: text("KU_admin\n"),
        whitelist: text("KU_one\nKU_two\n"),
        blocklist: text(" KU_bad \r\n"),
        modoverrides: text("Workshop=378160973\n[378160973]\n"),
    };
    let c = DstClusterConfig::from_cluster_dir_path(&files).unwrap();
    assert_eq!(c.admin_list(), ["KU_admin"]);
    assert_eq!(c.whitelist_list(), ["KU_one", "KU_two"]);
    assert_eq!(c.blocklist_list(), ["KU_bad"]);
    assert_eq!(c.mod_list(), ["378160973"]);
}

#[test]
fn lists_keep_duplicates_and_order() {
    let files = ClusterFiles { whitelist: text("b\na\nb\n"), ..nothing() };
    let c = DstClusterConfig::from_cluster_dir_path(&files).unwrap();
    assert_eq!(c.whitelist_list(), ["b", "a", "b"]);
}

#[test]
fn empty_files_give_empty_lists() {
    let files = ClusterFiles {
        admin: text(""),
        whitelist: text("\n"),
        blocklist: text(" \n\t\n"),
        modoverrides: text(""),
    };
    let c = DstClusterConfig::from_cluster_dir_path(&files).unwrap();
    assert_eq!(c, DstClusterConfig::new());
}

#[test]
fn unreadable_file_is_io_error() {
    let each = [
        ClusterFiles { admin: FileRead::Unreadable, ..nothing() },
        ClusterFiles { whitelist: FileRead::Unreadable, ..nothing() },
        ClusterFiles { blocklist: FileRead::Unreadable, ..nothing() },
        ClusterFiles { modoverrides: FileRead::Unreadable, ..nothing() },
    ];
    for files in each {
        assert_eq!(DstClusterConfig::from_cluster_dir_path(&files), Err(DstError::Io));
    }
}

#[test]
fn unreadable_file_fails_even_beside_readable_ones() {
    let files = ClusterFiles {
        admin: text("alice\n"),
        whitelist: text("bob\n"),
        blocklist: FileRead::Unreadable,
        modoverrides: FileRead::Absent,
    };
    assert_eq!(DstClusterConfig::from_cluster_dir_path(&files), Err(DstError::Io));
}

#[test]
fn add_appends_to_its_own_list_only() {
    let mut c = DstClusterConfig::new();
    c.add_admin("alice".to_string());
    assert_eq!(c.admin_list(), ["alice"]);
    assert_eq!(c.whitelist_list(), none());
    c.add_whitelist("bob".to_string());
    assert_eq!(c.whitelist_list(), ["bob"]);
    assert_eq!(c.blocklist_list(), none());
    c.add_blocklist("carol".to_string());
    assert_eq!(c.blocklist_list(), ["carol"]);
    assert_eq!(c.mod_list(), none());
    c.add_mod("12345".to_string());
    assert_eq!(c.mod_list(), ["12345"]);
    assert_eq!(c.admin_list(), ["alice"]);
    assert_eq!(c.whitelist_list(), ["bob"]);
    assert_eq!(c.blocklist_list(), ["carol"]);
}

#[test]
fn add_accepts_empty_untrimmed_and_repeated_entries() {
    let mut c = DstClusterConfig::new();
    c.add_admin(String::new());
    c.add_admin("  padded  ".to_string());
    c.add_admin("alice".to_string());
    c.add_admin("alice".to_string());
    assert_eq!(c.admin_list(), ["", "  padded  ", "alice", "alice"]);
    c.add_mod(String::new());
    c.add_mod(String::new());
    assert_eq!(c.mod_list(), ["", ""]);
}

#[test]
fn add_after_load_appends_at_the_end() {
    let files = ClusterFiles { admin: text("alice\nbob\n"), ..nothing() };
    let mut c = DstClusterConfig::from_cluster_dir_path(&files).unwrap();
    c.add_admin("carol".to_string());
    assert_eq!(c.admin_list(), ["alice", "bob", "carol"]);
}

#[test]
fn file_names() {
    assert_eq!(ClusterFile::Admin.file_name(), "admin.txt");
    assert_eq!(ClusterFile::Whitelist.file_name(), "whitelist.txt");
    assert_eq!(ClusterFile::Blocklist.file_name(), "blocklist.txt");
    assert_eq!(ClusterFile::ModOverrides.file_name(), "modoverrides.lua");
}

#[test]
fn file_paths() {
    assert_eq!(ClusterFile::Admin.path_in("/srv/cluster"), "/srv/cluster/admin.txt");
    assert_eq!(ClusterFile::Whitelist.path_in("/srv/cluster/"), "/srv/cluster/whitelist.txt");
    assert_eq!(ClusterFile::Blocklist.path_in(""), "blocklist.txt");
    assert_eq!(ClusterFile::ModOverrides.path_in("c"), "c/modoverrides.lua");
}

#[test]
fn lists_are_read_wherever_something_stands() {
    for file in [ClusterFile::Admin, ClusterFile::Whitelist, ClusterFile::Blocklist] {
        assert!(!file.is_read(PathState::Absent));
        assert!(file.is_read(PathState::File));
        assert!(file.is_read(PathState::Other));
    }
}

#[test]
fn mod_overrides_are_read_only_from_a_regular_file() {
    assert!(!ClusterFile::ModOverrides.is_read(PathState::Absent));
    assert!(ClusterFile::ModOverrides.is_read(PathState::File));
    assert!(!ClusterFile::ModOverrides.is_read(PathState::Other));
}

#[test]
fn cluster_holds_its_parts() {
    let mut cluster = DstCluster {
        main_server: DstServer::new("/srv/cluster/main".to_string()),
        cave_server: None,
        dir_path: "/srv/cluster".to_string(),
        config: DstClusterConfig::new(),
    };
    cluster.config.add_admin("alice".to_string());
    cluster.cave_server = Some(DstServer::new("/srv/cluster/cave".to_string()));
    assert_eq!(cluster.main_server.version_txt(), "/srv/cluster/main/version.txt");
    assert_eq!(cluster.cave_server.unwrap().version_txt(), "/srv/cluster/cave/version.txt");
    assert_eq!(cluster.config.admin_list(), ["alice"]);
    assert_eq!(cluster.dir_path, "/srv/cluster");
}
