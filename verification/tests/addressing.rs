use max_cli::addressing::{global_daemon_paths, hex_prefix, project_hash, DaemonPaths};
use max_cli::locator::{find_project_root, marker_paths, search_path, DirProbe};
use max_cli::paths::{join, parent_dir};

#[test]
fn identity_is_the_start_of_the_digest_in_hex() {
    assert_eq!(project_hash("/home/alice/project"), "9c2098df2600");
    assert_eq!(project_hash("/"), "8a5edab28263");
    assert_eq!(project_hash(""), "e3b0c44298fc");
}

#[test]
fn identity_hashes_the_utf8_bytes_of_the_root() {
    assert_eq!(project_hash("/tmp/größe"), "65608d4795d9");
}

#[test]
fn identity_is_the_same_on_every_call() {
    let first = project_hash("/srv/app");
    let second = project_hash("/srv/app");
    assert_eq!(first, second);
    assert_eq!(first.len(), 12);
    assert!(first.chars().all(|c| c.is_ascii_digit() || ('a'..='f').contains(&c)));
    assert_ne!(project_hash("/srv/app"), project_hash("/srv/app2"));
}

#[test]
fn paths_are_the_same_on_every_call() {
    let first = DaemonPaths::for_project("/home/alice", "/home/alice/project");
    let second = DaemonPaths::for_project("/home/alice", "/home/alice/project");
    assert_eq!(first, second);
}

#[test]
fn paths_lie_below_the_identity() {
    let paths = DaemonPaths::for_project("/home/alice", "/home/alice/project");
    assert_eq!(paths.dir, "/home/alice/.max/daemons/9c2098df2600");
    assert_eq!(paths.socket, "/home/alice/.max/daemons/9c2098df2600/daemon.sock");
    assert_eq!(paths.pid, "/home/alice/.max/daemons/9c2098df2600/daemon.pid");
    assert_eq!(paths.log, "/home/alice/.max/daemons/9c2098df2600/daemon.log");
}

#[test]
fn paths_of_two_projects_differ() {
    let one = DaemonPaths::for_project("/home/alice", "/work/one");
    let two = DaemonPaths::for_project("/home/alice", "/work/two");
    assert_ne!(one.dir, two.dir);
    assert_ne!(one.socket, two.socket);
}

#[test]
fn home_with_a_slash_at_its_end_gets_no_second_one() {
    let paths = DaemonPaths::for_project("/home/alice/", "/");
    assert_eq!(paths.dir, "/home/alice/.max/daemons/8a5edab28263");
}

#[test]
fn global_paths_lie_in_the_state_directory() {
    let paths = global_daemon_paths("/home/bob");
    assert_eq!(paths.dir, "/home/bob/.max");
    assert_eq!(paths.socket, "/home/bob/.max/daemon.sock");
    assert_eq!(paths.pid, "/home/bob/.max/daemon.pid");
    assert_eq!(paths.log, "/home/bob/.max/daemon.log");
}

#[test]
fn hex_writes_two_digits_for_each_byte() {
    let bytes = vec![0x00, 0x0f, 0xa0, 0xff, 0x5c];
    assert_eq!(hex_prefix(&bytes, 5), "000fa0ff5c");
    assert_eq!(hex_prefix(&bytes, 2), "000f");
    assert_eq!(hex_prefix(&bytes, 0), "");
}

#[test]
fn join_puts_one_slash_between() {
    assert_eq!(join("/a", "b"), "/a/b");
    assert_eq!(join("/a/", "b"), "/a/b");
    assert_eq!(join("", "b"), "b");
    assert_eq!(join("/a", ""), "/a/");
    assert_eq!(join("/a", "/etc"), "/etc");
    assert_eq!(join("/", "max.json"), "/max.json");
}

#[test]
fn parent_is_what_stands_before_the_last_slash() {
    assert_eq!(parent_dir("/a/b/c"), Some("/a/b".to_string()));
    assert_eq!(parent_dir("/a"), Some("/".to_string()));
    assert_eq!(parent_dir("/"), None);
    assert_eq!(parent_dir(""), None);
    assert_eq!(parent_dir("name"), None);
}

#[test]
fn search_path_goes_up_to_the_root() {
    assert_eq!(search_path("/a/b/c"), vec!["/a/b/c", "/a/b", "/a", "/"]);
    assert_eq!(search_path("/"), vec!["/"]);
}

#[test]
fn markers_are_the_file_and_the_directory() {
    let (file, dir) = marker_paths("/work/app");
    assert_eq!(file, "/work/app/max.json");
    assert_eq!(dir, "/work/app/.max");
}

fn probe(config_file: bool, state_dir: bool) -> DirProbe {
    DirProbe { config_file, state_dir }
}

#[test]
fn project_root_is_the_nearest_directory_with_both_markers() {
    let probes = vec![probe(false, false), probe(true, true), probe(true, true), probe(false, false)];
    assert_eq!(find_project_root("/a/b/c", &probes), Some("/a/b".to_string()));
}

#[test]
fn project_root_needs_both_markers() {
    let probes = vec![probe(true, false), probe(false, true), probe(true, true), probe(false, false)];
    assert_eq!(find_project_root("/a/b/c", &probes), Some("/a".to_string()));
}

#[test]
fn project_root_may_be_the_start_or_the_top() {
    assert_eq!(find_project_root("/a/b", &vec![probe(true, true)]), Some("/a/b".to_string()));
    let probes = vec![probe(false, false), probe(false, false), probe(true, true)];
    assert_eq!(find_project_root("/a/b", &probes), Some("/".to_string()));
}

#[test]
fn no_project_root_where_no_directory_qualifies() {
    let probes = vec![probe(true, false), probe(false, true), probe(false, false)];
    assert_eq!(find_project_root("/a/b", &probes), None);
    assert_eq!(find_project_root("/a/b", &vec![]), None);
}

#[test]
fn probes_beyond_the_search_path_do_not_count() {
    let probes = vec![probe(false, false), probe(false, false), probe(true, true)];
    assert_eq!(find_project_root("/a", &probes), None);
}
