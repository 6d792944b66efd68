use thoughts_desktop::path::{join, lock_file_name_string, path_for};

#[test]
fn join_puts_one_separator_between_directory_and_name() {
    assert_eq!(join("/tmp/test-cfg", "server-4000.pid"), "/tmp/test-cfg/server-4000.pid");
    assert_eq!(join("relative/dir", ".config"), "relative/dir/.config");
}

#[test]
fn join_adds_no_separator_after_one() {
    assert_eq!(join("/tmp/test-cfg/", "server-4000.pid"), "/tmp/test-cfg/server-4000.pid");
    assert_eq!(join("/", ".config"), "/.config");
}

#[test]
fn join_onto_the_empty_path_is_the_name() {
    assert_eq!(join("", "server-4000.pid"), "server-4000.pid");
}

#[test]
fn join_lets_an_absolute_name_stand_for_itself() {
    assert_eq!(join("/home/alice", "/etc/passwd"), "/etc/passwd");
}

#[test]
fn join_with_an_empty_name_ends_in_a_separator() {
    assert_eq!(join("/tmp", ""), "/tmp/");
    assert_eq!(join("", ""), "");
}

#[test]
fn join_agrees_with_the_standard_library() {
    let bases = ["", "/", "/tmp", "/tmp/", "a", "a/", "a/b", "/home/é"];
    let names = ["", "x", ".config", "server-1.pid", "/abs", "x/y"];
    for base in bases {
        for name in names {
            let expected = std::path::Path::new(base).join(name);
            assert_eq!(Some(join(base, name).as_str()), expected.to_str());
        }
    }
}

#[test]
fn lock_file_name_embeds_the_port() {
    assert_eq!(lock_file_name_string(4000), "server-4000.pid");
    assert_eq!(lock_file_name_string(0), "server-0.pid");
    assert_eq!(lock_file_name_string(u16::MAX), "server-65535.pid");
}

#[test]
fn path_for_is_the_lock_file_name_inside_the_base_directory() {
    assert_eq!(path_for("/tmp/test-cfg", 4000), "/tmp/test-cfg/server-4000.pid");
    assert_eq!(path_for("/tmp/test-cfg/", 80), "/tmp/test-cfg/server-80.pid");
}

#[test]
fn distinct_ports_have_distinct_paths() {
    let ports = [0u16, 1, 9, 10, 11, 80, 400, 4000, 4001, 40000, 65535];
    for a in ports {
        for b in ports {
            if a != b {
                assert_ne!(path_for("/tmp/test-cfg", a), path_for("/tmp/test-cfg", b));
            }
        }
    }
}

#[test]
fn path_for_is_deterministic() {
    assert_eq!(path_for("/var/lib/app", 8080), path_for("/var/lib/app", 8080));
}
