use cubefs_bond::text::{trim_each_line, trim_str, u32_to_decimal};
use cubefs_bond::io::{Action, Event, IoError};
use cubefs_bond::utils::{
    gen_config_file, gen_log_path, gen_mount_path, gen_start_file, gen_start_shell_content,
    get_bond_shell, mkdirs, parent_mkdirs, DirStage, MkdirsNext,
};

#[test]
fn config_file_path_of_volume() {
    assert_eq!(gen_config_file("test"), "/cfs/bond/test/config.json");
}

#[test]
fn start_file_path_of_volume() {
    assert_eq!(gen_start_file("test"), "/cfs/bond/test/start.sh");
}

#[test]
fn log_path_of_volume() {
    assert_eq!(gen_log_path("test"), "/cfs/bond/test/log");
}

#[test]
fn mount_path_of_volume() {
    assert_eq!(gen_mount_path("test"), "/cfs/mount/test");
}

#[test]
fn bond_shell_of_volume() {
    assert_eq!(
        get_bond_shell("test"),
        "ps aux|grep '/cfs/client/cfs-client -f -c /cfs/bond/test/config.json'|grep -v grep|wc -l"
    );
}

#[test]
fn start_script_of_plain_volume() {
    assert_eq!(
        gen_start_shell_content("test"),
        "#!/usr/bin/env bash\ncd test\nnohup /cfs/client/cfs-client -f -c /cfs/bond/test/config.json 2>&1 &\n"
    );
}

#[test]
fn start_script_trims_volume_name_at_line_ends() {
    // A trailing blank of the volume name ends its line and is trimmed there,
    // but stays inside the configuration path.
    assert_eq!(
        gen_start_shell_content("vol "),
        "#!/usr/bin/env bash\ncd vol\nnohup /cfs/client/cfs-client -f -c /cfs/bond/vol /config.json 2>&1 &\n"
    );
}

#[test]
fn start_script_of_empty_volume() {
    assert_eq!(
        gen_start_shell_content(""),
        "#!/usr/bin/env bash\ncd\nnohup /cfs/client/cfs-client -f -c /cfs/bond//config.json 2>&1 &\n"
    );
}

#[test]
fn start_script_splits_at_line_feed_in_volume() {
    assert_eq!(
        gen_start_shell_content("a\n  b"),
        "#!/usr/bin/env bash\ncd a\nb\nnohup /cfs/client/cfs-client -f -c /cfs/bond/a\nb/config.json 2>&1 &\n"
    );
}

#[test]
fn trim_matches_std() {
    for s in ["", "  ", " a b ", "\t\u{3000}x\u{85}", "x", "\u{2009}\u{200A}y\r\n"] {
        assert_eq!(trim_str(s), s.trim());
    }
}

#[test]
fn trim_each_line_matches_split_trim_join() {
    for s in ["", "\n", " a \n b\n\n  c  ", "x\r\ny", "  \n  "] {
        let expected = s.split('\n').map(|x| x.trim()).collect::<Vec<&str>>().join("\n");
        assert_eq!(trim_each_line(s), expected);
    }
}

#[test]
fn decimal_matches_display() {
    for n in [0u32, 7, 10, 42, 1500, 65535, 4294967295] {
        assert_eq!(u32_to_decimal(n), n.to_string());
    }
}

#[test]
fn test_mkdirs() {
    let (mut m, ask) = mkdirs("/".to_string());
    let exists = match ask {
        Action::PathExists(p) => std::path::Path::new(&p).exists(),
        _ => panic!("expected an existence check"),
    };
    match m.step(Event::Flag(exists)) {
        MkdirsNext::Ask(DirStage::IsDir, Action::PathIsDir(p)) => {
            assert!(matches!(m.step(Event::Flag(std::path::Path::new(&p).is_dir())), MkdirsNext::Made));
        }
        _ => panic!("expected a directory check"),
    }
}

#[test]
fn mkdirs_refuses_existing_file() {
    let (mut m, _) = mkdirs("/etc/hostname".to_string());
    assert!(matches!(m.step(Event::Flag(true)), MkdirsNext::Ask(DirStage::IsDir, _)));
    match m.step(Event::Flag(false)) {
        MkdirsNext::Failed(e) => assert_eq!(e.to_string(), "10003: mkdirs needs dir, but file[\"/etc/hostname\"]"),
        _ => panic!("expected a refusal"),
    }
}

#[test]
fn mkdirs_creates_missing_directory() {
    let (mut m, _) = mkdirs("/x/y".to_string());
    match m.step(Event::Flag(false)) {
        MkdirsNext::Ask(DirStage::Create, Action::CreateDirAll(p)) => assert_eq!(p, "/x/y"),
        _ => panic!("expected a creation"),
    }
    let failure = IoError { display: "d".to_string(), debug: "D".to_string() };
    match m.step(Event::Io(Err(failure))) {
        MkdirsNext::Failed(e) => assert_eq!(e.to_string(), "10001:D"),
        _ => panic!("expected a failure"),
    }
}

#[test]
fn parent_mkdirs_asks_for_parent() {
    match parent_mkdirs("/cfs/bond/test/config.json") {
        Some((_, Action::PathExists(p))) => assert_eq!(p, "/cfs/bond/test"),
        _ => panic!("expected the parent directory"),
    }
    assert!(parent_mkdirs("/").is_none());
    assert!(parent_mkdirs("").is_none());
    match parent_mkdirs("file") {
        Some((_, Action::PathExists(p))) => assert_eq!(p, ""),
        _ => panic!("expected the empty parent"),
    }
}

#[test]
fn different_volumes_have_different_paths() {
    assert_ne!(gen_mount_path("a"), gen_mount_path("b"));
    assert_ne!(gen_config_file("a"), gen_config_file("ab"));
    assert_ne!(gen_start_file("a/b"), gen_start_file("a"));
}

#[test]
fn volume_files_share_its_bond_directory() {
    for f in [gen_config_file("v"), gen_start_file("v"), gen_log_path("v")] {
        assert!(f.starts_with("/cfs/bond/v/"));
    }
}

#[test]
fn probe_looks_for_the_command_the_script_runs() {
    for v in ["test", "vol ", "", " x\t"] {
        let cmd = format!("/cfs/client/cfs-client -f -c {}", gen_config_file(v));
        assert!(get_bond_shell(v).contains(&format!("'{}'", cmd)));
        assert!(gen_start_shell_content(v).contains(&format!("\nnohup {} 2>&1 &\n", cmd)));
    }
}
