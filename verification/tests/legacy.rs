use cubefs_bond::config_map::ConfigMap;
use cubefs_bond::controller;
use cubefs_bond::io::{Action, Event, IoError, ProgramStdout, SerdeFailure};
use cubefs_bond::launch::{ConfigFileNext, Launch, LaunchNext};
use cubefs_bond::mount;
use cubefs_bond::umount;

const MASTERS: &str = "10.201.3.28:8868,10.201.3.29:8868,10.201.3.30:8868";

fn io_error(display: &str) -> IoError {
    IoError { display: display.to_string(), debug: format!("Os({:?})", display) }
}

/// Drives a start-up, answering every request with success, and records the
/// requests.
fn drive(mut launch: Launch, first: LaunchNext, running: bool, log: &mut Vec<String>) -> Result<String, String> {
    let mut next = first;
    loop {
        let action = match next {
            LaunchNext::Finished(r) => return r,
            LaunchNext::Perform(a) => a,
        };
        let event = match &action {
            Action::Run { program, args } => {
                log.push(format!("run {} {}", program, args.join(" ")));
                Event::Ran(Ok(ProgramStdout::Text(if running { "1\n".to_string() } else { "0\n".to_string() })))
            }
            Action::CreateDirAll(p) => {
                log.push(format!("mkdir {}", p));
                Event::Io(Ok(()))
            }
            Action::SerializeConfig => {
                log.push("serialize".to_string());
                Event::Serialized(Ok("{}".to_string()))
            }
            Action::WriteFile { path, .. } => {
                log.push(format!("write {}", path));
                Event::Io(Ok(()))
            }
            Action::Spawn { program, args } => {
                log.push(format!("spawn {} {}", program, args.join(" ")));
                Event::Spawned(Ok(77))
            }
            Action::Sleep(ms) => {
                log.push(format!("sleep {}", ms));
                Event::Slept
            }
            _ => panic!("not asked by this start-up"),
        };
        assert!(launch.accepts_event(&event));
        next = launch.step(event);
    }
}

fn mount_config() -> mount::ClientConfig {
    let mut config = mount::ClientConfig::default();
    config.volName = Some("test".to_string());
    config.owner = Some("cfs".to_string());
    config.masterAddr = MASTERS.to_string();
    config.profPort = Some("17510".to_string());
    config.exporterPort = Some("9504".to_string());
    config
}

#[test]
fn mount_test() {
    let bond = match mount::Bond::setup(mount_config()) {
        Ok(v) => v,
        Err(e) => panic!("fail: parse param, {}", e),
    };
    assert_eq!(bond.config().mountPoint.as_deref(), Some("/cfs/mount/test"));
    assert_eq!(bond.config().logDir.as_deref(), Some("/cfs/client/test"));
    assert_eq!(bond.config().logLevel.as_deref(), Some("info"));
    let (launch, first) = bond.startup();
    let mut log = vec![];
    assert_eq!(drive(launch, first, true, &mut log), Ok("77".to_string()));
    assert_eq!(
        log,
        vec![
            "mkdir /cfs/client/test",
            "serialize",
            "write /cfs/client/test/config.json",
            "mkdir /cfs/client/test",
            "mkdir /cfs/mount/test",
            "spawn /cfs/client/cfs-client -f -c /cfs/client/test/config.json",
            "sleep 1500",
            "run /bin/sh -c ps aux|grep 77|grep '/cfs/client/cfs-client -f -c /cfs/client/test/config.json'|wc -l",
        ]
    );
}

#[test]
fn mount_setup_and_answers() {
    assert_eq!(mount::mount_setup(None).err(), Some("body is empty".to_string()));
    assert_eq!(mount::mount_setup(Some(Err("bad".to_string()))).err(), Some("parse body fail: bad".to_string()));
    let mut config = mount_config();
    config.masterAddr = String::new();
    assert_eq!(mount::mount_setup(Some(Ok(config))).err(), Some("fail: parse param, masterAddr missing".to_string()));
    assert_eq!(mount::mount_response(Ok("77".to_string())), "77");
    assert_eq!(mount::mount_response(Err("x".to_string())), "fail: start client fail, x");
}

#[test]
fn mount_failures_are_messages() {
    let bond = mount::Bond::setup(mount_config()).ok().unwrap();
    let (mut launch, _) = bond.startup();
    match launch.step(Event::Io(Err(io_error("denied")))) {
        LaunchNext::Finished(Err(e)) => assert_eq!(
            e,
            "fail: write config to file, create config parent dir[/cfs/client/test] fail, denied"
        ),
        _ => panic!("expected a failure"),
    }
    let (mut launch, _) = bond.startup();
    launch.step(Event::Io(Ok(())));
    match launch.step(Event::Serialized(Err(SerdeFailure { object_debug: String::new(), error_debug: "E".to_string() }))) {
        LaunchNext::Finished(Err(e)) => assert_eq!(e, "fail: write config to file, error parsing from json to string: E"),
        _ => panic!("expected a failure"),
    }
    let (mut launch, _) = bond.startup();
    launch.step(Event::Io(Ok(())));
    launch.step(Event::Serialized(Ok("{}".to_string())));
    launch.step(Event::Io(Ok(())));
    launch.step(Event::Io(Ok(())));
    launch.step(Event::Io(Ok(())));
    match launch.step(Event::Spawned(Err(io_error("No such file")))) {
        LaunchNext::Finished(Err(e)) => assert_eq!(
            e,
            "fail: start[/cfs/client/cfs-client -f -c /cfs/client/test/config.json] fail, output:No such file\n"
        ),
        _ => panic!("expected a failure"),
    }
}

fn posted_settings() -> ConfigMap {
    let input = r#"{
            "volName": "test",
            "owner": "cfs",
            "masterAddr": "10.201.3.28:8868,10.201.3.29:8868,10.201.3.30:8868",
            "profPort": "17510",
            "exporterPort": "9504"
          }"#;
    let parsed: std::collections::HashMap<String, String> = serde_json::from_str(input).unwrap();
    let mut config = ConfigMap::new();
    for (k, v) in parsed {
        config.insert(k, v);
    }
    config
}

#[test]
fn controller_test() {
    let bond = match controller::Bond::setup(posted_settings()) {
        Ok(v) => v,
        Err(e) => panic!("fail: parse param, {}", e),
    };
    let settings = bond.config();
    assert_eq!(settings.get("mountPoint").map(|s| s.as_str()), Some("/cfs/mount/test"));
    assert_eq!(settings.get("logDir").map(|s| s.as_str()), Some("/cfs/client/test"));
    assert_eq!(settings.get("logLevel").map(|s| s.as_str()), Some("info"));
    assert_eq!(settings.get("owner").map(|s| s.as_str()), Some("cfs"));
    assert_eq!(settings.entries().len(), 8);
    let (launch, first) = bond.startup();
    let mut log = vec![];
    // a count of one means that only the grep itself was found
    assert_eq!(drive(launch, first, true, &mut log), Ok("fail: child process exit".to_string()));
    assert_eq!(
        log,
        vec![
            "mkdir /cfs/client/test",
            "write /cfs/client/test/config.json",
            "mkdir /cfs/client/test",
            "spawn /bin/sh -c cd /cfs/client/test && nohup /cfs/client/cfs-client -f -c /cfs/client/test/config.json &",
            "sleep 1500",
            "run /bin/sh -c ps aux|grep 77|grep '/cfs/client/cfs-client -f -c /cfs/client/test/config.json'|wc -l",
        ]
    );
}

#[test]
fn controller_serialises_settings_as_json_object() {
    let bond = controller::Bond::setup(posted_settings()).ok().unwrap();
    let (mut launch, _) = bond.startup();
    match launch.step(Event::Io(Ok(()))) {
        LaunchNext::Perform(Action::WriteFile { content, .. }) => {
            let back: std::collections::HashMap<String, String> = serde_json::from_str(&content).unwrap();
            assert_eq!(back.len(), 8);
            assert_eq!(back["logDir"], "/cfs/client/test");
            // the members come in the order of their names
            let first = content.find("\"exporterPort\"").unwrap();
            let last = content.find("\"volName\"").unwrap();
            assert!(first < last);
        }
        _ => panic!("expected the configuration to be written"),
    }
}

#[test]
fn controller_setup_and_handlers() {
    assert_eq!(controller::mount_setup(Err("bad".to_string())).err(), Some("parse body fail: bad".to_string()));
    let mut settings = ConfigMap::new();
    settings.insert("volName".to_string(), "v".to_string());
    assert_eq!(controller::mount_setup(Ok(settings)).err(), Some("fail: parse param, masterAddr missing".to_string()));
    assert_eq!(controller::mount_response(Err("e".to_string())), "fail: start client fail, e");
    assert_eq!(controller::umount_request(None).err(), Some("fail: volume_name missing".to_string()));
    match controller::umount_request(Some("v".to_string())) {
        Ok(Action::Run { program, args }) => {
            assert_eq!(program, "/bin/sh");
            assert_eq!(args, vec!["-c".to_string(), "umount /cfs/mount/v".to_string()]);
        }
        _ => panic!("expected a command"),
    }
    assert_eq!(controller::umount_response("v", Ok(ProgramStdout::Text("done".to_string()))), "done");
    assert_eq!(
        controller::umount_response("v", Err(io_error("x"))),
        "fail: start[umount /cfs/mount/v] fail, output:x\n"
    );
}

#[test]
fn umount_route() {
    assert_eq!(umount::umount_request(Some(String::new())).err(), Some("fail: volume_name empty".to_string()));
    match umount::umount_request(Some("v".to_string())) {
        Ok(Action::Run { program, args }) => {
            assert_eq!(program, "umount");
            assert_eq!(args, vec!["/cfs/mount/v".to_string()]);
        }
        _ => panic!("expected a command"),
    }
    assert_eq!(umount::umount_response("v", Ok(ProgramStdout::Text(String::new()))), "ok");
    assert_eq!(
        umount::umount_response("v", Err(io_error("x"))),
        "fail: start[umount /cfs/mount/v] fail, output:x\n"
    );
}

#[test]
fn config_map_reads_what_was_written() {
    let mut m = ConfigMap::new();
    assert!(m.get("a").is_none());
    m.insert("a".to_string(), "1".to_string());
    m.insert("b".to_string(), "2".to_string());
    m.insert("a".to_string(), "3".to_string());
    assert_eq!(m.get("a").map(|s| s.as_str()), Some("3"));
    assert_eq!(m.get("b").map(|s| s.as_str()), Some("2"));
    assert_eq!(m.entries().len(), 2);
}

#[test]
fn mount_write_config_file_alone() {
    let bond = mount::Bond::setup(mount_config()).ok().unwrap();
    let (mut part, first) = bond.write_config_file();
    match first {
        ConfigFileNext::Perform(Action::CreateDirAll(p)) => assert_eq!(p, "/cfs/client/test"),
        _ => panic!("expected the directory to be created"),
    }
    assert!(matches!(part.step(Event::Io(Ok(()))), ConfigFileNext::Perform(Action::SerializeConfig)));
    match part.step(Event::Serialized(Ok("{}".to_string()))) {
        ConfigFileNext::Perform(Action::WriteFile { path, .. }) => assert_eq!(path, "/cfs/client/test/config.json"),
        _ => panic!("expected the file to be written"),
    }
    match part.step(Event::Io(Err(io_error("full")))) {
        ConfigFileNext::Finished(Err(reason)) => assert_eq!(reason, "fail: write body to path file fail, full"),
        _ => panic!("expected a failure"),
    }
}

#[test]
fn controller_write_config_file_alone() {
    let bond = controller::Bond::setup(posted_settings()).ok().unwrap();
    let (mut part, _) = bond.write_config_file();
    match part.step(Event::Io(Ok(()))) {
        ConfigFileNext::Perform(Action::WriteFile { path, .. }) => assert_eq!(path, "/cfs/client/test/config.json"),
        _ => panic!("expected the file to be written"),
    }
    assert!(matches!(part.step(Event::Io(Ok(()))), ConfigFileNext::Finished(Ok(()))));
}
