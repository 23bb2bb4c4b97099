use cubefs_bond::bond::{Bond, ClientConfig};
use cubefs_bond::errors::ErrorCode;
use cubefs_bond::io::{Action, DecodeError, Event, IoError, ProgramStdout, SerdeFailure};
use cubefs_bond::startup::{Next, PartNext, StartupPhase};

const MASTERS: &str = "10.201.3.28:8868,10.201.3.29:8868,10.201.3.30:8868";

fn posted_config() -> ClientConfig {
    let mut config = ClientConfig::default();
    config.volName = Some("test".to_string());
    config.owner = Some("cfs".to_string());
    config.masterAddr = Some(MASTERS.to_string());
    config.profPort = "17510".to_string();
    config.exporterPort = Some("9504".to_string());
    config
}

fn io_error(text: &str) -> IoError {
    IoError { display: text.to_string(), debug: format!("Custom({:?})", text) }
}

fn text(s: &str) -> Event {
    Event::Ran(Ok(ProgramStdout::Text(s.to_string())))
}

/// A simulated host: which paths exist and which operations fail.
struct World {
    existing: Vec<String>,
    fail_create: Option<String>,
    fail_write: Option<String>,
    chmod_output: String,
    running_before: bool,
    running_after: bool,
    pid: u32,
    log: Vec<String>,
}

impl World {
    fn fresh() -> World {
        World {
            existing: vec![],
            fail_create: None,
            fail_write: None,
            chmod_output: String::new(),
            running_before: false,
            running_after: true,
            pid: 4242,
            log: vec![],
        }
    }

    fn perform(&mut self, action: &Action, started: bool) -> Event {
        match action {
            Action::Run { program, args } => {
                self.log.push(format!("run {} {}", program, args.join(" ")));
                if program == "chmod" {
                    text(&self.chmod_output.clone())
                } else {
                    let running = if started { self.running_after } else { self.running_before };
                    text(if running { "1\n" } else { "0\n" })
                }
            }
            Action::PathExists(p) => {
                self.log.push(format!("exists {}", p));
                Event::Flag(self.existing.contains(p))
            }
            Action::PathIsDir(p) => {
                self.log.push(format!("is_dir {}", p));
                Event::Flag(self.existing.contains(p))
            }
            Action::CreateDirAll(p) => {
                self.log.push(format!("mkdir {}", p));
                if self.fail_create.as_deref() == Some(p.as_str()) {
                    Event::Io(Err(io_error("Permission denied")))
                } else {
                    self.existing.push(p.clone());
                    Event::Io(Ok(()))
                }
            }
            Action::SerializeConfig => {
                self.log.push("serialize".to_string());
                Event::Serialized(Ok("{}".to_string()))
            }
            Action::WriteFile { path, content } => {
                self.log.push(format!("write {} ({} bytes)", path, content.len()));
                if self.fail_write.as_deref() == Some(path.as_str()) {
                    Event::Io(Err(io_error("No space left on device")))
                } else {
                    Event::Io(Ok(()))
                }
            }
            Action::Spawn { program, .. } => {
                self.log.push(format!("spawn {}", program));
                Event::Spawned(Ok(self.pid))
            }
            Action::Sleep(ms) => {
                self.log.push(format!("sleep {}", ms));
                Event::Slept
            }
        }
    }
}

fn run(bond: &Bond, world: &mut World) -> Result<String, ErrorCode> {
    let (mut startup, mut action) = bond.startup();
    let mut started = false;
    loop {
        if let Action::Spawn { .. } = action {
            started = true;
        }
        let event = world.perform(&action, started);
        assert!(startup.accepts_event(&event));
        match startup.step(bond, event) {
            Next::Perform(next) => action = next,
            Next::Finished(result) => {
                assert!(startup.is_done());
                return result;
            }
        }
    }
}

#[test]
fn bond_post_test() {
    let bond = match Bond::setup(posted_config()) {
        Ok(v) => v,
        Err(e) => panic!("fail: parse param, {}", e),
    };
    assert_eq!(bond.volume_name(), "test");
    assert_eq!(bond.config().mountPoint.as_deref(), Some("/cfs/mount/test"));
    assert_eq!(bond.config().logDir.as_deref(), Some("/cfs/bond/test/log"));
    assert_eq!(bond.config().logLevel.as_deref(), Some("info"));
    assert_eq!(bond.config().owner.as_deref(), Some("cfs"));
    assert_eq!(bond.config().profPort, "17510");
    let mut world = World::fresh();
    let answer = run(&bond, &mut world);
    assert_eq!(answer.ok(), Some("OK,4242".to_string()));
    assert_eq!(
        world.log,
        vec![
            "run /bin/sh -c ps aux|grep '/cfs/client/cfs-client -f -c /cfs/bond/test/config.json'|grep -v grep|wc -l",
            "exists /cfs/bond/test",
            "mkdir /cfs/bond/test",
            "serialize",
            "write /cfs/bond/test/config.json (2 bytes)",
            "exists /cfs/bond/test",
            "is_dir /cfs/bond/test",
            "write /cfs/bond/test/start.sh (97 bytes)",
            "run chmod +x /cfs/bond/test/start.sh",
            "exists /cfs/bond/test/log",
            "mkdir /cfs/bond/test/log",
            "exists /cfs/mount/test",
            "mkdir /cfs/mount/test",
            "spawn /cfs/bond/test/start.sh",
            "sleep 1500",
            "run /bin/sh -c ps aux|grep '/cfs/client/cfs-client -f -c /cfs/bond/test/config.json'|grep -v grep|wc -l",
        ]
    );
}

#[test]
fn setup_keeps_given_level_and_owner() {
    let mut config = posted_config();
    config.owner = Some("root".to_string());
    config.logLevel = Some("debug".to_string());
    let bond = Bond::setup(config).ok().unwrap();
    assert_eq!(bond.config().owner.as_deref(), Some("root"));
    assert_eq!(bond.config().logLevel.as_deref(), Some("debug"));
    assert_eq!(bond.config().exporterPort.as_deref(), Some("9504"));
}

#[test]
fn setup_requires_volume_and_masters() {
    let mut config = posted_config();
    config.volName = None;
    assert_eq!(Bond::setup(config).err(), Some("volName missing".to_string()));
    let mut config = posted_config();
    config.masterAddr = None;
    assert_eq!(Bond::setup(config).err(), Some("masterAddr missing".to_string()));
}

#[test]
fn running_client_is_left_alone() {
    let bond = Bond::setup(posted_config()).ok().unwrap();
    let mut world = World::fresh();
    world.running_before = true;
    assert_eq!(run(&bond, &mut world).ok(), Some("OK".to_string()));
    assert_eq!(world.log.len(), 1);
}

#[test]
fn client_that_exits_is_reported() {
    let bond = Bond::setup(posted_config()).ok().unwrap();
    let mut world = World::fresh();
    world.running_after = false;
    assert_eq!(run(&bond, &mut world).ok(), Some("child process exit".to_string()));
}

#[test]
fn existing_directories_are_not_created() {
    let bond = Bond::setup(posted_config()).ok().unwrap();
    let mut world = World::fresh();
    world.existing = vec!["/cfs/bond/test".to_string(), "/cfs/bond/test/log".to_string(), "/cfs/mount/test".to_string()];
    assert_eq!(run(&bond, &mut world).ok(), Some("OK,4242".to_string()));
    assert!(!world.log.iter().any(|l| l.starts_with("mkdir")));
}

#[test]
fn failed_mkdir_is_io_error() {
    let bond = Bond::setup(posted_config()).ok().unwrap();
    let mut world = World::fresh();
    world.fail_create = Some("/cfs/bond/test".to_string());
    let err = run(&bond, &mut world).err().unwrap();
    assert_eq!(err.to_string(), "10001:Custom(\"Permission denied\")");
    assert_eq!(err.debug_text(), "E10001_IO_ERROR(Custom(\"Permission denied\"))");
}

#[test]
fn failed_config_write_is_write_error() {
    let bond = Bond::setup(posted_config()).ok().unwrap();
    let mut world = World::fresh();
    world.fail_write = Some("/cfs/bond/test/config.json".to_string());
    let err = run(&bond, &mut world).err().unwrap();
    assert_eq!(
        err.to_string(),
        "10004: write file[fail: write body to path file fail, Custom(\"No space left on device\")] fail, Custom(\"No space left on device\")"
    );
}

#[test]
fn failed_start_script_write_names_the_script() {
    let bond = Bond::setup(posted_config()).ok().unwrap();
    let mut world = World::fresh();
    world.fail_write = Some("/cfs/bond/test/start.sh".to_string());
    let err = run(&bond, &mut world).err().unwrap();
    assert_eq!(
        err.debug_text(),
        "E10004_WRITE_FILE(\"/cfs/bond/test/start.sh\", Custom(\"No space left on device\"))"
    );
}

#[test]
fn chmod_output_is_chmod_fail() {
    let bond = Bond::setup(posted_config()).ok().unwrap();
    let mut world = World::fresh();
    world.chmod_output = "denied".to_string();
    let err = run(&bond, &mut world).err().unwrap();
    assert_eq!(err.to_string(), "10007: chmod fail denied");
}

fn step_to(bond: &Bond, events: Vec<Event>) -> (cubefs_bond::startup::Startup, Next) {
    let (mut startup, _) = bond.startup();
    let mut last = None;
    for e in events {
        last = Some(startup.step(bond, e));
    }
    (startup, last.unwrap())
}

#[test]
fn serialisation_failure_is_serde_error() {
    let bond = Bond::setup(posted_config()).ok().unwrap();
    let events = vec![
        text("0"),
        Event::Flag(true),
        Event::Flag(true),
        Event::Serialized(Err(SerdeFailure { object_debug: "cfg".to_string(), error_debug: "Error(\"x\")".to_string() })),
    ];
    match step_to(&bond, events).1 {
        Next::Finished(Err(e)) => {
            assert_eq!(e.to_string(), "10002: serde objet[\"serde fail for object: cfg\"] fail, Error(\"x\")");
        }
        _ => panic!("expected a serde error"),
    }
}

#[test]
fn existing_file_in_place_of_directory_is_mkdirs_error() {
    let bond = Bond::setup(posted_config()).ok().unwrap();
    let (_, next) = step_to(&bond, vec![text("0"), Event::Flag(true), Event::Flag(false)]);
    match next {
        Next::Finished(Err(e)) => {
            assert_eq!(e.to_string(), "10003: mkdirs needs dir, but file[\"/cfs/bond/test\"]");
        }
        _ => panic!("expected a mkdirs error"),
    }
}

#[test]
fn chmod_non_utf8_output_and_spawn_failure() {
    let bond = Bond::setup(posted_config()).ok().unwrap();
    let to_chmod = vec![text("0"), Event::Flag(true), Event::Flag(true), Event::Serialized(Ok("{}".to_string())), Event::Io(Ok(())), Event::Flag(true), Event::Flag(true), Event::Io(Ok(()))];
    let mut events = to_chmod.clone_events();
    events.push(Event::Ran(Ok(ProgramStdout::NotUtf8(DecodeError { display: "invalid utf-8".to_string(), debug: "FromUtf8Error".to_string() }))));
    match step_to(&bond, events).1 {
        Next::Finished(Err(e)) => assert_eq!(e.to_string(), "10005: FromUtf8Error, FromUtf8Error"),
        _ => panic!("expected a decoding error"),
    }
    let mut events = to_chmod.clone_events();
    events.push(Event::Ran(Err(io_error("not found"))));
    match step_to(&bond, events).1 {
        Next::Finished(Err(e)) => assert_eq!(
            e.to_string(),
            "10006: exec program[chmod +x /cfs/bond/test/start.sh] fail, Custom(\"not found\")"
        ),
        _ => panic!("expected an exec error"),
    }
    let mut events = to_chmod.clone_events();
    events.extend(vec![text(""), Event::Flag(true), Event::Flag(true), Event::Flag(true), Event::Flag(true), Event::Spawned(Err(io_error("busy")))]);
    let (startup, next) = step_to(&bond, events);
    assert!(startup.current_phase() == StartupPhase::Done);
    match next {
        Next::Finished(Err(e)) => assert_eq!(
            e.debug_text(),
            "E10006_EXEC_PROGRAM(\"/cfs/bond/test/start.sh\", Custom(\"busy\"))"
        ),
        _ => panic!("expected an exec error"),
    }
}

trait CloneEvents {
    fn clone_events(&self) -> Vec<Event>;
}

impl CloneEvents for Vec<Event> {
    fn clone_events(&self) -> Vec<Event> {
        self.iter()
            .map(|e| match e {
                Event::Ran(Ok(ProgramStdout::Text(t))) => Event::Ran(Ok(ProgramStdout::Text(t.clone()))),
                Event::Flag(b) => Event::Flag(*b),
                Event::Io(Ok(())) => Event::Io(Ok(())),
                Event::Serialized(Ok(j)) => Event::Serialized(Ok(j.clone())),
                _ => panic!("not used here"),
            })
            .collect()
    }
}

#[test]
fn setup_of_completed_config_changes_nothing() {
    let bond = Bond::setup(posted_config()).ok().unwrap();
    let c = bond.config();
    let mut again = ClientConfig::default();
    again.volName = c.volName.clone();
    again.masterAddr = c.masterAddr.clone();
    again.mountPoint = c.mountPoint.clone();
    again.logDir = c.logDir.clone();
    again.logLevel = c.logLevel.clone();
    again.owner = c.owner.clone();
    again.profPort = c.profPort.clone();
    again.exporterPort = c.exporterPort.clone();
    let twice = Bond::setup(again).ok().unwrap();
    assert_eq!(twice.volume_name(), bond.volume_name());
    assert_eq!(twice.config().mountPoint, c.mountPoint);
    assert_eq!(twice.config().logDir, c.logDir);
    assert_eq!(twice.config().logLevel, c.logLevel);
    assert_eq!(twice.config().owner, c.owner);
}

#[test]
fn every_failure_ends_the_startup() {
    // a failure at each operation of a fresh host ends the run with an error
    for fail_at in ["/cfs/bond/test", "/cfs/bond/test/log", "/cfs/mount/test"] {
        let bond = Bond::setup(posted_config()).ok().unwrap();
        let mut world = World::fresh();
        world.fail_create = Some(fail_at.to_string());
        assert!(run(&bond, &mut world).is_err());
        assert!(!world.log.iter().any(|l| l.starts_with("spawn")));
    }
}

#[test]
fn write_config_file_alone() {
    let bond = Bond::setup(posted_config()).ok().unwrap();
    let (mut part, first) = bond.write_config_file();
    match first {
        Action::PathExists(p) => assert_eq!(p, "/cfs/bond/test"),
        _ => panic!("expected the directory to be checked"),
    }
    assert!(matches!(part.step(&bond, Event::Flag(true)), PartNext::Perform(Action::PathIsDir(_))));
    assert!(matches!(part.step(&bond, Event::Flag(true)), PartNext::Perform(Action::SerializeConfig)));
    match part.step(&bond, Event::Serialized(Ok("{\"volName\": \"test\"}".to_string()))) {
        PartNext::Perform(Action::WriteFile { path, content }) => {
            assert_eq!(path, "/cfs/bond/test/config.json");
            assert_eq!(content, "{\"volName\": \"test\"}");
        }
        _ => panic!("expected the file to be written"),
    }
    assert!(matches!(part.step(&bond, Event::Io(Ok(()))), PartNext::Finished(Ok(()))));
}

#[test]
fn write_start_file_alone() {
    let bond = Bond::setup(posted_config()).ok().unwrap();
    let (mut part, _) = bond.write_start_file();
    assert!(matches!(part.step(&bond, Event::Flag(true)), PartNext::Perform(Action::PathIsDir(_))));
    match part.step(&bond, Event::Flag(true)) {
        PartNext::Perform(Action::WriteFile { path, content }) => {
            assert_eq!(path, "/cfs/bond/test/start.sh");
            assert_eq!(
                content,
                "#!/usr/bin/env bash\ncd test\nnohup /cfs/client/cfs-client -f -c /cfs/bond/test/config.json 2>&1 &\n"
            );
        }
        _ => panic!("expected the script to be written"),
    }
    match part.step(&bond, Event::Io(Ok(()))) {
        PartNext::Perform(Action::Run { program, args }) => {
            assert_eq!(program, "chmod");
            assert_eq!(args, vec!["+x".to_string(), "/cfs/bond/test/start.sh".to_string()]);
        }
        _ => panic!("expected chmod"),
    }
    assert!(matches!(part.step(&bond, text("")), PartNext::Finished(Ok(()))));
}
