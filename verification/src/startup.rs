//! Starting a volume's client, as state machines: the library decides, the
//! caller performs each [`Action`] and reports its [`Event`]. Writing the
//! configuration file and writing the start script are parts of the start-up
//! that can also run on their own.
use vstd::prelude::*;
use vstd::string::*;
use crate::bond::Bond;
use crate::errors::{ErrorCode, ErrorCodeView};
use crate::io::{
    count_differs, count_shows_process, strings_view, Action, ActionView, Event, EventView,
    ProgramStdout, ProgramStdoutView,
};
use crate::sys::{parent_of, path_parent};
use crate::text::{decimal, u32_to_decimal};
use crate::utils::{
    bond_shell, config_file_path, gen_config_file, gen_log_path, gen_mount_path,
    gen_start_file, gen_start_shell_content, get_bond_shell, log_path, mkdirs_accepts,
    mkdirs_after, mkdirs_step, mount_path, start_file_path, start_shell_content, DirStage,
    MkdirsNext, MkdirsNextView,
};

verus! {

/// How long the client is given to fail before it is checked again.
pub const START_WAIT_MILLIS: u64 = 1500;

/// What a part of the start-up asks for next, or how it ended.
pub enum PartNext {
    Perform(Action),
    Finished(Result<(), ErrorCode>),
}

pub enum PartNextView {
    Perform(ActionView),
    Finished(Result<(), ErrorCodeView>),
}

impl View for PartNext {
    type V = PartNextView;

    open spec fn view(&self) -> PartNextView {
        match self {
            PartNext::Perform(a) => PartNextView::Perform(a@),
            PartNext::Finished(Ok(())) => PartNextView::Finished(Ok(())),
            PartNext::Finished(Err(e)) => PartNextView::Finished(Err(e@)),
        }
    }
}

/// What the start-up asks for next: an action, or nothing more, with its answer.
pub enum Next {
    Perform(Action),
    Finished(Result<String, ErrorCode>),
}

pub enum NextView {
    Perform(ActionView),
    Finished(Result<Seq<char>, ErrorCodeView>),
}

impl View for Next {
    type V = NextView;

    open spec fn view(&self) -> NextView {
        match self {
            Next::Perform(a) => NextView::Perform(a@),
            Next::Finished(Ok(s)) => NextView::Finished(Ok(s@)),
            Next::Finished(Err(e)) => NextView::Finished(Err(e@)),
        }
    }
}

// ---------------------------------------------------------------------------
// Writing the configuration file
// ---------------------------------------------------------------------------

/// The directory of a volume's configuration file.
pub open spec fn config_dir(volume: Seq<char>) -> Option<Seq<char>> {
    path_parent(config_file_path(volume))
}

/// Where writing the configuration file has got to.
#[derive(Clone, Copy, PartialEq, Eq, Structural)]
pub enum ConfigWritePhase {
    /// Making sure that the file's directory exists.
    Dir(DirStage),
    /// Asked to serialise the configuration.
    Serializing,
    /// Asked to write the file.
    Writing,
    Done,
}

/// Writing a volume's configuration file.
pub struct ConfigWrite {
    phase: ConfigWritePhase,
}

/// The first request of writing the configuration file: make sure its
/// directory exists, or, when the path has none, serialise the configuration.
pub open spec fn config_write_first(volume: Seq<char>) -> (ConfigWritePhase, ActionView) {
    match config_dir(volume) {
        Some(dir) => (ConfigWritePhase::Dir(DirStage::Exists), ActionView::PathExists(dir)),
        None => (ConfigWritePhase::Serializing, ActionView::SerializeConfig),
    }
}

pub open spec fn config_write_accepts(phase: ConfigWritePhase, event: EventView) -> bool {
    match phase {
        ConfigWritePhase::Dir(stage) => mkdirs_accepts(stage, event),
        ConfigWritePhase::Serializing => event is Serialized,
        ConfigWritePhase::Writing => event is Io,
        ConfigWritePhase::Done => false,
    }
}

/// The next phase and request of writing the configuration file of `volume`.
pub open spec fn config_write_next(volume: Seq<char>, phase: ConfigWritePhase, event: EventView) -> (
    ConfigWritePhase,
    PartNextView,
) {
    match (phase, event) {
        (ConfigWritePhase::Dir(stage), _) => match config_dir(volume) {
            Some(dir) => match mkdirs_after(dir, stage, event) {
                MkdirsNextView::Made => (
                    ConfigWritePhase::Serializing,
                    PartNextView::Perform(ActionView::SerializeConfig),
                ),
                MkdirsNextView::Ask(next, a) => (ConfigWritePhase::Dir(next), PartNextView::Perform(a)),
                MkdirsNextView::Failed(e) => (ConfigWritePhase::Done, PartNextView::Finished(Err(e))),
            },
            // not reached: the phase is only entered for a file with a directory
            None => (ConfigWritePhase::Serializing, PartNextView::Perform(ActionView::SerializeConfig)),
        },
        (ConfigWritePhase::Serializing, EventView::Serialized(r)) => match r {
            Ok(json) => (
                ConfigWritePhase::Writing,
                PartNextView::Perform(
                    ActionView::WriteFile { path: config_file_path(volume), content: json },
                ),
            ),
            Err((object, e)) => (
                ConfigWritePhase::Done,
                PartNextView::Finished(
                    Err(ErrorCodeView::E10002_SERDE("serde fail for object: "@ + object, e)),
                ),
            ),
        },
        (ConfigWritePhase::Writing, EventView::Io(r)) => match r {
            Ok(()) => (ConfigWritePhase::Done, PartNextView::Finished(Ok(()))),
            Err(e) => (
                ConfigWritePhase::Done,
                PartNextView::Finished(
                    Err(
                        ErrorCodeView::E10004_WRITE_FILE(
                            "fail: write body to path file fail, "@ + e.debug,
                            e,
                        ),
                    ),
                ),
            ),
        },
        _ => (phase, PartNextView::Finished(Ok(()))),
    }
}

// ---------------------------------------------------------------------------
// Writing the start script
// ---------------------------------------------------------------------------

/// The directory of a volume's start script.
pub open spec fn start_dir(volume: Seq<char>) -> Option<Seq<char>> {
    path_parent(start_file_path(volume))
}

/// Where writing the start script has got to.
#[derive(Clone, Copy, PartialEq, Eq, Structural)]
pub enum StartWritePhase {
    /// Making sure that the script's directory exists.
    Dir(DirStage),
    /// Asked to write the script.
    Writing,
    /// Asked to make the script executable.
    MakingExecutable,
    Done,
}

/// Writing a volume's start script.
pub struct StartWrite {
    phase: StartWritePhase,
}

/// Writes the start script of `volume`.
pub open spec fn write_script(volume: Seq<char>) -> ActionView {
    ActionView::WriteFile { path: start_file_path(volume), content: start_shell_content(volume) }
}

/// The first request of writing the start script: make sure its directory
/// exists, or, when the path has none, write it.
pub open spec fn start_write_first(volume: Seq<char>) -> (StartWritePhase, ActionView) {
    match start_dir(volume) {
        Some(dir) => (StartWritePhase::Dir(DirStage::Exists), ActionView::PathExists(dir)),
        None => (StartWritePhase::Writing, write_script(volume)),
    }
}

pub open spec fn start_write_accepts(phase: StartWritePhase, event: EventView) -> bool {
    match phase {
        StartWritePhase::Dir(stage) => mkdirs_accepts(stage, event),
        StartWritePhase::Writing => event is Io,
        StartWritePhase::MakingExecutable => event is Ran,
        StartWritePhase::Done => false,
    }
}

/// The next phase and request of writing the start script of `volume`: the
/// script is written, then made executable with `chmod +x`, which must print
/// nothing.
pub open spec fn start_write_next(volume: Seq<char>, phase: StartWritePhase, event: EventView) -> (
    StartWritePhase,
    PartNextView,
) {
    match (phase, event) {
        (StartWritePhase::Dir(stage), _) => match start_dir(volume) {
            Some(dir) => match mkdirs_after(dir, stage, event) {
                MkdirsNextView::Made => (
                    StartWritePhase::Writing,
                    PartNextView::Perform(write_script(volume)),
                ),
                MkdirsNextView::Ask(next, a) => (StartWritePhase::Dir(next), PartNextView::Perform(a)),
                MkdirsNextView::Failed(e) => (StartWritePhase::Done, PartNextView::Finished(Err(e))),
            },
            // not reached: the phase is only entered for a file with a directory
            None => (StartWritePhase::Writing, PartNextView::Perform(write_script(volume))),
        },
        (StartWritePhase::Writing, EventView::Io(r)) => match r {
            Ok(()) => (
                StartWritePhase::MakingExecutable,
                PartNextView::Perform(
                    ActionView::Run {
                        program: "chmod"@,
                        args: seq!["+x"@, start_file_path(volume)],
                    },
                ),
            ),
            Err(e) => (
                StartWritePhase::Done,
                PartNextView::Finished(
                    Err(ErrorCodeView::E10004_WRITE_FILE(start_file_path(volume), e)),
                ),
            ),
        },
        (StartWritePhase::MakingExecutable, EventView::Ran(r)) => (
            StartWritePhase::Done,
            PartNextView::Finished(
                match r {
                    Ok(ProgramStdoutView::Text(out)) => if out.len() == 0 {
                        Ok(())
                    } else {
                        Err(ErrorCodeView::E10007_CHMOD_FAIL(out))
                    },
                    Ok(ProgramStdoutView::NotUtf8(e)) => Err(ErrorCodeView::E10005(e.debug)),
                    Err(e) => Err(
                        ErrorCodeView::E10006_EXEC_PROGRAM("chmod +x "@ + start_file_path(volume), e),
                    ),
                },
            ),
        ),
        _ => (phase, PartNextView::Finished(Ok(()))),
    }
}

// ---------------------------------------------------------------------------
// The whole start-up
// ---------------------------------------------------------------------------

/// Where the start-up has got to, that is, which [`Event`] it waits for.
#[derive(Clone, Copy, PartialEq, Eq, Structural)]
pub enum StartupPhase {
    /// Asked whether the client already runs.
    CheckingReady,
    /// Writing the configuration file.
    WritingConfig(ConfigWritePhase),
    /// Writing the start script.
    WritingStart(StartWritePhase),
    /// Making sure the log directory exists.
    LogDir(DirStage),
    /// Making sure the mount point exists.
    MountDir(DirStage),
    /// Asked to start the start script.
    Spawning,
    /// Asked to wait for the started process.
    Sleeping(u32),
    /// Asked again whether the client runs.
    Confirming(u32),
    /// Finished.
    Done,
}

/// The running start-up of a volume's client.
pub struct Startup {
    phase: StartupPhase,
}

/// Asks whether the client of `volume` runs: `/bin/sh -c <bond_shell>`.
pub open spec fn ready_check(volume: Seq<char>) -> ActionView {
    ActionView::Run { program: "/bin/sh"@, args: seq!["-c"@, bond_shell(volume)] }
}

pub open spec fn finish(result: Result<Seq<char>, ErrorCodeView>) -> (StartupPhase, NextView) {
    (StartupPhase::Done, NextView::Finished(result))
}

/// The events that `phase` waits for.
pub open spec fn accepts(phase: StartupPhase, event: EventView) -> bool {
    match phase {
        StartupPhase::CheckingReady => event is Ran,
        StartupPhase::WritingConfig(p) => config_write_accepts(p, event),
        StartupPhase::WritingStart(p) => start_write_accepts(p, event),
        StartupPhase::LogDir(stage) => mkdirs_accepts(stage, event),
        StartupPhase::MountDir(stage) => mkdirs_accepts(stage, event),
        StartupPhase::Spawning => event is Spawned,
        StartupPhase::Sleeping(_) => event is Slept,
        StartupPhase::Confirming(_) => event is Ran,
        StartupPhase::Done => false,
    }
}

/// The next phase and request of the start-up of `volume` in `phase` on
/// `event`: the start-up checks whether the client already runs, writes the
/// configuration file and the start script, makes the log directory and the
/// mount point, starts the script, waits and checks again.
pub open spec fn startup_next(volume: Seq<char>, phase: StartupPhase, event: EventView) -> (
    StartupPhase,
    NextView,
) {
    match (phase, event) {
        (StartupPhase::CheckingReady, EventView::Ran(r)) => if count_shows_process(r, "0"@) {
            finish(Ok("OK"@))
        } else {
            let (p, a) = config_write_first(volume);
            (StartupPhase::WritingConfig(p), NextView::Perform(a))
        },
        (StartupPhase::WritingConfig(p), _) => {
            let (p2, n) = config_write_next(volume, p, event);
            match n {
                PartNextView::Perform(a) => (StartupPhase::WritingConfig(p2), NextView::Perform(a)),
                PartNextView::Finished(Err(e)) => finish(Err(e)),
                PartNextView::Finished(Ok(())) => {
                    let (q, a) = start_write_first(volume);
                    (StartupPhase::WritingStart(q), NextView::Perform(a))
                },
            }
        },
        (StartupPhase::WritingStart(p), _) => {
            let (p2, n) = start_write_next(volume, p, event);
            match n {
                PartNextView::Perform(a) => (StartupPhase::WritingStart(p2), NextView::Perform(a)),
                PartNextView::Finished(Err(e)) => finish(Err(e)),
                PartNextView::Finished(Ok(())) => (
                    StartupPhase::LogDir(DirStage::Exists),
                    NextView::Perform(ActionView::PathExists(log_path(volume))),
                ),
            }
        },
        (StartupPhase::LogDir(stage), _) => match mkdirs_after(log_path(volume), stage, event) {
            MkdirsNextView::Made => (
                StartupPhase::MountDir(DirStage::Exists),
                NextView::Perform(ActionView::PathExists(mount_path(volume))),
            ),
            MkdirsNextView::Ask(next, a) => (StartupPhase::LogDir(next), NextView::Perform(a)),
            MkdirsNextView::Failed(e) => finish(Err(e)),
        },
        (StartupPhase::MountDir(stage), _) => match mkdirs_after(mount_path(volume), stage, event) {
            MkdirsNextView::Made => (
                StartupPhase::Spawning,
                NextView::Perform(
                    ActionView::Spawn { program: start_file_path(volume), args: seq![] },
                ),
            ),
            MkdirsNextView::Ask(next, a) => (StartupPhase::MountDir(next), NextView::Perform(a)),
            MkdirsNextView::Failed(e) => finish(Err(e)),
        },
        (StartupPhase::Spawning, EventView::Spawned(r)) => match r {
            Ok(pid) => (
                StartupPhase::Sleeping(pid),
                NextView::Perform(ActionView::Sleep(START_WAIT_MILLIS)),
            ),
            Err(e) => finish(Err(ErrorCodeView::E10006_EXEC_PROGRAM(start_file_path(volume), e))),
        },
        (StartupPhase::Sleeping(pid), EventView::Slept) => (
            StartupPhase::Confirming(pid),
            NextView::Perform(ready_check(volume)),
        ),
        (StartupPhase::Confirming(pid), EventView::Ran(r)) => finish(
            Ok(
                if count_shows_process(r, "0"@) {
                    "OK,"@ + decimal(pid as nat)
                } else {
                    "child process exit"@
                },
            ),
        ),
        _ => (phase, NextView::Finished(Ok(Seq::empty()))),
    }
}

fn args_of(a: &str, b: &str) -> (res: Vec<String>)
    ensures
        strings_view(res@) == seq![a@, b@],
{
    let mut v: Vec<String> = Vec::new();
    v.push(a.to_owned());
    v.push(b.to_owned());
    assert(strings_view(v@) =~= seq![a@, b@]);
    v
}

fn ready_check_action(volume: &str) -> (res: Action)
    ensures
        res@ == ready_check(volume@),
{
    let shell = get_bond_shell(volume);
    Action::Run { program: "/bin/sh".to_owned(), args: args_of("-c", shell.as_str()) }
}

fn exec_config_dir(volume: &str) -> (res: Option<String>)
    ensures
        match res {
            Some(d) => config_dir(volume@) == Some(d@),
            None => config_dir(volume@) is None,
        },
{
    parent_of(gen_config_file(volume).as_str())
}

fn exec_start_dir(volume: &str) -> (res: Option<String>)
    ensures
        match res {
            Some(d) => start_dir(volume@) == Some(d@),
            None => start_dir(volume@) is None,
        },
{
    parent_of(gen_start_file(volume).as_str())
}

fn config_write_begin(volume: &str) -> (res: (ConfigWritePhase, Action))
    ensures
        (res.0, res.1@) == config_write_first(volume@),
{
    match exec_config_dir(volume) {
        Some(dir) => (ConfigWritePhase::Dir(DirStage::Exists), Action::PathExists(dir)),
        None => (ConfigWritePhase::Serializing, Action::SerializeConfig),
    }
}

fn config_write_step(volume: &str, phase: ConfigWritePhase, event: Event) -> (res: (ConfigWritePhase, PartNext))
    requires
        config_write_accepts(phase, event@),
    ensures
        (res.0, res.1@) == config_write_next(volume@, phase, event@),
{
    match (phase, event) {
        (ConfigWritePhase::Dir(stage), event) => match exec_config_dir(volume) {
            Some(dir) => match mkdirs_step(dir, stage, event) {
                MkdirsNext::Made => (ConfigWritePhase::Serializing, PartNext::Perform(Action::SerializeConfig)),
                MkdirsNext::Ask(next, a) => (ConfigWritePhase::Dir(next), PartNext::Perform(a)),
                MkdirsNext::Failed(e) => (ConfigWritePhase::Done, PartNext::Finished(Err(e))),
            },
            None => (ConfigWritePhase::Serializing, PartNext::Perform(Action::SerializeConfig)),
        },
        (ConfigWritePhase::Serializing, Event::Serialized(r)) => match r {
            Ok(json) => (
                ConfigWritePhase::Writing,
                PartNext::Perform(Action::WriteFile { path: gen_config_file(volume), content: json }),
            ),
            Err(f) => {
                let mut msg = "serde fail for object: ".to_owned();
                msg.append(f.object_debug.as_str());
                (ConfigWritePhase::Done, PartNext::Finished(Err(ErrorCode::E10002_SERDE(msg, f.error_debug))))
            },
        },
        (ConfigWritePhase::Writing, Event::Io(r)) => match r {
            Ok(()) => (ConfigWritePhase::Done, PartNext::Finished(Ok(()))),
            Err(e) => {
                let mut msg = "fail: write body to path file fail, ".to_owned();
                msg.append(e.debug.as_str());
                (ConfigWritePhase::Done, PartNext::Finished(Err(ErrorCode::E10004_WRITE_FILE(msg, e))))
            },
        },
        (phase, _) => (phase, PartNext::Finished(Ok(()))),
    }
}

fn write_script_action(volume: &str) -> (res: Action)
    ensures
        res@ == write_script(volume@),
{
    Action::WriteFile { path: gen_start_file(volume), content: gen_start_shell_content(volume) }
}

fn start_write_begin(volume: &str) -> (res: (StartWritePhase, Action))
    ensures
        (res.0, res.1@) == start_write_first(volume@),
{
    match exec_start_dir(volume) {
        Some(dir) => (StartWritePhase::Dir(DirStage::Exists), Action::PathExists(dir)),
        None => (StartWritePhase::Writing, write_script_action(volume)),
    }
}

fn start_write_step(volume: &str, phase: StartWritePhase, event: Event) -> (res: (StartWritePhase, PartNext))
    requires
        start_write_accepts(phase, event@),
    ensures
        (res.0, res.1@) == start_write_next(volume@, phase, event@),
{
    match (phase, event) {
        (StartWritePhase::Dir(stage), event) => match exec_start_dir(volume) {
            Some(dir) => match mkdirs_step(dir, stage, event) {
                MkdirsNext::Made => (StartWritePhase::Writing, PartNext::Perform(write_script_action(volume))),
                MkdirsNext::Ask(next, a) => (StartWritePhase::Dir(next), PartNext::Perform(a)),
                MkdirsNext::Failed(e) => (StartWritePhase::Done, PartNext::Finished(Err(e))),
            },
            None => (StartWritePhase::Writing, PartNext::Perform(write_script_action(volume))),
        },
        (StartWritePhase::Writing, Event::Io(r)) => match r {
            Ok(()) => {
                let start_file = gen_start_file(volume);
                (
                    StartWritePhase::MakingExecutable,
                    PartNext::Perform(
                        Action::Run { program: "chmod".to_owned(), args: args_of("+x", start_file.as_str()) },
                    ),
                )
            },
            Err(e) => (
                StartWritePhase::Done,
                PartNext::Finished(Err(ErrorCode::E10004_WRITE_FILE(gen_start_file(volume), e))),
            ),
        },
        (StartWritePhase::MakingExecutable, Event::Ran(r)) => {
            let outcome = match r {
                Ok(ProgramStdout::Text(out)) => {
                    if out.as_str().is_empty() {
                        Ok(())
                    } else {
                        Err(ErrorCode::E10007_CHMOD_FAIL(out))
                    }
                },
                Ok(ProgramStdout::NotUtf8(e)) => Err(ErrorCode::E10005(e.debug)),
                Err(e) => {
                    let mut msg = "chmod +x ".to_owned();
                    msg.append(gen_start_file(volume).as_str());
                    Err(ErrorCode::E10006_EXEC_PROGRAM(msg, e))
                },
            };
            (StartWritePhase::Done, PartNext::Finished(outcome))
        },
        (phase, _) => (phase, PartNext::Finished(Ok(()))),
    }
}

fn finished(result: Result<String, ErrorCode>) -> (res: (StartupPhase, Next))
    ensures
        res.0 == StartupPhase::Done,
        res.1 == Next::Finished(result),
{
    (StartupPhase::Done, Next::Finished(result))
}

impl ConfigWrite {
    pub closed spec fn phase(self) -> ConfigWritePhase {
        self.phase
    }

    /// Takes writing the configuration file of `bond` one step further on
    /// `event`, the outcome of the action it asked for last.
    pub fn step(&mut self, bond: &Bond, event: Event) -> (next: PartNext)
        requires
            config_write_accepts(old(self).phase(), event@),
        ensures
            (final(self).phase(), next@) == config_write_next(bond.volume(), old(self).phase(), event@),
    {
        let (phase, next) = config_write_step(bond.volume_name(), self.phase, event);
        self.phase = phase;
        next
    }
}

impl StartWrite {
    pub closed spec fn phase(self) -> StartWritePhase {
        self.phase
    }

    /// Takes writing the start script of `bond` one step further on `event`,
    /// the outcome of the action it asked for last.
    pub fn step(&mut self, bond: &Bond, event: Event) -> (next: PartNext)
        requires
            start_write_accepts(old(self).phase(), event@),
        ensures
            (final(self).phase(), next@) == start_write_next(bond.volume(), old(self).phase(), event@),
    {
        let (phase, next) = start_write_step(bond.volume_name(), self.phase, event);
        self.phase = phase;
        next
    }
}

impl Startup {
    pub closed spec fn phase(self) -> StartupPhase {
        self.phase
    }

    pub fn current_phase(&self) -> (res: StartupPhase)
        ensures
            res == self.phase(),
    {
        self.phase
    }

    /// Whether `event` is the kind of outcome that the start-up waits for.
    pub fn accepts_event(&self, event: &Event) -> (res: bool)
        ensures
            res == accepts(self.phase(), event@),
    {
        let is_ran = matches!(event, Event::Ran(_));
        let is_flag = matches!(event, Event::Flag(_));
        let is_io = matches!(event, Event::Io(_));
        let dir_event = |stage: DirStage| -> (r: bool)
            ensures r == mkdirs_accepts(stage, event@)
        {
            match stage {
                DirStage::Exists => is_flag,
                DirStage::IsDir => is_flag,
                DirStage::Create => is_io,
            }
        };
        match self.phase {
            StartupPhase::CheckingReady => is_ran,
            StartupPhase::WritingConfig(p) => match p {
                ConfigWritePhase::Dir(stage) => dir_event(stage),
                ConfigWritePhase::Serializing => matches!(event, Event::Serialized(_)),
                ConfigWritePhase::Writing => is_io,
                ConfigWritePhase::Done => false,
            },
            StartupPhase::WritingStart(p) => match p {
                StartWritePhase::Dir(stage) => dir_event(stage),
                StartWritePhase::Writing => is_io,
                StartWritePhase::MakingExecutable => is_ran,
                StartWritePhase::Done => false,
            },
            StartupPhase::LogDir(stage) => dir_event(stage),
            StartupPhase::MountDir(stage) => dir_event(stage),
            StartupPhase::Spawning => matches!(event, Event::Spawned(_)),
            StartupPhase::Sleeping(_) => matches!(event, Event::Slept),
            StartupPhase::Confirming(_) => is_ran,
            StartupPhase::Done => false,
        }
    }

    /// Whether the start-up has finished.
    pub fn is_done(&self) -> (res: bool)
        ensures
            res == (self.phase() == StartupPhase::Done),
    {
        self.phase == StartupPhase::Done
    }

    /// Takes the start-up of `bond` one step further on `event`, the outcome of
    /// the action it asked for last.
    pub fn step(&mut self, bond: &Bond, event: Event) -> (next: Next)
        requires
            accepts(old(self).phase(), event@),
        ensures
            (final(self).phase(), next@) == startup_next(bond.volume(), old(self).phase(), event@),
    {
        let volume = bond.volume_name();
        let (phase, next) = match (self.phase, event) {
            (StartupPhase::CheckingReady, Event::Ran(r)) => {
                if count_differs(&r, "0") {
                    finished(Ok("OK".to_owned()))
                } else {
                    let (p, a) = config_write_begin(volume);
                    (StartupPhase::WritingConfig(p), Next::Perform(a))
                }
            },
            (StartupPhase::WritingConfig(p), event) => match config_write_step(volume, p, event) {
                (p2, PartNext::Perform(a)) => (StartupPhase::WritingConfig(p2), Next::Perform(a)),
                (_, PartNext::Finished(Err(e))) => finished(Err(e)),
                (_, PartNext::Finished(Ok(()))) => {
                    let (q, a) = start_write_begin(volume);
                    (StartupPhase::WritingStart(q), Next::Perform(a))
                },
            },
            (StartupPhase::WritingStart(p), event) => match start_write_step(volume, p, event) {
                (p2, PartNext::Perform(a)) => (StartupPhase::WritingStart(p2), Next::Perform(a)),
                (_, PartNext::Finished(Err(e))) => finished(Err(e)),
                (_, PartNext::Finished(Ok(()))) => (
                    StartupPhase::LogDir(DirStage::Exists),
                    Next::Perform(Action::PathExists(gen_log_path(volume))),
                ),
            },
            (StartupPhase::LogDir(stage), event) => match mkdirs_step(gen_log_path(volume), stage, event) {
                MkdirsNext::Made => (
                    StartupPhase::MountDir(DirStage::Exists),
                    Next::Perform(Action::PathExists(gen_mount_path(volume))),
                ),
                MkdirsNext::Ask(next, a) => (StartupPhase::LogDir(next), Next::Perform(a)),
                MkdirsNext::Failed(e) => finished(Err(e)),
            },
            (StartupPhase::MountDir(stage), event) => match mkdirs_step(gen_mount_path(volume), stage, event) {
                MkdirsNext::Made => {
                    let args: Vec<String> = Vec::new();
                    proof {
                        assert(strings_view(args@) =~= Seq::<Seq<char>>::empty());
                    }
                    (StartupPhase::Spawning, Next::Perform(Action::Spawn { program: gen_start_file(volume), args }))
                },
                MkdirsNext::Ask(next, a) => (StartupPhase::MountDir(next), Next::Perform(a)),
                MkdirsNext::Failed(e) => finished(Err(e)),
            },
            (StartupPhase::Spawning, Event::Spawned(r)) => match r {
                Ok(pid) => (StartupPhase::Sleeping(pid), Next::Perform(Action::Sleep(START_WAIT_MILLIS))),
                Err(e) => finished(Err(ErrorCode::E10006_EXEC_PROGRAM(gen_start_file(volume), e))),
            },
            (StartupPhase::Sleeping(pid), Event::Slept) => (
                StartupPhase::Confirming(pid),
                Next::Perform(ready_check_action(volume)),
            ),
            (StartupPhase::Confirming(pid), Event::Ran(r)) => {
                if count_differs(&r, "0") {
                    let mut answer = "OK,".to_owned();
                    answer.append(u32_to_decimal(pid).as_str());
                    finished(Ok(answer))
                } else {
                    finished(Ok("child process exit".to_owned()))
                }
            },
            (phase, _) => (phase, Next::Finished(Ok(String::new()))),
        };
        self.phase = phase;
        next
    }
}

impl Bond {
    /// Starts the client of this volume: the start-up first asks whether the
    /// client already runs.
    pub fn startup(&self) -> (res: (Startup, Action))
        ensures
            res.0.phase() == StartupPhase::CheckingReady,
            res.1@ == ready_check(self.volume()),
    {
        (Startup { phase: StartupPhase::CheckingReady }, ready_check_action(self.volume_name()))
    }

    /// Writes this volume's configuration file, making its directory first.
    pub fn write_config_file(&self) -> (res: (ConfigWrite, Action))
        ensures
            (res.0.phase(), res.1@) == config_write_first(self.volume()),
    {
        let (phase, action) = config_write_begin(self.volume_name());
        (ConfigWrite { phase }, action)
    }

    /// Writes this volume's start script, making its directory first, and
    /// makes it executable.
    pub fn write_start_file(&self) -> (res: (StartWrite, Action))
        ensures
            (res.0.phase(), res.1@) == start_write_first(self.volume()),
    {
        let (phase, action) = start_write_begin(self.volume_name());
        (StartWrite { phase }, action)
    }
}

} // verus!
