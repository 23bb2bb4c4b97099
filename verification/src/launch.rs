//! The start-up sequence of the `mount` front end and the salvo controller:
//! write the configuration, make the log and mount directories,
//! start the client, and check after a while that it still runs. Errors are
//! answered as messages.
use vstd::prelude::*;
use vstd::string::*;
use crate::io::{count_differs, count_shows_process, strings_view, Action, ActionView, Event, EventView};
use crate::startup::START_WAIT_MILLIS;
use crate::sys::{parent_of, path_parent};
use crate::text::{concat_str, decimal, u32_to_decimal};

verus! {

/// What a start-up works on: the configuration file, the directories, how the
/// client is started, and which process count means that it is gone.
pub struct LaunchPlan {
    pub config_file: String,
    pub log_path: String,
    /// The mount point to create, when the front end creates one.
    pub mount_path: Option<String>,
    /// The program started, and its arguments.
    pub program: String,
    pub args: Vec<String>,
    /// The command line named when the client cannot be started.
    pub shell: String,
    /// The process count that means the client is not running.
    pub absent: String,
    /// The serialised configuration when the library made it itself (`Ok`
    /// with the JSON, `Err` with the error's `Debug` text); `None` when the
    /// caller serialises it.
    pub config_json: Option<Result<String, String>>,
}

pub struct LaunchPlanView {
    pub config_file: Seq<char>,
    pub log_path: Seq<char>,
    pub mount_path: Option<Seq<char>>,
    pub program: Seq<char>,
    pub args: Seq<Seq<char>>,
    pub shell: Seq<char>,
    pub absent: Seq<char>,
    pub config_json: Option<Result<Seq<char>, Seq<char>>>,
}

impl View for LaunchPlan {
    type V = LaunchPlanView;

    open spec fn view(&self) -> LaunchPlanView {
        LaunchPlanView {
            config_file: self.config_file@,
            log_path: self.log_path@,
            mount_path: match self.mount_path {
                Some(m) => Some(m@),
                None => None,
            },
            program: self.program@,
            args: strings_view(self.args@),
            shell: self.shell@,
            absent: self.absent@,
            config_json: match self.config_json {
                Some(Ok(j)) => Some(Ok(j@)),
                Some(Err(e)) => Some(Err(e@)),
                None => None,
            },
        }
    }
}

/// Where writing the configuration file has got to.
#[derive(Clone, Copy, PartialEq, Eq, Structural)]
pub enum ConfigFilePhase {
    /// Asked to create the file's directory.
    MakingDir,
    /// Asked to serialise the configuration.
    Serializing,
    /// Asked to write the file.
    Writing,
    Done,
}

/// What writing the configuration file asks for next, or how it ended (with
/// the reason of a failure).
pub enum ConfigFileNext {
    Perform(Action),
    Finished(Result<(), String>),
}

pub enum ConfigFileNextView {
    Perform(ActionView),
    Finished(Result<(), Seq<char>>),
}

impl View for ConfigFileNext {
    type V = ConfigFileNextView;

    open spec fn view(&self) -> ConfigFileNextView {
        match self {
            ConfigFileNext::Perform(a) => ConfigFileNextView::Perform(a@),
            ConfigFileNext::Finished(Ok(())) => ConfigFileNextView::Finished(Ok(())),
            ConfigFileNext::Finished(Err(e)) => ConfigFileNextView::Finished(Err(e@)),
        }
    }
}

/// Writing the configuration file of a plan.
pub struct ConfigFileWrite {
    phase: ConfigFilePhase,
    plan: LaunchPlan,
}

/// Where the start-up has got to, that is, which [`Event`] it waits for.
#[derive(Clone, Copy, PartialEq, Eq, Structural)]
pub enum LaunchPhase {
    WritingConfig(ConfigFilePhase),
    MakingLogDir,
    MakingMountDir,
    Spawning,
    Sleeping(u32),
    Confirming(u32),
    Done,
}

/// What the start-up asks for next: an action, or nothing more, with its answer.
pub enum LaunchNext {
    Perform(Action),
    Finished(Result<String, String>),
}

pub enum LaunchNextView {
    Perform(ActionView),
    Finished(Result<Seq<char>, Seq<char>>),
}

impl View for LaunchNext {
    type V = LaunchNextView;

    open spec fn view(&self) -> LaunchNextView {
        match self {
            LaunchNext::Perform(a) => LaunchNextView::Perform(a@),
            LaunchNext::Finished(Ok(s)) => LaunchNextView::Finished(Ok(s@)),
            LaunchNext::Finished(Err(e)) => LaunchNextView::Finished(Err(e@)),
        }
    }
}

/// A running start-up.
pub struct Launch {
    phase: LaunchPhase,
    plan: LaunchPlan,
}

/// The text, or nothing.
pub open spec fn opt_text(text: Option<Seq<char>>) -> Seq<char> {
    match text {
        Some(t) => t,
        None => Seq::empty(),
    }
}

pub open spec fn launch_finish(result: Result<Seq<char>, Seq<char>>) -> (LaunchPhase, LaunchNextView) {
    (LaunchPhase::Done, LaunchNextView::Finished(result))
}

/// The configuration is serialised next, by the caller or from the plan.
pub open spec fn to_serialize(plan: LaunchPlanView) -> (ConfigFilePhase, ConfigFileNextView) {
    match plan.config_json {
        None => (ConfigFilePhase::Serializing, ConfigFileNextView::Perform(ActionView::SerializeConfig)),
        Some(Ok(json)) => (
            ConfigFilePhase::Writing,
            ConfigFileNextView::Perform(ActionView::WriteFile { path: plan.config_file, content: json }),
        ),
        Some(Err(e)) => (
            ConfigFilePhase::Done,
            ConfigFileNextView::Finished(Err("error parsing from json to string: "@ + e)),
        ),
    }
}

/// The first request of writing the configuration file: create its
/// directory, or, when the path has none, serialise the configuration.
pub open spec fn config_file_first(plan: LaunchPlanView) -> (ConfigFilePhase, ConfigFileNextView) {
    match path_parent(plan.config_file) {
        Some(dir) => (
            ConfigFilePhase::MakingDir,
            ConfigFileNextView::Perform(ActionView::CreateDirAll(dir)),
        ),
        None => to_serialize(plan),
    }
}

pub open spec fn config_file_accepts(phase: ConfigFilePhase, event: EventView) -> bool {
    match phase {
        ConfigFilePhase::MakingDir => event is Io,
        ConfigFilePhase::Serializing => event is Serialized,
        ConfigFilePhase::Writing => event is Io,
        ConfigFilePhase::Done => false,
    }
}

/// The next phase and request of writing the configuration file.
pub open spec fn config_file_next(plan: LaunchPlanView, phase: ConfigFilePhase, event: EventView) -> (
    ConfigFilePhase,
    ConfigFileNextView,
) {
    match (phase, event) {
        (ConfigFilePhase::MakingDir, EventView::Io(r)) => match r {
            Ok(()) => to_serialize(plan),
            Err(e) => (
                ConfigFilePhase::Done,
                ConfigFileNextView::Finished(
                    Err(
                        "create config parent dir["@ + opt_text(path_parent(plan.config_file))
                            + "] fail, "@ + e.display,
                    ),
                ),
            ),
        },
        (ConfigFilePhase::Serializing, EventView::Serialized(r)) => match r {
            Ok(json) => (
                ConfigFilePhase::Writing,
                ConfigFileNextView::Perform(
                    ActionView::WriteFile { path: plan.config_file, content: json },
                ),
            ),
            Err((_, e)) => (
                ConfigFilePhase::Done,
                ConfigFileNextView::Finished(Err("error parsing from json to string: "@ + e)),
            ),
        },
        (ConfigFilePhase::Writing, EventView::Io(r)) => match r {
            Ok(()) => (ConfigFilePhase::Done, ConfigFileNextView::Finished(Ok(()))),
            Err(e) => (
                ConfigFilePhase::Done,
                ConfigFileNextView::Finished(Err("fail: write body to path file fail, "@ + e.display)),
            ),
        },
        _ => (phase, ConfigFileNextView::Finished(Ok(()))),
    }
}

/// Within the start-up: a request of writing the configuration file, its
/// failure (answered as `fail: write config to file, <reason>`), or, once it
/// is written, the log directory next.
pub open spec fn after_config_file(plan: LaunchPlanView, step: (ConfigFilePhase, ConfigFileNextView)) -> (
    LaunchPhase,
    LaunchNextView,
) {
    match step.1 {
        ConfigFileNextView::Perform(a) => (LaunchPhase::WritingConfig(step.0), LaunchNextView::Perform(a)),
        ConfigFileNextView::Finished(Err(reason)) => launch_finish(
            Err("fail: write config to file, "@ + reason),
        ),
        ConfigFileNextView::Finished(Ok(())) => (
            LaunchPhase::MakingLogDir,
            LaunchNextView::Perform(ActionView::CreateDirAll(plan.log_path)),
        ),
    }
}

/// The first request of a start-up.
pub open spec fn launch_first(plan: LaunchPlanView) -> (LaunchPhase, LaunchNextView) {
    after_config_file(plan, config_file_first(plan))
}

pub open spec fn to_spawn(plan: LaunchPlanView) -> (LaunchPhase, LaunchNextView) {
    (
        LaunchPhase::Spawning,
        LaunchNextView::Perform(ActionView::Spawn { program: plan.program, args: plan.args }),
    )
}

/// How many processes with `pid` run the client on `config_file`.
pub open spec fn pid_shell(pid: u32, config_file: Seq<char>) -> Seq<char> {
    "ps aux|grep "@ + decimal(pid as nat) + "|grep '/cfs/client/cfs-client -f -c "@ + config_file
        + "'|wc -l"@
}

pub open spec fn launch_accepts(phase: LaunchPhase, event: EventView) -> bool {
    match phase {
        LaunchPhase::WritingConfig(p) => config_file_accepts(p, event),
        LaunchPhase::MakingLogDir => event is Io,
        LaunchPhase::MakingMountDir => event is Io,
        LaunchPhase::Spawning => event is Spawned,
        LaunchPhase::Sleeping(_) => event is Slept,
        LaunchPhase::Confirming(_) => event is Ran,
        LaunchPhase::Done => false,
    }
}

/// The next phase and request of a start-up in `phase` on `event`.
pub open spec fn launch_next(plan: LaunchPlanView, phase: LaunchPhase, event: EventView) -> (
    LaunchPhase,
    LaunchNextView,
) {
    match (phase, event) {
        (LaunchPhase::WritingConfig(p), _) => after_config_file(plan, config_file_next(plan, p, event)),
        (LaunchPhase::MakingLogDir, EventView::Io(r)) => match r {
            Ok(()) => match plan.mount_path {
                Some(m) => (
                    LaunchPhase::MakingMountDir,
                    LaunchNextView::Perform(ActionView::CreateDirAll(m)),
                ),
                None => to_spawn(plan),
            },
            Err(e) => launch_finish(
                Err("create log dir["@ + plan.log_path + "] fail, "@ + e.display),
            ),
        },
        (LaunchPhase::MakingMountDir, EventView::Io(r)) => match r {
            Ok(()) => to_spawn(plan),
            Err(e) => launch_finish(
                Err("create mount dir["@ + opt_text(plan.mount_path) + "] fail, "@ + e.display),
            ),
        },
        (LaunchPhase::Spawning, EventView::Spawned(r)) => match r {
            Ok(pid) => (
                LaunchPhase::Sleeping(pid),
                LaunchNextView::Perform(ActionView::Sleep(START_WAIT_MILLIS)),
            ),
            Err(e) => launch_finish(
                Err("fail: start["@ + plan.shell + "] fail, output:"@ + e.display + "\n"@),
            ),
        },
        (LaunchPhase::Sleeping(pid), EventView::Slept) => (
            LaunchPhase::Confirming(pid),
            LaunchNextView::Perform(
                ActionView::Run {
                    program: "/bin/sh"@,
                    args: seq!["-c"@, pid_shell(pid, plan.config_file)],
                },
            ),
        ),
        (LaunchPhase::Confirming(pid), EventView::Ran(r)) => launch_finish(
            Ok(
                if count_shows_process(r, plan.absent) {
                    decimal(pid as nat)
                } else {
                    "fail: child process exit"@
                },
            ),
        ),
        _ => (phase, LaunchNextView::Finished(Ok(Seq::empty()))),
    }
}

fn exec_pid_shell(pid: u32, config_file: &str) -> (res: String)
    ensures
        res@ == pid_shell(pid, config_file@),
{
    let mut s = "ps aux|grep ".to_owned();
    s.append(u32_to_decimal(pid).as_str());
    s.append("|grep '/cfs/client/cfs-client -f -c ");
    s.append(config_file);
    s.append("'|wc -l");
    s
}

fn clone_strings(v: &Vec<String>) -> (res: Vec<String>)
    ensures
        strings_view(res@) == strings_view(v@),
{
    let mut out: Vec<String> = Vec::new();
    let mut i: usize = 0;
    while i < v.len()
        invariant
            i <= v@.len(),
            out@.len() == i,
            forall|j: int| 0 <= j < i ==> #[trigger] out@[j]@ == v@[j]@,
        decreases v@.len() - i,
    {
        out.push(v[i].clone());
        i = i + 1;
    }
    assert(strings_view(out@) =~= strings_view(v@));
    out
}

fn exec_to_serialize(plan: &LaunchPlan) -> (res: (ConfigFilePhase, ConfigFileNext))
    ensures
        (res.0, res.1@) == to_serialize(plan@),
{
    match &plan.config_json {
        None => (ConfigFilePhase::Serializing, ConfigFileNext::Perform(Action::SerializeConfig)),
        Some(Ok(json)) => (
            ConfigFilePhase::Writing,
            ConfigFileNext::Perform(
                Action::WriteFile { path: plan.config_file.clone(), content: json.clone() },
            ),
        ),
        Some(Err(e)) => (
            ConfigFilePhase::Done,
            ConfigFileNext::Finished(Err(concat_str("error parsing from json to string: ", e.as_str()))),
        ),
    }
}

fn config_file_begin(plan: &LaunchPlan) -> (res: (ConfigFilePhase, ConfigFileNext))
    ensures
        (res.0, res.1@) == config_file_first(plan@),
{
    match parent_of(plan.config_file.as_str()) {
        Some(dir) => (ConfigFilePhase::MakingDir, ConfigFileNext::Perform(Action::CreateDirAll(dir))),
        None => exec_to_serialize(plan),
    }
}

fn config_file_step(plan: &LaunchPlan, phase: ConfigFilePhase, event: Event) -> (res: (ConfigFilePhase, ConfigFileNext))
    requires
        config_file_accepts(phase, event@),
    ensures
        (res.0, res.1@) == config_file_next(plan@, phase, event@),
{
    match (phase, event) {
        (ConfigFilePhase::MakingDir, Event::Io(r)) => match r {
            Ok(()) => exec_to_serialize(plan),
            Err(e) => {
                let dir = match parent_of(plan.config_file.as_str()) {
                    Some(d) => d,
                    None => String::new(),
                };
                let mut reason = "create config parent dir[".to_owned();
                reason.append(dir.as_str());
                reason.append("] fail, ");
                reason.append(e.display.as_str());
                (ConfigFilePhase::Done, ConfigFileNext::Finished(Err(reason)))
            },
        },
        (ConfigFilePhase::Serializing, Event::Serialized(r)) => match r {
            Ok(json) => (
                ConfigFilePhase::Writing,
                ConfigFileNext::Perform(Action::WriteFile { path: plan.config_file.clone(), content: json }),
            ),
            Err(f) => (
                ConfigFilePhase::Done,
                ConfigFileNext::Finished(Err(concat_str("error parsing from json to string: ", f.error_debug.as_str()))),
            ),
        },
        (ConfigFilePhase::Writing, Event::Io(r)) => match r {
            Ok(()) => (ConfigFilePhase::Done, ConfigFileNext::Finished(Ok(()))),
            Err(e) => (
                ConfigFilePhase::Done,
                ConfigFileNext::Finished(Err(concat_str("fail: write body to path file fail, ", e.display.as_str()))),
            ),
        },
        (phase, _) => (phase, ConfigFileNext::Finished(Ok(()))),
    }
}

fn exec_after_config_file(plan: &LaunchPlan, step: (ConfigFilePhase, ConfigFileNext)) -> (res: (LaunchPhase, LaunchNext))
    ensures
        (res.0, res.1@) == after_config_file(plan@, (step.0, step.1@)),
{
    match step.1 {
        ConfigFileNext::Perform(a) => (LaunchPhase::WritingConfig(step.0), LaunchNext::Perform(a)),
        ConfigFileNext::Finished(Err(reason)) => (
            LaunchPhase::Done,
            LaunchNext::Finished(Err(concat_str("fail: write config to file, ", reason.as_str()))),
        ),
        ConfigFileNext::Finished(Ok(())) => (
            LaunchPhase::MakingLogDir,
            LaunchNext::Perform(Action::CreateDirAll(plan.log_path.clone())),
        ),
    }
}

impl ConfigFileWrite {
    pub closed spec fn phase(self) -> ConfigFilePhase {
        self.phase
    }

    pub closed spec fn plan(self) -> LaunchPlanView {
        self.plan@
    }

    /// Begins writing the configuration file of `plan`.
    pub fn begin(plan: LaunchPlan) -> (res: (ConfigFileWrite, ConfigFileNext))
        ensures
            res.0.plan() == plan@,
            (res.0.phase(), res.1@) == config_file_first(plan@),
    {
        let (phase, next) = config_file_begin(&plan);
        (ConfigFileWrite { phase, plan }, next)
    }

    /// Takes writing the configuration file one step further on `event`.
    pub fn step(&mut self, event: Event) -> (next: ConfigFileNext)
        requires
            config_file_accepts(old(self).phase(), event@),
        ensures
            final(self).plan() == old(self).plan(),
            (final(self).phase(), next@) == config_file_next(old(self).plan(), old(self).phase(), event@),
    {
        let (phase, next) = config_file_step(&self.plan, self.phase, event);
        self.phase = phase;
        next
    }
}

impl Launch {
    pub closed spec fn phase(self) -> LaunchPhase {
        self.phase
    }

    pub closed spec fn plan(self) -> LaunchPlanView {
        self.plan@
    }

    /// Whether `event` is the kind of outcome that the start-up waits for.
    pub fn accepts_event(&self, event: &Event) -> (res: bool)
        ensures
            res == launch_accepts(self.phase(), event@),
    {
        let is_io = matches!(event, Event::Io(_));
        match self.phase {
            LaunchPhase::WritingConfig(p) => match p {
                ConfigFilePhase::MakingDir => is_io,
                ConfigFilePhase::Serializing => matches!(event, Event::Serialized(_)),
                ConfigFilePhase::Writing => is_io,
                ConfigFilePhase::Done => false,
            },
            LaunchPhase::MakingLogDir => is_io,
            LaunchPhase::MakingMountDir => is_io,
            LaunchPhase::Spawning => matches!(event, Event::Spawned(_)),
            LaunchPhase::Sleeping(_) => matches!(event, Event::Slept),
            LaunchPhase::Confirming(_) => matches!(event, Event::Ran(_)),
            LaunchPhase::Done => false,
        }
    }

    pub fn is_done(&self) -> (res: bool)
        ensures
            res == (self.phase() == LaunchPhase::Done),
    {
        self.phase == LaunchPhase::Done
    }

    fn exec_to_spawn(plan: &LaunchPlan) -> (res: (LaunchPhase, LaunchNext))
        ensures
            (res.0, res.1@) == to_spawn(plan@),
    {
        (
            LaunchPhase::Spawning,
            LaunchNext::Perform(
                Action::Spawn { program: plan.program.clone(), args: clone_strings(&plan.args) },
            ),
        )
    }

    /// Begins a start-up along `plan`.
    pub fn begin(plan: LaunchPlan) -> (res: (Launch, LaunchNext))
        ensures
            res.0.plan() == plan@,
            (res.0.phase(), res.1@) == launch_first(plan@),
    {
        let step = config_file_begin(&plan);
        let (phase, next) = exec_after_config_file(&plan, step);
        (Launch { phase, plan }, next)
    }

    /// Takes the start-up one step further on `event`, the outcome of the action
    /// it asked for last.
    pub fn step(&mut self, event: Event) -> (next: LaunchNext)
        requires
            launch_accepts(old(self).phase(), event@),
        ensures
            final(self).plan() == old(self).plan(),
            (final(self).phase(), next@) == launch_next(old(self).plan(), old(self).phase(), event@),
    {
        let plan = &self.plan;
        let (phase, next) = match (self.phase, event) {
            (LaunchPhase::WritingConfig(p), event) => {
                let step = config_file_step(plan, p, event);
                exec_after_config_file(plan, step)
            },
            (LaunchPhase::MakingLogDir, Event::Io(r)) => match r {
                Ok(()) => match &plan.mount_path {
                    Some(m) => (
                        LaunchPhase::MakingMountDir,
                        LaunchNext::Perform(Action::CreateDirAll(m.clone())),
                    ),
                    None => Self::exec_to_spawn(plan),
                },
                Err(e) => {
                    let mut s = "create log dir[".to_owned();
                    s.append(plan.log_path.as_str());
                    s.append("] fail, ");
                    s.append(e.display.as_str());
                    (LaunchPhase::Done, LaunchNext::Finished(Err(s)))
                },
            },
            (LaunchPhase::MakingMountDir, Event::Io(r)) => match r {
                Ok(()) => Self::exec_to_spawn(plan),
                Err(e) => {
                    let mut s = "create mount dir[".to_owned();
                    match &plan.mount_path {
                        Some(m) => s.append(m.as_str()),
                        None => {},
                    }
                    s.append("] fail, ");
                    s.append(e.display.as_str());
                    (LaunchPhase::Done, LaunchNext::Finished(Err(s)))
                },
            },
            (LaunchPhase::Spawning, Event::Spawned(r)) => match r {
                Ok(pid) => (LaunchPhase::Sleeping(pid), LaunchNext::Perform(Action::Sleep(START_WAIT_MILLIS))),
                Err(e) => {
                    let mut s = "fail: start[".to_owned();
                    s.append(plan.shell.as_str());
                    s.append("] fail, output:");
                    s.append(e.display.as_str());
                    s.append("\n");
                    (LaunchPhase::Done, LaunchNext::Finished(Err(s)))
                },
            },
            (LaunchPhase::Sleeping(pid), Event::Slept) => {
                let mut args: Vec<String> = Vec::new();
                args.push("-c".to_owned());
                args.push(exec_pid_shell(pid, plan.config_file.as_str()));
                proof {
                    assert(strings_view(args@) =~= seq!["-c"@, pid_shell(pid, plan.config_file@)]);
                }
                (
                    LaunchPhase::Confirming(pid),
                    LaunchNext::Perform(Action::Run { program: "/bin/sh".to_owned(), args }),
                )
            },
            (LaunchPhase::Confirming(pid), Event::Ran(r)) => {
                let answer = if count_differs(&r, plan.absent.as_str()) {
                    u32_to_decimal(pid)
                } else {
                    "fail: child process exit".to_owned()
                };
                (LaunchPhase::Done, LaunchNext::Finished(Ok(answer)))
            },
            (phase, _) => (phase, LaunchNext::Finished(Ok(String::new()))),
        };
        self.phase = phase;
        next
    }
}

} // verus!
