//! The salvo controller front end: a free-form configuration of names and
//! values, its validation, its start-up, and the answers of its `mount` and
//! `umount` handlers.
use vstd::prelude::*;
use vstd::string::*;
use crate::bond::opt_view;
use crate::text::concat_str;
use crate::config_map::{settings_json, settings_to_json, ConfigMap};
use crate::io::{ran_view, strings_view, Action, ActionView, IoError, IoErrorView, ProgramStdout, ProgramStdoutView};
use crate::launch::{
    config_file_first, launch_first, ConfigFileNext, ConfigFileWrite, Launch, LaunchNext, LaunchPlan,
    LaunchPlanView,
};
use crate::mount::{client_config_file, client_log_path, client_mount_path, start_answer};
use crate::routes::{
    check_volume_name, output_not_utf8, start_failed, volume_checked,
};

verus! {

#[verifier::external_type_specification]
#[verifier::external_body]
pub struct ExSerdeJsonError(serde_json::Error);

/// Formats a serde_json error with `{:?}`. Nothing is claimed of the text.
#[verifier::external_body]
fn json_error_debug(e: &serde_json::Error) -> String {
    format!("{:?}", e)
}

/// A validated configuration of a volume.
pub struct Bond {
    config: ConfigMap,
    log_path: String,
    config_file: String,
}

/// `bond` is what `Bond::setup` makes of the settings `config`.
pub open spec fn set_up(config: Map<Seq<char>, Seq<char>>, bond: Bond) -> bool {
    let v = config["volName"@];
    let with_paths = config.insert("mountPoint"@, client_mount_path(v)).insert(
        "logDir"@,
        client_log_path(v),
    );
    let with_level = if with_paths.contains_key("logLevel"@) {
        with_paths
    } else {
        with_paths.insert("logLevel"@, "info"@)
    };
    let with_owner = if with_level.contains_key("owner"@) {
        with_level
    } else {
        with_level.insert("owner"@, "cfs"@)
    };
    &&& bond.log_path() == client_log_path(v)
    &&& bond.config_file() == client_config_file(v)
    &&& bond.settings() == with_owner
}

/// How this front end starts the client of `bond`: it makes no mount point,
/// runs `cd <log> && nohup cfs-client -f -c <config> &` in a shell, and a
/// count of `1` means the client is gone.
pub open spec fn launch_plan(bond: Bond) -> LaunchPlanView {
    let shell = "cd "@ + bond.log_path() + " && nohup /cfs/client/cfs-client -f -c "@
        + bond.config_file() + " &"@;
    LaunchPlanView {
        config_file: bond.config_file(),
        log_path: bond.log_path(),
        mount_path: None,
        program: "/bin/sh"@,
        args: seq!["-c"@, shell],
        shell: shell,
        absent: "1"@,
        config_json: Some(Ok(settings_json(bond.settings()))),
    }
}

impl Bond {
    pub closed spec fn settings(self) -> Map<Seq<char>, Seq<char>> {
        self.config@
    }

    pub closed spec fn log_path(self) -> Seq<char> {
        self.log_path@
    }

    pub closed spec fn config_file(self) -> Seq<char> {
        self.config_file@
    }

    pub fn config(&self) -> (res: &ConfigMap)
        ensures
            res@ == self.settings(),
    {
        &self.config
    }

    /// Validates the settings and completes them: `volName` and `masterAddr`
    /// are required; `mountPoint` and `logDir` are set from the volume name;
    /// `logLevel` defaults to `info` and `owner` to `cfs`.
    pub fn setup(config: ConfigMap) -> (res: Result<Bond, String>)
        ensures
            !config@.contains_key("volName"@) ==> (res matches Err(e) && e@ == "volName missing"@),
            config@.contains_key("volName"@) && !config@.contains_key("masterAddr"@) ==> (res matches Err(e)
                && e@ == "masterAddr missing"@),
            config@.contains_key("volName"@) && config@.contains_key("masterAddr"@) ==> (res matches Ok(bond)
                && set_up(config@, bond)),
    {
        let mut config = config;
        let volume_name = match config.get("volName") {
            Some(v) => v.clone(),
            None => {
                return Err("volName missing".to_owned());
            },
        };
        if config.get("masterAddr").is_none() {
            return Err("masterAddr missing".to_owned());
        }
        let mount_file_path = concat_str("/cfs/mount/", volume_name.as_str());
        config.insert("mountPoint".to_owned(), mount_file_path);
        let log_path = concat_str("/cfs/client/", volume_name.as_str());
        config.insert("logDir".to_owned(), log_path.clone());
        let mut config_file = concat_str("/cfs/client/", volume_name.as_str());
        config_file.append("/config.json");
        if config.get("logLevel").is_none() {
            config.insert("logLevel".to_owned(), "info".to_owned());
        }
        if config.get("owner").is_none() {
            config.insert("owner".to_owned(), "cfs".to_owned());
        }
        Ok(Bond { config, log_path, config_file })
    }

    /// The plan of this volume's start-up.
    fn plan(&self) -> (res: LaunchPlan)
        ensures
            res@ == launch_plan(*self),
    {
        let json = match settings_to_json(&self.config) {
            Ok(j) => Ok(j),
            Err(e) => Err(json_error_debug(&e)),
        };
        let mut shell = concat_str("cd ", self.log_path.as_str());
        shell.append(" && nohup /cfs/client/cfs-client -f -c ");
        shell.append(self.config_file.as_str());
        shell.append(" &");
        let mut args: Vec<String> = Vec::new();
        args.push("-c".to_owned());
        args.push(shell.clone());
        proof {
            assert(strings_view(args@) =~= seq!["-c"@, shell@]);
        }
        let plan = LaunchPlan {
            config_file: self.config_file.clone(),
            log_path: self.log_path.clone(),
            mount_path: None,
            program: "/bin/sh".to_owned(),
            args,
            shell,
            absent: "1".to_owned(),
            config_json: Some(json),
        };
        plan
    }

    /// Writes this volume's configuration file, making its directory first.
    pub fn write_config_file(&self) -> (res: (ConfigFileWrite, ConfigFileNext))
        ensures
            res.0.plan() == launch_plan(*self),
            (res.0.phase(), res.1@) == config_file_first(launch_plan(*self)),
    {
        ConfigFileWrite::begin(self.plan())
    }

    /// Starts the client of this volume along [`launch_plan`].
    pub fn startup(&self) -> (res: (Launch, LaunchNext))
        ensures
            res.0.plan() == launch_plan(*self),
            (res.0.phase(), res.1@) == launch_first(launch_plan(*self)),
    {
        Launch::begin(self.plan())
    }
}

/// The `mount` handler before the start-up: the body must parse as settings,
/// which must pass `Bond::setup`.
pub fn mount_setup(body: Result<ConfigMap, String>) -> (res: Result<Bond, String>)
    ensures
        body matches Err(parse_error) ==> (res matches Err(e) && e@ == "parse body fail: "@ + parse_error@),
        body matches Ok(config) ==> {
            &&& !config@.contains_key("volName"@) ==> (res matches Err(e) && e@ == "fail: parse param, volName missing"@)
            &&& config@.contains_key("volName"@) && !config@.contains_key("masterAddr"@) ==> (res matches Err(e) && e@ == "fail: parse param, masterAddr missing"@)
            &&& config@.contains_key("volName"@) && config@.contains_key("masterAddr"@) ==> (res matches Ok(bond) && set_up(config@, bond))
        },
{
    proof {
        reveal_strlit("fail: parse param, ");
        reveal_strlit("volName missing");
        reveal_strlit("masterAddr missing");
        reveal_strlit("fail: parse param, volName missing");
        reveal_strlit("fail: parse param, masterAddr missing");
    }
    match body {
        Err(parse_error) => Err(concat_str("parse body fail: ", parse_error.as_str())),
        Ok(config) => match Bond::setup(config) {
            Ok(bond) => Ok(bond),
            Err(e) => Err(concat_str("fail: parse param, ", e.as_str())),
        },
    }
}

pub fn mount_response(outcome: Result<String, String>) -> (res: String)
    ensures
        res@ == start_answer(
            match outcome {
                Ok(s) => Ok(s@),
                Err(e) => Err(e@),
            },
        ),
{
    match outcome {
        Ok(answer) => answer,
        Err(e) => concat_str("fail: start client fail, ", e.as_str()),
    }
}

/// `umount /cfs/mount/{volume}`, which this handler runs with `/bin/sh -c`.
pub open spec fn umount_shell(volume: Seq<char>) -> Seq<char> {
    "umount /cfs/mount/"@ + volume
}

/// What the `umount` handler runs for a volume name, or its answer without
/// running anything.
pub fn umount_request(volume_name: Option<String>) -> (res: Result<Action, String>)
    ensures
        match volume_checked(opt_view(volume_name)) {
            Ok(v) => res matches Ok(a) && a@ == ActionView::Run {
                program: "/bin/sh"@,
                args: seq!["-c"@, umount_shell(v)],
            },
            Err(answer) => res matches Err(e) && e@ == answer,
        },
{
    match check_volume_name(volume_name) {
        Ok(v) => {
            let mut args: Vec<String> = Vec::new();
            args.push("-c".to_owned());
            args.push(concat_str("umount /cfs/mount/", v.as_str()));
            proof {
                assert(strings_view(args@) =~= seq!["-c"@, umount_shell(v@)]);
            }
            Ok(Action::Run { program: "/bin/sh".to_owned(), args })
        },
        Err(answer) => Err(answer),
    }
}

/// The answer of the `umount` handler: the command's output itself.
pub open spec fn umount_answer(volume: Seq<char>, outcome: Result<ProgramStdoutView, IoErrorView>) -> Seq<char> {
    match outcome {
        Err(e) => start_failed(umount_shell(volume), e.display),
        Ok(ProgramStdoutView::NotUtf8(e)) => output_not_utf8(e.display),
        Ok(ProgramStdoutView::Text(out)) => out,
    }
}

pub fn umount_response(volume: &str, outcome: Result<ProgramStdout, IoError>) -> (res: String)
    ensures
        res@ == umount_answer(volume@, ran_view(outcome)),
{
    match outcome {
        Err(e) => {
            let mut s = concat_str("fail: start[", concat_str("umount /cfs/mount/", volume).as_str());
            s.append("] fail, output:");
            s.append(e.display.as_str());
            s.append("\n");
            s
        },
        Ok(ProgramStdout::NotUtf8(e)) => concat_str("fail: parse shell output fail, ", e.display.as_str()),
        Ok(ProgramStdout::Text(out)) => out,
    }
}

} // verus!
