//! The answers of the agent's HTTP routes.
use vstd::prelude::*;
use vstd::string::*;
use crate::bond::{opt_view, set_up, Bond, ClientConfig};
use crate::errors::{ErrorCode, ErrorCodeView};
use crate::io::{ran_view, strings_view, Action, ActionView, IoError, ProgramStdout, ProgramStdoutView};
use crate::text::{trim, trim_str, str_equal};
use crate::utils::{bond_shell, get_bond_shell};

verus! {

/// The text of the index route.
pub fn index() -> (res: &'static str)
    ensures
        res@ == "three API: /mount /umount /ready\n        API  URI: /mount\n             BODY: {}\n\n    body is json, and for cubefs client config.json content\n"@,
{
    "three API: /mount /umount /ready\n        API  URI: /mount\n             BODY: {}\n\n    body is json, and for cubefs client config.json content\n"
}

/// A volume name taken from a route: it must be there and not be empty.
pub open spec fn volume_checked(volume_name: Option<Seq<char>>) -> Result<Seq<char>, Seq<char>> {
    match volume_name {
        None => Err("fail: volume_name missing"@),
        Some(v) => if v.len() == 0 {
            Err("fail: volume_name empty"@)
        } else {
            Ok(v)
        },
    }
}

pub open spec fn result_string_view(r: Result<String, String>) -> Result<Seq<char>, Seq<char>> {
    match r {
        Ok(s) => Ok(s@),
        Err(s) => Err(s@),
    }
}

/// The volume name of a route, or the route's answer when it is missing or empty.
pub fn check_volume_name(volume_name: Option<String>) -> (res: Result<String, String>)
    ensures
        result_string_view(res) == volume_checked(opt_view(volume_name)),
{
    match volume_name {
        None => Err("fail: volume_name missing".to_owned()),
        Some(v) => if v.as_str().is_empty() {
            Err("fail: volume_name empty".to_owned())
        } else {
            Ok(v)
        },
    }
}

/// The answer given when a command could not be started.
pub open spec fn start_failed(shell: Seq<char>, error_display: Seq<char>) -> Seq<char> {
    "fail: start["@ + shell + "] fail, output:"@ + error_display + "\n"@
}

fn start_failed_text(shell: &str, error_display: &str) -> (res: String)
    ensures
        res@ == start_failed(shell@, error_display@),
{
    let mut s = "fail: start[".to_owned();
    s.append(shell);
    s.append("] fail, output:");
    s.append(error_display);
    s.append("\n");
    s
}

/// The answer given when a command's output was not UTF-8.
pub open spec fn output_not_utf8(error_display: Seq<char>) -> Seq<char> {
    "fail: parse shell output fail, "@ + error_display
}

fn output_not_utf8_text(error_display: &str) -> (res: String)
    ensures
        res@ == output_not_utf8(error_display@),
{
    let mut s = "fail: parse shell output fail, ".to_owned();
    s.append(error_display);
    s
}

/// `sh -c <script>`.
pub open spec fn sh_run(script: Seq<char>) -> ActionView {
    ActionView::Run { program: "sh"@, args: seq!["-c"@, script] }
}

fn sh_run_action(script: String) -> (res: Action)
    ensures
        res@ == sh_run(script@),
{
    let mut args: Vec<String> = Vec::new();
    args.push("-c".to_owned());
    args.push(script);
    proof {
        assert(strings_view(args@) =~= seq!["-c"@, args@[1]@]);
    }
    Action::Run { program: "sh".to_owned(), args }
}

/// What the get route runs for a volume name, or its answer without running
/// anything.
pub fn bond_get_request(volume_name: Option<String>) -> (res: Result<Action, String>)
    ensures
        match volume_checked(opt_view(volume_name)) {
            Ok(v) => res matches Ok(a) && a@ == sh_run(bond_shell(v)),
            Err(answer) => res matches Err(e) && e@ == answer,
        },
{
    match check_volume_name(volume_name) {
        Ok(v) => Ok(sh_run_action(get_bond_shell(v.as_str()))),
        Err(answer) => Err(answer),
    }
}

/// The answer of the get route for `volume` once its pipeline has run.
pub open spec fn bond_get_answer(volume: Seq<char>, outcome: Result<ProgramStdoutView, crate::io::IoErrorView>) -> Seq<char> {
    match outcome {
        Err(e) => start_failed(bond_shell(volume), e.display),
        Ok(ProgramStdoutView::NotUtf8(e)) => output_not_utf8(e.display),
        Ok(ProgramStdoutView::Text(out)) => if trim(out) == "0"@ {
            "cfs-client not start"@
        } else {
            "OK"@
        },
    }
}

pub fn bond_get_response(volume: &str, outcome: Result<ProgramStdout, IoError>) -> (res: String)
    ensures
        res@ == bond_get_answer(volume@, ran_view(outcome)),
{
    match outcome {
        Err(e) => start_failed_text(get_bond_shell(volume).as_str(), e.display.as_str()),
        Ok(ProgramStdout::NotUtf8(e)) => output_not_utf8_text(e.display.as_str()),
        Ok(ProgramStdout::Text(out)) => {
            let trimmed = trim_str(out.as_str());
            if str_equal(trimmed.as_str(), "0") {
                "cfs-client not start".to_owned()
            } else {
                "OK".to_owned()
            }
        },
    }
}

/// `umount /cfs/mount/{volume}`.
pub open spec fn umount_command(volume: Seq<char>) -> Seq<char> {
    "umount /cfs/mount/"@ + volume
}

/// The pipeline that the delete route names when it reports a failure.
pub open spec fn kill_shell(volume: Seq<char>) -> Seq<char> {
    "ps aux|grep cfs-client |grep "@ + volume + "|cut -d ' ' -f 2|xargs kill -9 && umount "@
        + umount_command(volume)
}

pub fn gen_umount_command(volume: &str) -> (res: String)
    ensures
        res@ == umount_command(volume@),
{
    let mut s = "umount /cfs/mount/".to_owned();
    s.append(volume);
    s
}

fn gen_kill_shell(volume: &str) -> (res: String)
    ensures
        res@ == kill_shell(volume@),
{
    let mut s = "ps aux|grep cfs-client |grep ".to_owned();
    s.append(volume);
    s.append("|cut -d ' ' -f 2|xargs kill -9 && umount ");
    s.append(gen_umount_command(volume).as_str());
    s
}

/// What the delete route runs for a volume name (`sh -c "umount …"`), or its
/// answer without running anything.
pub fn bond_delete_request(volume_name: Option<String>) -> (res: Result<Action, String>)
    ensures
        match volume_checked(opt_view(volume_name)) {
            Ok(v) => res matches Ok(a) && a@ == sh_run(umount_command(v)),
            Err(answer) => res matches Err(e) && e@ == answer,
        },
{
    match check_volume_name(volume_name) {
        Ok(v) => Ok(sh_run_action(gen_umount_command(v.as_str()))),
        Err(answer) => Err(answer),
    }
}

/// The answer of the delete route for `volume` once its command has run.
pub open spec fn bond_delete_answer(volume: Seq<char>, outcome: Result<ProgramStdoutView, crate::io::IoErrorView>) -> Seq<char> {
    match outcome {
        Err(e) => start_failed(kill_shell(volume), e.display),
        Ok(ProgramStdoutView::NotUtf8(e)) => output_not_utf8(e.display),
        Ok(ProgramStdoutView::Text(_)) => "OK"@,
    }
}

pub fn bond_delete_response(volume: &str, outcome: Result<ProgramStdout, IoError>) -> (res: String)
    ensures
        res@ == bond_delete_answer(volume@, ran_view(outcome)),
{
    match outcome {
        Err(e) => start_failed_text(gen_kill_shell(volume).as_str(), e.display.as_str()),
        Ok(ProgramStdout::NotUtf8(e)) => output_not_utf8_text(e.display.as_str()),
        Ok(ProgramStdout::Text(_)) => "OK".to_owned(),
    }
}

/// The post route before the start-up: the body must be there and parse, and
/// the configuration must pass `Bond::setup`.
pub fn bond_post_setup(body: Option<Result<ClientConfig, String>>) -> (res: Result<Bond, String>)
    ensures
        body is None ==> (res matches Err(e) && e@ == "fail: body is empty"@),
        body matches Some(Err(parse_error)) ==> (res matches Err(e) && e@ == "fail: parse body fail: "@ + parse_error@),
        body matches Some(Ok(config)) ==> {
            &&& config.volName is None ==> (res matches Err(e) && e@ == "fail: parse param, volName missing"@)
            &&& config.volName is Some && config.masterAddr is None ==> (res matches Err(e) && e@ == "fail: parse param, masterAddr missing"@)
            &&& config.volName is Some && config.masterAddr is Some ==> (res matches Ok(bond) && set_up(config, bond))
        },
{
    proof {
        reveal_strlit("fail: parse param, ");
        reveal_strlit("volName missing");
        reveal_strlit("masterAddr missing");
        reveal_strlit("fail: parse param, volName missing");
        reveal_strlit("fail: parse param, masterAddr missing");
    }
    match body {
        None => Err("fail: body is empty".to_owned()),
        Some(Err(parse_error)) => {
            let mut s = "fail: parse body fail: ".to_owned();
            s.append(parse_error.as_str());
            Err(s)
        },
        Some(Ok(config)) => match Bond::setup(config) {
            Ok(bond) => Ok(bond),
            Err(e) => {
                let mut s = "fail: parse param, ".to_owned();
                s.append(e.as_str());
                Err(s)
            },
        },
    }
}

/// The answer of the post route for the outcome of the start-up.
pub open spec fn bond_post_answer(outcome: Result<Seq<char>, ErrorCodeView>) -> Seq<char> {
    match outcome {
        Ok(answer) => answer,
        Err(e) => "fail: start client fail, "@ + e.debug_text(),
    }
}

pub fn bond_post_response(outcome: Result<String, ErrorCode>) -> (res: String)
    ensures
        res@ == bond_post_answer(
            match outcome {
                Ok(s) => Ok(s@),
                Err(e) => Err(e@),
            },
        ),
{
    match outcome {
        Ok(answer) => answer,
        Err(e) => {
            let mut s = "fail: start client fail, ".to_owned();
            s.append(e.debug_text().as_str());
            s
        },
    }
}

/// Files whose presence together marks a development checkout.
pub fn dev_markers() -> (res: Vec<String>)
    ensures
        strings_view(res@) == seq!["./cargo.toml"@, "./vscode"@, "./git"@],
{
    let mut v: Vec<String> = Vec::new();
    v.push("./cargo.toml".to_owned());
    v.push("./vscode".to_owned());
    v.push("./git".to_owned());
    assert(strings_view(v@) =~= seq!["./cargo.toml"@, "./vscode"@, "./git"@]);
    v
}

/// The server's configuration file, given which of the development markers
/// exist: the development one when all of them exist.
pub fn get_config_file(present: &Vec<bool>) -> (res: String)
    ensures
        (forall|i: int| 0 <= i < present@.len() ==> present@[i]) ==> res@ == "build/conf/cubefs-bond.toml"@,
        !(forall|i: int| 0 <= i < present@.len() ==> present@[i]) ==> res@ == "conf/cubefs-bond.toml"@,
{
    let mut count: usize = 0;
    let mut i: usize = 0;
    while i < present.len()
        invariant
            i <= present@.len(),
            count <= i,
            (count == i) == (forall|j: int| 0 <= j < i ==> present@[j]),
        decreases present@.len() - i,
    {
        if present[i] {
            count = count + 1;
        }
        i = i + 1;
    }
    if count == present.len() {
        "build/conf/cubefs-bond.toml".to_owned()
    } else {
        "conf/cubefs-bond.toml".to_owned()
    }
}

} // verus!
