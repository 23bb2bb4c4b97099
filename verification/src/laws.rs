//! Properties of the library as a whole.
use vstd::prelude::*;
use crate::text::{
    is_white_space, lemma_trim_all_white, lemma_trim_exact, lemma_trim_lines_first,
    lemma_trim_lines_last, trim, trim_lines,
};
use crate::utils::{
    bond_shell, config_file_path, log_path, mount_path, start_file_path, start_script_template,
    start_shell_content,
};
use crate::CFS_CLIENT_FILE;
use crate::bond::{opt_view, set_up, Bond, ClientConfig};
use crate::config_map::ConfigMap;
use crate::io::{count_shows_process, EventView, ProgramStdoutView};
use crate::launch::{ConfigFilePhase, launch_accepts, launch_next, LaunchNextView, LaunchPhase, LaunchPlanView};
use crate::routes::bond_get_answer;
use crate::startup::{
    accepts, config_dir, start_dir, startup_next, ConfigWritePhase, NextView, StartWritePhase, StartupPhase,
};
use crate::utils::DirStage;
use crate::text::decimal;

verus! {

/// A volume name that no line feed splits and that ends in a visible
/// character.
pub open spec fn plain_volume(volume: Seq<char>) -> bool {
    &&& volume.len() > 0
    &&& forall|j: int| 0 <= j < volume.len() ==> #[trigger] volume[j] != '\n'
    &&& !is_white_space(volume.last())
}

/// The lines of the start-script template.
spec fn script_line1() -> Seq<char> {
    "#!/usr/bin/env bash"@
}

spec fn script_line2(volume: Seq<char>) -> Seq<char> {
    "            cd "@ + volume
}

spec fn script_line3(volume: Seq<char>) -> Seq<char> {
    "            nohup "@ + CFS_CLIENT_FILE@ + " -f -c "@ + config_file_path(volume) + " 2>&1 &"@
}

spec fn script_line4() -> Seq<char> {
    "        "@
}

/// No line feed occurs in `s`.
pub open spec fn no_line_feed(s: Seq<char>) -> bool {
    forall|j: int| 0 <= j < s.len() ==> #[trigger] s[j] != '\n'
}

proof fn lemma_template_lines(volume: Seq<char>)
    ensures
        start_script_template(volume) == script_line1() + seq!['\n'] + script_line2(volume) + seq![
            '\n',
        ] + script_line3(volume) + seq!['\n'] + script_line4(),
{
    reveal_strlit("#!/usr/bin/env bash\n            cd ");
    reveal_strlit("\n            nohup ");
    reveal_strlit(" 2>&1 &\n        ");
    reveal_strlit("#!/usr/bin/env bash");
    reveal_strlit("            cd ");
    reveal_strlit("            nohup ");
    reveal_strlit(" 2>&1 &");
    reveal_strlit("        ");
    assert(start_script_template(volume) =~= script_line1() + seq!['\n'] + script_line2(volume)
        + seq!['\n'] + script_line3(volume) + seq!['\n'] + script_line4());
}

proof fn lemma_config_file_one_line(volume: Seq<char>)
    requires
        no_line_feed(volume),
    ensures
        no_line_feed(config_file_path(volume)),
        config_file_path(volume) == "/cfs/bond/"@ + volume + "/config.json"@,
{
    reveal_strlit("/cfs/bond");
    reveal_strlit("/cfs/bond/");
    reveal_strlit("/");
    reveal_strlit("/config.json");
    let cfg = config_file_path(volume);
    assert(cfg =~= "/cfs/bond/"@ + volume + "/config.json"@);
    assert forall|j: int| 0 <= j < cfg.len() implies #[trigger] cfg[j] != '\n' by {
        if j >= 10 && j < 10 + volume.len() {
            assert(cfg[j] == volume[j - 10]);
        }
    }
}

proof fn lemma_lines_one_line(volume: Seq<char>)
    requires
        no_line_feed(volume),
    ensures
        no_line_feed(script_line1()),
        no_line_feed(script_line2(volume)),
        no_line_feed(script_line3(volume)),
        no_line_feed(script_line4()),
{
    reveal_strlit("#!/usr/bin/env bash");
    reveal_strlit("            cd ");
    reveal_strlit("            nohup ");
    reveal_strlit("/cfs/client/cfs-client");
    reveal_strlit(" -f -c ");
    reveal_strlit(" 2>&1 &");
    reveal_strlit("        ");
    lemma_config_file_one_line(volume);
    let cfg = config_file_path(volume);
    let l2 = script_line2(volume);
    assert forall|j: int| 0 <= j < l2.len() implies #[trigger] l2[j] != '\n' by {
        if j >= 15 {
            assert(l2[j] == volume[j - 15]);
        }
    }
    let l3 = script_line3(volume);
    assert forall|j: int| 0 <= j < l3.len() implies #[trigger] l3[j] != '\n' by {
        if j >= 47 && j < 47 + cfg.len() {
            assert(l3[j] == cfg[j - 47]);
        }
    }
}

proof fn lemma_trimmed_lines(volume: Seq<char>)
    ensures
        trim(script_line1()) == script_line1(),
        trim(script_line3(volume)) == "nohup "@ + client_command(volume) + " 2>&1 &"@,
        trim(script_line4()) == Seq::<char>::empty(),
{
    reveal_strlit("#!/usr/bin/env bash");
    reveal_strlit("            nohup ");
    reveal_strlit(" 2>&1 &");
    reveal_strlit("        ");
    reveal_strlit("nohup ");
    let l1 = script_line1();
    lemma_trim_exact(l1, 0, l1.len() as int);
    assert(l1.subrange(0, l1.len() as int) =~= l1);
    let l3 = script_line3(volume);
    lemma_trim_exact(l3, 12, l3.len() as int);
    assert(l3.subrange(12, l3.len() as int) =~= "nohup "@ + client_command(volume) + " 2>&1 &"@);
    lemma_trim_all_white(script_line4());
}

proof fn lemma_trimmed_cd_line(volume: Seq<char>)
    requires
        plain_volume(volume),
    ensures
        trim(script_line2(volume)) == "cd "@ + volume,
{
    reveal_strlit("            cd ");
    reveal_strlit("cd ");
    let l2 = script_line2(volume);
    assert(l2.last() == volume.last());
    lemma_trim_exact(l2, 12, l2.len() as int);
    assert(l2.subrange(12, l2.len() as int) =~= "cd "@ + volume);
}

proof fn lemma_trim_four_lines(a: Seq<char>, b: Seq<char>, c: Seq<char>, d: Seq<char>)
    requires
        no_line_feed(a),
        no_line_feed(b),
        no_line_feed(c),
        no_line_feed(d),
    ensures
        trim_lines(a + seq!['\n'] + b + seq!['\n'] + c + seq!['\n'] + d) == trim(a) + seq!['\n']
            + trim(b) + seq!['\n'] + trim(c) + seq!['\n'] + trim(d),
{
    let t = a + seq!['\n'] + b + seq!['\n'] + c + seq!['\n'] + d;
    let r1 = b + seq!['\n'] + c + seq!['\n'] + d;
    let r2 = c + seq!['\n'] + d;
    assert(t[a.len() as int] == '\n');
    assert forall|j: int| 0 <= j < a.len() implies #[trigger] t[j] != '\n' by {
        assert(t[j] == a[j]);
    }
    lemma_trim_lines_first(t, a.len() as int);
    assert(t.take(a.len() as int) =~= a);
    assert(t.skip(a.len() as int + 1) =~= r1);
    assert(r1[b.len() as int] == '\n');
    assert forall|j: int| 0 <= j < b.len() implies #[trigger] r1[j] != '\n' by {
        assert(r1[j] == b[j]);
    }
    lemma_trim_lines_first(r1, b.len() as int);
    assert(r1.take(b.len() as int) =~= b);
    assert(r1.skip(b.len() as int + 1) =~= r2);
    assert(r2[c.len() as int] == '\n');
    assert forall|j: int| 0 <= j < c.len() implies #[trigger] r2[j] != '\n' by {
        assert(r2[j] == c[j]);
    }
    lemma_trim_lines_first(r2, c.len() as int);
    assert(r2.take(c.len() as int) =~= c);
    assert(r2.skip(c.len() as int + 1) =~= d);
    lemma_trim_lines_last(d);
    assert(trim_lines(t) =~= trim(a) + seq!['\n'] + trim(b) + seq!['\n'] + trim(c) + seq!['\n']
        + trim(d));
}

/// The command line that starts a volume's client:
/// `/cfs/client/cfs-client -f -c /cfs/bond/{volume}/config.json`.
pub open spec fn client_command(volume: Seq<char>) -> Seq<char> {
    CFS_CLIENT_FILE@ + " -f -c "@ + config_file_path(volume)
}

/// The readiness probe looks for exactly the command line that the start
/// script runs: for every volume name without a line feed, the probe greps for
/// the client command line in quotes, and the script's last line starts that
/// same command line in the background.
pub proof fn law_probe_matches_start_script(volume: Seq<char>)
    requires
        no_line_feed(volume),
    ensures
        bond_shell(volume) == "ps aux|grep '"@ + client_command(volume) + "'|grep -v grep|wc -l"@,
        start_shell_content(volume) == "#!/usr/bin/env bash\n"@ + trim(
            "            cd "@ + volume,
        ) + "\nnohup "@ + client_command(volume) + " 2>&1 &\n"@,
{
    lemma_template_lines(volume);
    lemma_lines_one_line(volume);
    lemma_trimmed_lines(volume);
    lemma_trim_four_lines(
        script_line1(),
        script_line2(volume),
        script_line3(volume),
        script_line4(),
    );
    reveal_strlit("ps aux|grep '/cfs/client/cfs-client -f -c ");
    reveal_strlit("ps aux|grep '");
    reveal_strlit("/cfs/client/cfs-client");
    reveal_strlit(" -f -c ");
    assert(bond_shell(volume) =~= "ps aux|grep '"@ + client_command(volume) + "'|grep -v grep|wc -l"@);
    reveal_strlit("#!/usr/bin/env bash\n");
    reveal_strlit("\nnohup ");
    reveal_strlit(" 2>&1 &\n");
    reveal_strlit("#!/usr/bin/env bash");
    reveal_strlit("nohup ");
    reveal_strlit(" 2>&1 &");
    assert(start_shell_content(volume) =~= "#!/usr/bin/env bash\n"@ + trim(script_line2(volume))
        + "\nnohup "@ + client_command(volume) + " 2>&1 &\n"@);
}

/// The start script of a volume with a plain name is three lines: the
/// interpreter, a change into the directory named like the volume, and
/// `cfs-client` started in the background on the volume's configuration file.
pub proof fn law_start_script_of_plain_volume(volume: Seq<char>)
    requires
        plain_volume(volume),
    ensures
        start_shell_content(volume) == "#!/usr/bin/env bash\ncd "@ + volume
            + "\nnohup /cfs/client/cfs-client -f -c "@ + config_file_path(volume) + " 2>&1 &\n"@,
{
    law_probe_matches_start_script(volume);
    lemma_trimmed_cd_line(volume);
    reveal_strlit("#!/usr/bin/env bash\ncd ");
    reveal_strlit("\nnohup /cfs/client/cfs-client -f -c ");
    reveal_strlit("#!/usr/bin/env bash\n");
    reveal_strlit("\nnohup ");
    reveal_strlit("cd ");
    reveal_strlit("/cfs/client/cfs-client");
    reveal_strlit(" -f -c ");
    assert(start_shell_content(volume) =~= "#!/usr/bin/env bash\ncd "@ + volume
        + "\nnohup /cfs/client/cfs-client -f -c "@ + config_file_path(volume) + " 2>&1 &\n"@);
}

/// `/cfs/bond/{volume}/`: the directory of a volume's own files.
pub open spec fn bond_dir(volume: Seq<char>) -> Seq<char> {
    "/cfs/bond/"@ + volume + "/"@
}

/// A volume's configuration file, start script and log directory all lie in
/// the volume's directory under `/cfs/bond`.
pub proof fn law_volume_files_in_bond_dir(volume: Seq<char>)
    ensures
        config_file_path(volume) == bond_dir(volume) + "config.json"@,
        start_file_path(volume) == bond_dir(volume) + "start.sh"@,
        log_path(volume) == bond_dir(volume) + "log"@,
{
    reveal_strlit("/cfs/bond");
    reveal_strlit("/cfs/bond/");
    reveal_strlit("/");
    reveal_strlit("/config.json");
    reveal_strlit("config.json");
    reveal_strlit("/start.sh");
    reveal_strlit("start.sh");
    reveal_strlit("/log");
    reveal_strlit("log");
    assert(config_file_path(volume) =~= bond_dir(volume) + "config.json"@);
    assert(start_file_path(volume) =~= bond_dir(volume) + "start.sh"@);
    assert(log_path(volume) =~= bond_dir(volume) + "log"@);
}

proof fn lemma_same_prefix_suffix(p: Seq<char>, a: Seq<char>, b: Seq<char>, q: Seq<char>)
    requires
        p + a + q == p + b + q,
    ensures
        a == b,
{
    let x = p + a + q;
    let y = p + b + q;
    assert(x.len() == p.len() + a.len() + q.len());
    assert(y.len() == p.len() + b.len() + q.len());
    assert(a.len() == b.len());
    assert forall|j: int| 0 <= j < a.len() implies a[j] == b[j] by {
        assert(x[p.len() + j] == a[j]);
        assert(y[p.len() + j] == b[j]);
    }
    assert(a =~= b);
}

/// Two volumes never share a mount point, a configuration file or a start
/// script.
pub proof fn law_volume_paths_distinct(v1: Seq<char>, v2: Seq<char>)
    requires
        v1 != v2,
    ensures
        mount_path(v1) != mount_path(v2),
        config_file_path(v1) != config_file_path(v2),
        start_file_path(v1) != start_file_path(v2),
{
    if mount_path(v1) == mount_path(v2) {
        assert(mount_path(v1) =~= crate::CFS_MOUNT_HOME@ + "/"@ + v1 + Seq::<char>::empty());
        assert(mount_path(v2) =~= crate::CFS_MOUNT_HOME@ + "/"@ + v2 + Seq::<char>::empty());
        lemma_same_prefix_suffix(crate::CFS_MOUNT_HOME@ + "/"@, v1, v2, Seq::<char>::empty());
    }
    if config_file_path(v1) == config_file_path(v2) {
        lemma_same_prefix_suffix(crate::CFS_BOND_HOME@ + "/"@, v1, v2, "/config.json"@);
    }
    if start_file_path(v1) == start_file_path(v2) {
        lemma_same_prefix_suffix(crate::CFS_BOND_HOME@ + "/"@, v1, v2, "/start.sh"@);
    }
}

/// How far making a directory still has to go.
pub open spec fn dir_rank(stage: DirStage) -> nat {
    match stage {
        DirStage::Exists => 3,
        DirStage::IsDir => 2,
        DirStage::Create => 1,
    }
}

/// How far a start-up still has to go.
pub open spec fn startup_rank(phase: StartupPhase) -> nat {
    match phase {
        StartupPhase::CheckingReady => 100,
        StartupPhase::WritingConfig(p) => match p {
            ConfigWritePhase::Dir(stage) => 85 + dir_rank(stage),
            ConfigWritePhase::Serializing => 80,
            ConfigWritePhase::Writing => 75,
            ConfigWritePhase::Done => 74,
        },
        StartupPhase::WritingStart(p) => match p {
            StartWritePhase::Dir(stage) => 65 + dir_rank(stage),
            StartWritePhase::Writing => 60,
            StartWritePhase::MakingExecutable => 55,
            StartWritePhase::Done => 54,
        },
        StartupPhase::LogDir(stage) => 45 + dir_rank(stage),
        StartupPhase::MountDir(stage) => 35 + dir_rank(stage),
        StartupPhase::Spawning => 30,
        StartupPhase::Sleeping(_) => 20,
        StartupPhase::Confirming(_) => 10,
        StartupPhase::Done => 0,
    }
}

/// The phases that a start-up of `volume` reaches: it makes the directory of
/// the configuration file or of the start script only when the path has one.
pub open spec fn reachable_phase(volume: Seq<char>, phase: StartupPhase) -> bool {
    &&& phase matches StartupPhase::WritingConfig(ConfigWritePhase::Dir(_)) ==> config_dir(volume) is Some
    &&& phase matches StartupPhase::WritingStart(StartWritePhase::Dir(_)) ==> start_dir(volume) is Some
}

/// Every step of a start-up moves it forward, and it has finished exactly when
/// it gives its answer: it gives one after at most a hundred steps.
pub proof fn law_startup_progresses(volume: Seq<char>, phase: StartupPhase, event: EventView)
    requires
        accepts(phase, event),
    ensures
        startup_rank(startup_next(volume, phase, event).0) < startup_rank(phase),
        reachable_phase(volume, phase) ==> reachable_phase(volume, startup_next(volume, phase, event).0),
        (startup_next(volume, phase, event).0 == StartupPhase::Done) == (startup_next(
            volume,
            phase,
            event,
        ).1 is Finished),
{
}

/// The outcomes that report a failed file-system or process operation.
pub open spec fn reports_failure(event: EventView) -> bool {
    match event {
        EventView::Io(Err(_)) => true,
        EventView::Serialized(Err(_)) => true,
        EventView::Spawned(Err(_)) => true,
        _ => false,
    }
}

/// A failure is never passed over: a failed operation, or any failure or
/// output of `chmod`, ends the start-up with an error. Only the checks whether
/// the client runs take a failure to run them for "not running".
pub proof fn law_startup_failures_end_it(volume: Seq<char>, phase: StartupPhase, event: EventView)
    requires
        reachable_phase(volume, phase),
        accepts(phase, event),
        reports_failure(event) || (phase == StartupPhase::WritingStart(StartWritePhase::MakingExecutable) && !(event matches EventView::Ran(Ok(ProgramStdoutView::Text(out))) && out.len() == 0)),
    ensures
        startup_next(volume, phase, event).1 matches NextView::Finished(Err(_)),
{
}

/// A start-up succeeds only with `OK` when the client already ran, and
/// otherwise with `OK,<pid>` or `child process exit` after the client was
/// started and checked again.
pub proof fn law_startup_answers(volume: Seq<char>, phase: StartupPhase, event: EventView)
    requires
        accepts(phase, event),
    ensures
        startup_next(volume, phase, event).1 matches NextView::Finished(Ok(answer)) ==> {
            ||| phase == StartupPhase::CheckingReady && answer == "OK"@
            ||| (phase matches StartupPhase::Confirming(pid) && (answer == "OK,"@ + decimal(pid as nat)
                || answer == "child process exit"@))
        },
{
}

/// A client that already runs is left alone: the start-up answers `OK` at once
/// and asks for nothing more.
pub proof fn law_running_client_left_alone(volume: Seq<char>, count: Seq<char>)
    requires
        count_shows_process(Ok(ProgramStdoutView::Text(count)), "0"@),
    ensures
        startup_next(
            volume,
            StartupPhase::CheckingReady,
            EventView::Ran(Ok(ProgramStdoutView::Text(count))),
        ) == (StartupPhase::Done, NextView::Finished(Ok("OK"@))),
{
}

/// The get route calls a volume's client running exactly when the start-up
/// would: its answer is `OK` when the same count shows a process.
pub proof fn law_get_route_agrees_with_startup(volume: Seq<char>, count: Seq<char>)
    ensures
        (bond_get_answer(volume, Ok(ProgramStdoutView::Text(count))) == "OK"@)
            == count_shows_process(Ok(ProgramStdoutView::Text(count)), "0"@),
{
    reveal_strlit("OK");
    reveal_strlit("cfs-client not start");
    assert("cfs-client not start"@.len() != "OK"@.len());
}

/// Setting up what `setup` made changes nothing more: the completed
/// configuration passes again and comes out the same.
pub proof fn law_setup_is_idempotent(config: ClientConfig, bond: Bond, again: Bond)
    requires
        config.volName is Some,
        config.masterAddr is Some,
        set_up(config, bond),
        set_up(bond.client_config(), again),
    ensures
        bond.client_config().volName is Some,
        bond.client_config().masterAddr is Some,
        again.volume() == bond.volume(),
        opt_view(again.client_config().mountPoint) == opt_view(bond.client_config().mountPoint),
        opt_view(again.client_config().logDir) == opt_view(bond.client_config().logDir),
        opt_view(again.client_config().logLevel) == opt_view(bond.client_config().logLevel),
        opt_view(again.client_config().owner) == opt_view(bond.client_config().owner),
{
}

/// A `ConfigMap` reads back what was written: after `insert(name, value)`
/// (whose result `after` is), `get(name)` gives `value`, and every other name
/// reads as it did before.
pub proof fn law_config_map_get_after_insert(
    before: ConfigMap,
    after: ConfigMap,
    name: Seq<char>,
    value: Seq<char>,
    other: Seq<char>,
)
    requires
        after@ == before@.insert(name, value),
    ensures
        after@.contains_key(name),
        after@[name] == value,
        other != name ==> after@.contains_key(other) == before@.contains_key(other),
        other != name && before@.contains_key(other) ==> after@[other] == before@[other],
{
}

/// How far a start-up of the `mount` front end or the salvo controller still
/// has to go.
pub open spec fn launch_rank(phase: LaunchPhase) -> nat {
    match phase {
        LaunchPhase::WritingConfig(p) => match p {
            ConfigFilePhase::MakingDir => 9,
            ConfigFilePhase::Serializing => 8,
            ConfigFilePhase::Writing => 7,
            ConfigFilePhase::Done => 7,
        },
        LaunchPhase::MakingLogDir => 6,
        LaunchPhase::MakingMountDir => 5,
        LaunchPhase::Spawning => 4,
        LaunchPhase::Sleeping(_) => 3,
        LaunchPhase::Confirming(_) => 2,
        LaunchPhase::Done => 0,
    }
}

/// The start-up of the `mount` front end and the salvo controller moves forward with every step, and a failed
/// operation ends it with an error.
pub proof fn law_launch_progresses(plan: LaunchPlanView, phase: LaunchPhase, event: EventView)
    requires
        launch_accepts(phase, event),
    ensures
        launch_rank(launch_next(plan, phase, event).0) < launch_rank(phase),
        (launch_next(plan, phase, event).0 == LaunchPhase::Done) == (launch_next(plan, phase, event).1 is Finished),
        reports_failure(event) ==> launch_next(plan, phase, event).1 matches LaunchNextView::Finished(Err(_)),
{
}

} // verus!
