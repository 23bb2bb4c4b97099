//! Properties of single operations, stated by what their results must satisfy.
use vstd::prelude::*;
use crate::bond::{opt_view, set_up, Bond, ClientConfig};
use crate::io::{EventView, IoErrorView, ProgramStdoutView};
use crate::launch::{
    config_file_next, launch_next, ConfigFileNextView, ConfigFilePhase, LaunchNextView, LaunchPhase,
};
use crate::routes::umount_command;
use crate::text::{decimal, digit_char, is_white_space, trim, trim_end, trim_start};
use crate::startup::{startup_next, ConfigWritePhase, NextView, StartupPhase};
use crate::io::ActionView;
use crate::utils::{log_path, mount_path};

verus! {

/// Whether `c` is one of the decimal digits `0` to `9`.
pub open spec fn is_digit(c: char) -> bool {
    ('0' as u32) <= (c as u32) <= ('9' as u32)
}

/// The number that a string of decimal digits writes, the most significant
/// digit first.
pub open spec fn digits_value(s: Seq<char>) -> int
    decreases s.len(),
{
    if s.len() == 0 {
        0
    } else {
        digits_value(s.drop_last()) * 10 + ((s.last() as u32) - ('0' as u32))
    }
}

proof fn lemma_digit_char(d: nat)
    requires
        d < 10,
    ensures
        (digit_char(d) as u32) == ('0' as u32) + d,
{
}

/// `decimal(n)`, which `u32_to_decimal` writes, is `n` in base ten as `Display`
/// writes it: digits only, reading back as `n`, without a leading zero.
pub proof fn law_decimal_is_base_ten(n: nat)
    ensures
        decimal(n).len() >= 1,
        forall|i: int| 0 <= i < decimal(n).len() ==> is_digit(#[trigger] decimal(n)[i]),
        digits_value(decimal(n)) == n,
        n > 0 ==> decimal(n)[0] != '0',
    decreases n,
{
    if n < 10 {
        lemma_digit_char(n);
        let t = seq![digit_char(n)];
        assert(t.drop_last() =~= Seq::<char>::empty());
        assert(digits_value(Seq::<char>::empty()) == 0);
        assert(digits_value(t) == digits_value(t.drop_last()) * 10 + ((t.last() as u32) - ('0' as u32)));
    } else {
        let q = n / 10;
        let r = n % 10;
        law_decimal_is_base_ten(q as nat);
        lemma_digit_char(r as nat);
        let s = decimal(q as nat);
        let t = s + seq![digit_char(r as nat)];
        assert(decimal(n) == t);
        assert(t.drop_last() =~= s);
        assert forall|i: int| 0 <= i < t.len() implies is_digit(#[trigger] t[i]) by {
            if i < s.len() {
                assert(t[i] == s[i]);
            }
        }
        assert(t[0] == s[0]);
        assert(t.last() == digit_char(r as nat));
        assert(digits_value(t) == digits_value(s) * 10 + ((t.last() as u32) - ('0' as u32)));
        assert(n == q * 10 + r);
    }
}

/// `Bond::setup` keeps every setting that it does not derive: each field but
/// `mountPoint`, `logDir`, `logLevel` and `owner` is the posted one.
pub proof fn law_setup_keeps_posted_settings(config: ClientConfig, bond: Bond)
    requires
        set_up(config, bond),
    ensures
        bond.client_config().volName == config.volName,
        bond.client_config().masterAddr == config.masterAddr,
        bond.client_config().profPort == config.profPort,
        bond.client_config().exporterPort == config.exporterPort,
        bond.client_config().consulAddr == config.consulAddr,
        bond.client_config().lookupValid == config.lookupValid,
        bond.client_config().attrValid == config.attrValid,
        bond.client_config().icacheTimeout == config.icacheTimeout,
        bond.client_config().enSyncWrite == config.enSyncWrite,
        bond.client_config().autoInvalData == config.autoInvalData,
        bond.client_config().ronly == config.ronly,
        bond.client_config().writecache == config.writecache,
        bond.client_config().keepcache == config.keepcache,
        bond.client_config().token == config.token,
        bond.client_config().readRate == config.readRate,
        bond.client_config().writeRate == config.writeRate,
        bond.client_config().followerRead == config.followerRead,
        bond.client_config().accessKey == config.accessKey,
        bond.client_config().secretKey == config.secretKey,
        bond.client_config().disableDcache == config.disableDcache,
        bond.client_config().subdir == config.subdir,
        bond.client_config().fsyncOnClose == config.fsyncOnClose,
        bond.client_config().maxcpus == config.maxcpus,
        bond.client_config().enableXattr == config.enableXattr,
        bond.client_config().enableBcache == config.enableBcache,
{
}

/// The `mount` front end's `setup` keeps every setting that it does not
/// derive.
pub proof fn law_mount_setup_keeps_posted_settings(config: crate::mount::ClientConfig, bond: crate::mount::Bond)
    requires
        crate::mount::set_up(config, bond),
    ensures
        bond.client_config().volName == config.volName,
        bond.client_config().masterAddr == config.masterAddr,
        bond.client_config().profPort == config.profPort,
        bond.client_config().exporterPort == config.exporterPort,
        bond.client_config().consulAddr == config.consulAddr,
        bond.client_config().lookupValid == config.lookupValid,
        bond.client_config().attrValid == config.attrValid,
        bond.client_config().icacheTimeout == config.icacheTimeout,
        bond.client_config().enSyncWrite == config.enSyncWrite,
        bond.client_config().autoInvalData == config.autoInvalData,
        bond.client_config().ronly == config.ronly,
        bond.client_config().writecache == config.writecache,
        bond.client_config().keepcache == config.keepcache,
        bond.client_config().token == config.token,
        bond.client_config().readRate == config.readRate,
        bond.client_config().writeRate == config.writeRate,
        bond.client_config().followerRead == config.followerRead,
        bond.client_config().accessKey == config.accessKey,
        bond.client_config().secretKey == config.secretKey,
        bond.client_config().disableDcache == config.disableDcache,
        bond.client_config().subdir == config.subdir,
        bond.client_config().fsyncOnClose == config.fsyncOnClose,
        bond.client_config().maxcpus == config.maxcpus,
        bond.client_config().enableXattr == config.enableXattr,
        bond.client_config().enableBcache == config.enableBcache,
{
}

/// The `mount` front end answers the process id when the check after the
/// wait counts a process, and `fail: child process exit` when it counts `0`
/// or cannot be run.
pub proof fn law_mount_start_reports_dead_client(bond: crate::mount::Bond, pid: u32, out: Seq<char>, e: IoErrorView)
    ensures
        trim(out) == "0"@ ==> launch_next(
            crate::mount::launch_plan(bond),
            LaunchPhase::Confirming(pid),
            EventView::Ran(Ok(ProgramStdoutView::Text(out))),
        ) == (LaunchPhase::Done, LaunchNextView::Finished(Ok("fail: child process exit"@))),
        trim(out) != "0"@ ==> launch_next(
            crate::mount::launch_plan(bond),
            LaunchPhase::Confirming(pid),
            EventView::Ran(Ok(ProgramStdoutView::Text(out))),
        ) == (LaunchPhase::Done, LaunchNextView::Finished(Ok(decimal(pid as nat)))),
        launch_next(
            crate::mount::launch_plan(bond),
            LaunchPhase::Confirming(pid),
            EventView::Ran(Err(e)),
        ) == (LaunchPhase::Done, LaunchNextView::Finished(Ok("fail: child process exit"@))),
{
}

/// The salvo controller takes a count of `1` (only the `grep` itself) for a
/// client that is gone, and any other count for a running one.
pub proof fn law_controller_start_reports_dead_client(bond: crate::controller::Bond, pid: u32, out: Seq<char>)
    ensures
        trim(out) == "1"@ ==> launch_next(
            crate::controller::launch_plan(bond),
            LaunchPhase::Confirming(pid),
            EventView::Ran(Ok(ProgramStdoutView::Text(out))),
        ) == (LaunchPhase::Done, LaunchNextView::Finished(Ok("fail: child process exit"@))),
        trim(out) != "1"@ ==> launch_next(
            crate::controller::launch_plan(bond),
            LaunchPhase::Confirming(pid),
            EventView::Ran(Ok(ProgramStdoutView::Text(out))),
        ) == (LaunchPhase::Done, LaunchNextView::Finished(Ok(decimal(pid as nat)))),
{
}

/// The salvo controller writes exactly its completed settings as the
/// configuration file: once the file's directory is made, the file written is
/// the serialisation of the bond's settings.
pub proof fn law_controller_writes_its_settings(bond: crate::controller::Bond)
    ensures
        config_file_next(
            crate::controller::launch_plan(bond),
            ConfigFilePhase::MakingDir,
            EventView::Io(Ok(())),
        ) == (
            ConfigFilePhase::Writing,
            ConfigFileNextView::Perform(
                ActionView::WriteFile {
                    path: bond.config_file(),
                    content: crate::config_map::settings_json(bond.settings()),
                },
            ),
        ),
{
}

/// The salvo controller's `setup` keeps every posted setting but the mount
/// point and the log directory, which it derives; in particular a posted
/// `owner` or `logLevel` is kept.
pub proof fn law_controller_setup_keeps_posted_settings(
    config: Map<Seq<char>, Seq<char>>,
    bond: crate::controller::Bond,
    name: Seq<char>,
)
    requires
        crate::controller::set_up(config, bond),
        config.contains_key(name),
        name != "mountPoint"@,
        name != "logDir"@,
    ensures
        bond.settings().contains_key(name),
        bond.settings()[name] == config[name],
{
    reveal_strlit("logLevel");
    reveal_strlit("owner");
    reveal_strlit("mountPoint");
    reveal_strlit("logDir");
}

/// A volume is mounted at `/cfs/mount/{volume}`, and the delete route runs
/// `umount` on exactly that mount point.
pub proof fn law_delete_unmounts_the_mount_point(volume: Seq<char>)
    ensures
        mount_path(volume) == "/cfs/mount/"@ + volume,
        umount_command(volume) == "umount "@ + mount_path(volume),
{
    reveal_strlit("/cfs/mount");
    reveal_strlit("/");
    reveal_strlit("/cfs/mount/");
    reveal_strlit("umount ");
    reveal_strlit("umount /cfs/mount/");
    assert(mount_path(volume) =~= "/cfs/mount/"@ + volume);
    assert(umount_command(volume) =~= "umount "@ + mount_path(volume));
}

proof fn lemma_trim_start_cut(s: Seq<char>) -> (lo: int)
    ensures
        0 <= lo <= s.len(),
        trim_start(s) == s.skip(lo),
        forall|j: int| 0 <= j < lo ==> is_white_space(#[trigger] s[j]),
        lo < s.len() ==> !is_white_space(s[lo]),
    decreases s.len(),
{
    if s.len() > 0 && is_white_space(s[0]) {
        let t = s.drop_first();
        let k = lemma_trim_start_cut(t);
        assert(t.skip(k) =~= s.skip(k + 1));
        assert forall|j: int| 0 <= j < k + 1 implies is_white_space(#[trigger] s[j]) by {
            if j > 0 {
                assert(s[j] == t[j - 1]);
            }
        }
        if k + 1 < s.len() {
            assert(s[k + 1] == t[k]);
        }
        k + 1
    } else {
        assert(s.skip(0) =~= s);
        0
    }
}

proof fn lemma_trim_end_cut(s: Seq<char>) -> (hi: int)
    ensures
        0 <= hi <= s.len(),
        trim_end(s) == s.take(hi),
        forall|j: int| hi <= j < s.len() ==> is_white_space(#[trigger] s[j]),
        hi > 0 ==> !is_white_space(s[hi - 1]),
    decreases s.len(),
{
    if s.len() > 0 && is_white_space(s.last()) {
        let t = s.drop_last();
        let k = lemma_trim_end_cut(t);
        assert(t.take(k) =~= s.take(k));
        assert forall|j: int| k <= j < s.len() implies is_white_space(#[trigger] s[j]) by {
            if j < t.len() {
                assert(s[j] == t[j]);
            }
        }
        if k > 0 {
            assert(s[k - 1] == t[k - 1]);
        }
        k
    } else {
        assert(s.take(s.len() as int) =~= s);
        s.len() as int
    }
}

/// Trimming cuts white space off both ends and nothing else: what is left is a
/// contiguous part of `s`, everything cut before and after it is white space,
/// and what is left, if anything, starts and ends with a character that is not.
pub proof fn law_trim_cuts_white_ends(s: Seq<char>) -> (cut: (int, int))
    ensures
        0 <= cut.0 <= cut.1 <= s.len(),
        trim(s) == s.subrange(cut.0, cut.1),
        forall|j: int| 0 <= j < cut.0 ==> is_white_space(#[trigger] s[j]),
        forall|j: int| cut.1 <= j < s.len() ==> is_white_space(#[trigger] s[j]),
        cut.0 < cut.1 ==> !is_white_space(s[cut.0]) && !is_white_space(s[cut.1 - 1]),
{
    let lo = lemma_trim_start_cut(s);
    let t = s.skip(lo);
    let k = lemma_trim_end_cut(t);
    assert(t.take(k) =~= s.subrange(lo, lo + k));
    assert forall|j: int| lo + k <= j < s.len() implies is_white_space(#[trigger] s[j]) by {
        assert(s[j] == t[j - lo]);
    }
    if k > 0 {
        assert(s[lo + k - 1] == t[k - 1]);
    }
    (lo, lo + k)
}

/// The bond route takes a count of `0` for a client that does not run: at the
/// first check it goes on to write the configuration, and at the check after
/// the wait it answers `child process exit`; any other count is a running
/// client, answered `OK` at first and `OK,<pid>` after the wait.
pub proof fn law_startup_reads_the_process_count(volume: Seq<char>, pid: u32, out: Seq<char>)
    ensures
        trim(out) == "0"@ ==> startup_next(
            volume,
            StartupPhase::CheckingReady,
            EventView::Ran(Ok(ProgramStdoutView::Text(out))),
        ).0 is WritingConfig,
        trim(out) != "0"@ ==> startup_next(
            volume,
            StartupPhase::CheckingReady,
            EventView::Ran(Ok(ProgramStdoutView::Text(out))),
        ) == (StartupPhase::Done, NextView::Finished(Ok("OK"@))),
        trim(out) == "0"@ ==> startup_next(
            volume,
            StartupPhase::Confirming(pid),
            EventView::Ran(Ok(ProgramStdoutView::Text(out))),
        ) == (StartupPhase::Done, NextView::Finished(Ok("child process exit"@))),
        trim(out) != "0"@ ==> startup_next(
            volume,
            StartupPhase::Confirming(pid),
            EventView::Ran(Ok(ProgramStdoutView::Text(out))),
        ) == (StartupPhase::Done, NextView::Finished(Ok("OK,"@ + decimal(pid as nat)))),
{
}

/// The `mount` front end keeps a volume's files under `/cfs/client/{volume}`:
/// the log directory is that directory and the configuration file is
/// `config.json` in it; the volume is mounted at `/cfs/mount/{volume}`.
pub proof fn law_mount_front_end_paths(volume: Seq<char>)
    ensures
        crate::mount::client_log_path(volume) == "/cfs/client/"@ + volume,
        crate::mount::client_config_file(volume) == crate::mount::client_log_path(volume) + "/config.json"@,
        crate::mount::client_mount_path(volume) == mount_path(volume),
{
    reveal_strlit("/cfs/mount");
    reveal_strlit("/");
    reveal_strlit("/cfs/mount/");
    assert(crate::mount::client_config_file(volume) =~= crate::mount::client_log_path(volume) + "/config.json"@);
    assert(mount_path(volume) =~= "/cfs/mount/"@ + volume);
}

} // verus!
