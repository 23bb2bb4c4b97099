//! Paths, scripts and shell commands that the agent derives from a volume name.
use vstd::prelude::*;
use vstd::string::*;
use crate::errors::{ErrorCode, ErrorCodeView};
use crate::io::{Action, ActionView, Event, EventView};
use crate::sys::{parent_of, path_parent};
use crate::text::{trim_lines, trim_each_line};
use crate::{CFS_BOND_HOME, CFS_CLIENT_FILE, CFS_MOUNT_HOME};

verus! {

/// `/cfs/bond/{volume}/config.json`: the client configuration of a volume.
pub open spec fn config_file_path(volume: Seq<char>) -> Seq<char> {
    CFS_BOND_HOME@ + "/"@ + volume + "/config.json"@
}

/// `/cfs/bond/{volume}/start.sh`: the script that starts the client of a volume.
pub open spec fn start_file_path(volume: Seq<char>) -> Seq<char> {
    CFS_BOND_HOME@ + "/"@ + volume + "/start.sh"@
}

/// `/cfs/bond/{volume}/log`: the log directory of a volume's client.
pub open spec fn log_path(volume: Seq<char>) -> Seq<char> {
    CFS_BOND_HOME@ + "/"@ + volume + "/log"@
}

/// `/cfs/mount/{volume}`: where a volume is mounted.
pub open spec fn mount_path(volume: Seq<char>) -> Seq<char> {
    CFS_MOUNT_HOME@ + "/"@ + volume
}

/// The shell pipeline that prints how many `cfs-client` processes run with the
/// volume's configuration file (`0` when none does).
pub open spec fn bond_shell(volume: Seq<char>) -> Seq<char> {
    "ps aux|grep '/cfs/client/cfs-client -f -c "@ + config_file_path(volume) + "'|grep -v grep|wc -l"@
}

/// The start script as formatted, before its lines are trimmed.
pub open spec fn start_script_template(volume: Seq<char>) -> Seq<char> {
    "#!/usr/bin/env bash\n            cd "@ + volume + "\n            nohup "@ + CFS_CLIENT_FILE@
        + " -f -c "@ + config_file_path(volume) + " 2>&1 &\n        "@
}

/// The start script of a volume: the template with every line trimmed.
pub open spec fn start_shell_content(volume: Seq<char>) -> Seq<char> {
    trim_lines(start_script_template(volume))
}

pub fn gen_config_file(volume_name: &str) -> (res: String)
    ensures
        res@ == config_file_path(volume_name@),
{
    let mut s = CFS_BOND_HOME.to_owned();
    s.append("/");
    s.append(volume_name);
    s.append("/config.json");
    s
}

pub fn gen_start_file(volume_name: &str) -> (res: String)
    ensures
        res@ == start_file_path(volume_name@),
{
    let mut s = CFS_BOND_HOME.to_owned();
    s.append("/");
    s.append(volume_name);
    s.append("/start.sh");
    s
}

pub fn gen_log_path(volume_name: &str) -> (res: String)
    ensures
        res@ == log_path(volume_name@),
{
    let mut s = CFS_BOND_HOME.to_owned();
    s.append("/");
    s.append(volume_name);
    s.append("/log");
    s
}

pub fn gen_mount_path(volume_name: &str) -> (res: String)
    ensures
        res@ == mount_path(volume_name@),
{
    let mut s = CFS_MOUNT_HOME.to_owned();
    s.append("/");
    s.append(volume_name);
    s
}

pub fn get_bond_shell(volume_name: &str) -> (res: String)
    ensures
        res@ == bond_shell(volume_name@),
{
    let mut s = "ps aux|grep '/cfs/client/cfs-client -f -c ".to_owned();
    s.append(gen_config_file(volume_name).as_str());
    s.append("'|grep -v grep|wc -l");
    s
}

pub fn gen_start_shell_content(volume_name: &str) -> (res: String)
    ensures
        res@ == start_shell_content(volume_name@),
{
    let mut content = "#!/usr/bin/env bash\n            cd ".to_owned();
    content.append(volume_name);
    content.append("\n            nohup ");
    content.append(CFS_CLIENT_FILE);
    content.append(" -f -c ");
    content.append(gen_config_file(volume_name).as_str());
    content.append(" 2>&1 &\n        ");
    trim_each_line(content.as_str())
}

/// Where making sure that a directory exists has got to.
#[derive(Clone, Copy, PartialEq, Eq, Structural)]
pub enum DirStage {
    /// Asked whether the path exists.
    Exists,
    /// Asked whether the existing path is a directory.
    IsDir,
    /// Asked to create the directory.
    Create,
}

/// What making a directory asks for next, or how it ended.
pub enum MkdirsNext {
    Ask(DirStage, Action),
    Made,
    Failed(ErrorCode),
}

pub enum MkdirsNextView {
    Ask(DirStage, ActionView),
    Made,
    Failed(ErrorCodeView),
}

impl View for MkdirsNext {
    type V = MkdirsNextView;

    open spec fn view(&self) -> MkdirsNextView {
        match self {
            MkdirsNext::Ask(stage, a) => MkdirsNextView::Ask(*stage, a@),
            MkdirsNext::Made => MkdirsNextView::Made,
            MkdirsNext::Failed(e) => MkdirsNextView::Failed(e@),
        }
    }
}

/// The events that making a directory waits for at `stage`.
pub open spec fn mkdirs_accepts(stage: DirStage, event: EventView) -> bool {
    match stage {
        DirStage::Exists => event is Flag,
        DirStage::IsDir => event is Flag,
        DirStage::Create => event is Io,
    }
}

/// Making `path` a directory: an existing directory is done with, anything
/// else that exists at the path is refused, and a missing path is created
/// with its ancestors.
pub open spec fn mkdirs_after(path: Seq<char>, stage: DirStage, event: EventView) -> MkdirsNextView {
    match (stage, event) {
        (DirStage::Exists, EventView::Flag(exists)) => if exists {
            MkdirsNextView::Ask(DirStage::IsDir, ActionView::PathIsDir(path))
        } else {
            MkdirsNextView::Ask(DirStage::Create, ActionView::CreateDirAll(path))
        },
        (DirStage::IsDir, EventView::Flag(is_dir)) => if is_dir {
            MkdirsNextView::Made
        } else {
            MkdirsNextView::Failed(ErrorCodeView::E10003_MKDIRS_NEED_DIR(path))
        },
        (DirStage::Create, EventView::Io(r)) => match r {
            Ok(()) => MkdirsNextView::Made,
            Err(e) => MkdirsNextView::Failed(ErrorCodeView::E10001_IO_ERROR(e)),
        },
        _ => MkdirsNextView::Made,
    }
}

/// The next request or the end of making `path` a directory, at `stage`, on `event`.
pub fn mkdirs_step(path: String, stage: DirStage, event: Event) -> (res: MkdirsNext)
    requires
        mkdirs_accepts(stage, event@),
    ensures
        res@ == mkdirs_after(path@, stage, event@),
{
    match (stage, event) {
        (DirStage::Exists, Event::Flag(exists)) => if exists {
            MkdirsNext::Ask(DirStage::IsDir, Action::PathIsDir(path))
        } else {
            MkdirsNext::Ask(DirStage::Create, Action::CreateDirAll(path))
        },
        (DirStage::IsDir, Event::Flag(is_dir)) => if is_dir {
            MkdirsNext::Made
        } else {
            MkdirsNext::Failed(ErrorCode::E10003_MKDIRS_NEED_DIR(path))
        },
        (DirStage::Create, Event::Io(r)) => match r {
            Ok(()) => MkdirsNext::Made,
            Err(e) => MkdirsNext::Failed(ErrorCode::E10001_IO_ERROR(e)),
        },
        _ => MkdirsNext::Made,
    }
}

/// Making sure that a directory exists.
pub struct Mkdirs {
    path: String,
    stage: DirStage,
}

impl Mkdirs {
    pub closed spec fn path(self) -> Seq<char> {
        self.path@
    }

    pub closed spec fn stage(self) -> DirStage {
        self.stage
    }

    /// Takes making the directory one step further on `event`, the outcome of
    /// the action it asked for last.
    pub fn step(&mut self, event: Event) -> (res: MkdirsNext)
        requires
            mkdirs_accepts(old(self).stage(), event@),
        ensures
            final(self).path() == old(self).path(),
            res@ == mkdirs_after(old(self).path(), old(self).stage(), event@),
            res matches MkdirsNext::Ask(stage, _) ==> final(self).stage() == stage,
    {
        let next = mkdirs_step(self.path.clone(), self.stage, event);
        if let MkdirsNext::Ask(stage, _) = &next {
            self.stage = *stage;
        }
        next
    }
}

/// Makes sure that `path` is a directory: first asks whether it exists.
pub fn mkdirs(path: String) -> (res: (Mkdirs, Action))
    ensures
        res.0.path() == path@,
        res.0.stage() == DirStage::Exists,
        res.1@ == ActionView::PathExists(path@),
{
    let ask = Action::PathExists(path.clone());
    (Mkdirs { path, stage: DirStage::Exists }, ask)
}

/// Makes sure that the directory of `current_file` exists; nothing to do when
/// the path has no parent. The directory is a proper prefix of the file's
/// path, so the file's own path is never made a directory.
pub fn parent_mkdirs(current_file: &str) -> (res: Option<(Mkdirs, Action)>)
    ensures
        match path_parent(current_file@) {
            None => res is None,
            Some(dir) => res matches Some(m) && m.0.path() == dir && m.0.stage() == DirStage::Exists
                && m.1@ == ActionView::PathExists(dir),
        },
        res matches Some(m) ==> m.0.path().len() < current_file@.len() && m.0.path()
            == current_file@.take(m.0.path().len() as int),
{
    match parent_of(current_file) {
        Some(dir) => Some(mkdirs(dir)),
        None => None,
    }
}

} // verus!
