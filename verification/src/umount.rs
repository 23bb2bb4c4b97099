//! The rocket `umount` route, which unmounts a volume by running `umount` on
//! its mount point.
use vstd::prelude::*;
use vstd::string::*;
use crate::bond::opt_view;
use crate::io::{ran_view, strings_view, Action, ActionView, IoError, IoErrorView, ProgramStdout, ProgramStdoutView};
use crate::utils::{gen_mount_path, mount_path};
use crate::routes::{
    check_volume_name, gen_umount_command, output_not_utf8, start_failed,
    umount_command, volume_checked,
};

verus! {

/// What the route runs for a volume name: `umount /cfs/mount/{volume}`; or its
/// answer without running anything.
pub fn umount_request(volume_name: Option<String>) -> (res: Result<Action, String>)
    ensures
        match volume_checked(opt_view(volume_name)) {
            Ok(v) => res matches Ok(a) && a@ == ActionView::Run {
                program: "umount"@,
                args: seq![mount_path(v)],
            },
            Err(answer) => res matches Err(e) && e@ == answer,
        },
{
    match check_volume_name(volume_name) {
        Ok(v) => {
            let mut args: Vec<String> = Vec::new();
            args.push(gen_mount_path(v.as_str()));
            proof {
                assert(strings_view(args@) =~= seq![mount_path(v@)]);
            }
            Ok(Action::Run { program: "umount".to_owned(), args })
        },
        Err(answer) => Err(answer),
    }
}

/// The answer of the route once `umount` has run; a failure to run it names
/// the command line.
pub open spec fn umount_answer(volume: Seq<char>, outcome: Result<ProgramStdoutView, IoErrorView>) -> Seq<char> {
    match outcome {
        Err(e) => start_failed(umount_command(volume), e.display),
        Ok(ProgramStdoutView::NotUtf8(e)) => output_not_utf8(e.display),
        Ok(ProgramStdoutView::Text(_)) => "ok"@,
    }
}

pub fn umount_response(volume: &str, outcome: Result<ProgramStdout, IoError>) -> (res: String)
    ensures
        res@ == umount_answer(volume@, ran_view(outcome)),
{
    match outcome {
        Err(e) => {
            let mut s = "fail: start[".to_owned();
            s.append(gen_umount_command(volume).as_str());
            s.append("] fail, output:");
            s.append(e.display.as_str());
            s.append("\n");
            s
        },
        Ok(ProgramStdout::NotUtf8(e)) => {
            let mut s = "fail: parse shell output fail, ".to_owned();
            s.append(e.display.as_str());
            s
        },
        Ok(ProgramStdout::Text(_)) => "ok".to_owned(),
    }
}

} // verus!
