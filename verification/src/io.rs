//! The vocabulary between the library and the caller that performs its work:
//! what the library asks to have done, and what the caller reports back.
use vstd::prelude::*;
use vstd::string::*;
use crate::text::{trim, trim_str, str_equal};

verus! {

/// An `std::io::Error` as the library sees it: its `Display` and `Debug` texts.
pub struct IoError {
    pub display: String,
    pub debug: String,
}

/// A failed serialisation of the client configuration: the configuration's
/// `Debug` text and the serialiser error's `Debug` text.
pub struct SerdeFailure {
    pub object_debug: String,
    pub error_debug: String,
}

/// A `std::string::FromUtf8Error` as the library sees it: its `Display` and
/// `Debug` texts.
pub struct DecodeError {
    pub display: String,
    pub debug: String,
}

/// What a finished program wrote to its standard output.
pub enum ProgramStdout {
    /// The output, valid UTF-8.
    Text(String),
    /// The output was not UTF-8.
    NotUtf8(DecodeError),
}

/// Work the caller performs on the library's behalf.
pub enum Action {
    /// Run `program` with `args` to completion and report its standard output.
    Run { program: String, args: Vec<String> },
    /// Report whether `path` exists.
    PathExists(String),
    /// Report whether `path` is a directory.
    PathIsDir(String),
    /// Create `path` and its missing ancestors.
    CreateDirAll(String),
    /// Serialise the client configuration as pretty-printed JSON.
    SerializeConfig,
    /// Write `content` to the file at `path`.
    WriteFile { path: String, content: String },
    /// Start `program` with `args` without waiting for it; report its process id.
    Spawn { program: String, args: Vec<String> },
    /// Sleep for the given number of milliseconds.
    Sleep(u64),
}

/// The outcome of an [`Action`].
pub enum Event {
    /// The outcome of [`Action::Run`].
    Ran(Result<ProgramStdout, IoError>),
    /// The answer to [`Action::PathExists`] or [`Action::PathIsDir`].
    Flag(bool),
    /// The outcome of [`Action::CreateDirAll`] or [`Action::WriteFile`].
    Io(Result<(), IoError>),
    /// The outcome of [`Action::SerializeConfig`].
    Serialized(Result<String, SerdeFailure>),
    /// The outcome of [`Action::Spawn`].
    Spawned(Result<u32, IoError>),
    /// [`Action::Sleep`] is over.
    Slept,
}

pub struct IoErrorView {
    pub display: Seq<char>,
    pub debug: Seq<char>,
}

pub struct DecodeErrorView {
    pub display: Seq<char>,
    pub debug: Seq<char>,
}

pub enum ProgramStdoutView {
    Text(Seq<char>),
    NotUtf8(DecodeErrorView),
}

pub enum ActionView {
    Run { program: Seq<char>, args: Seq<Seq<char>> },
    PathExists(Seq<char>),
    PathIsDir(Seq<char>),
    CreateDirAll(Seq<char>),
    SerializeConfig,
    WriteFile { path: Seq<char>, content: Seq<char> },
    Spawn { program: Seq<char>, args: Seq<Seq<char>> },
    Sleep(u64),
}

pub enum EventView {
    Ran(Result<ProgramStdoutView, IoErrorView>),
    Flag(bool),
    Io(Result<(), IoErrorView>),
    Serialized(Result<Seq<char>, (Seq<char>, Seq<char>)>),
    Spawned(Result<u32, IoErrorView>),
    Slept,
}

/// The texts of a list of strings.
pub open spec fn strings_view(v: Seq<String>) -> Seq<Seq<char>> {
    v.map_values(|s: String| s@)
}

impl View for IoError {
    type V = IoErrorView;

    open spec fn view(&self) -> IoErrorView {
        IoErrorView { display: self.display@, debug: self.debug@ }
    }
}

impl View for ProgramStdout {
    type V = ProgramStdoutView;

    open spec fn view(&self) -> ProgramStdoutView {
        match self {
            ProgramStdout::Text(t) => ProgramStdoutView::Text(t@),
            ProgramStdout::NotUtf8(e) => ProgramStdoutView::NotUtf8(
                DecodeErrorView { display: e.display@, debug: e.debug@ },
            ),
        }
    }
}

impl View for Action {
    type V = ActionView;

    open spec fn view(&self) -> ActionView {
        match self {
            Action::Run { program, args } => ActionView::Run {
                program: program@,
                args: strings_view(args@),
            },
            Action::PathExists(p) => ActionView::PathExists(p@),
            Action::PathIsDir(p) => ActionView::PathIsDir(p@),
            Action::CreateDirAll(p) => ActionView::CreateDirAll(p@),
            Action::SerializeConfig => ActionView::SerializeConfig,
            Action::WriteFile { path, content } => ActionView::WriteFile {
                path: path@,
                content: content@,
            },
            Action::Spawn { program, args } => ActionView::Spawn {
                program: program@,
                args: strings_view(args@),
            },
            Action::Sleep(ms) => ActionView::Sleep(*ms),
        }
    }
}

impl View for Event {
    type V = EventView;

    open spec fn view(&self) -> EventView {
        match self {
            Event::Ran(r) => EventView::Ran(
                match r {
                    Ok(o) => Ok(o@),
                    Err(e) => Err(e@),
                },
            ),
            Event::Flag(b) => EventView::Flag(*b),
            Event::Io(r) => EventView::Io(
                match r {
                    Ok(()) => Ok(()),
                    Err(e) => Err(e@),
                },
            ),
            Event::Serialized(r) => EventView::Serialized(
                match r {
                    Ok(json) => Ok(json@),
                    Err(f) => Err((f.object_debug@, f.error_debug@)),
                },
            ),
            Event::Spawned(r) => EventView::Spawned(
                match r {
                    Ok(pid) => Ok(*pid),
                    Err(e) => Err(e@),
                },
            ),
            Event::Slept => EventView::Slept,
        }
    }
}

/// The view of the outcome of a run.
pub open spec fn ran_view(outcome: Result<ProgramStdout, IoError>) -> Result<ProgramStdoutView, IoErrorView> {
    match outcome {
        Ok(o) => Ok(o@),
        Err(e) => Err(e@),
    }
}

/// Whether a process count printed by a `ps … | wc -l` pipeline shows a running
/// process: the pipeline ran, printed UTF-8, and its trimmed output is not
/// `absent` (the count that means "none").
pub open spec fn count_shows_process(outcome: Result<ProgramStdoutView, IoErrorView>, absent: Seq<char>) -> bool {
    match outcome {
        Ok(ProgramStdoutView::Text(t)) => trim(t) != absent,
        _ => false,
    }
}

pub fn count_differs(outcome: &Result<ProgramStdout, IoError>, absent: &str) -> (res: bool)
    ensures
        res == count_shows_process(
            match outcome {
                Ok(o) => Ok(o@),
                Err(e) => Err(e@),
            },
            absent@,
        ),
{
    match outcome {
        Ok(ProgramStdout::Text(t)) => {
            let trimmed = trim_str(t.as_str());
            !str_equal(trimmed.as_str(), absent)
        },
        _ => false,
    }
}

} // verus!
