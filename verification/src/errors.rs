//! The error codes of the start-up sequence.
use vstd::prelude::*;
use vstd::string::*;
use crate::io::{IoError, IoErrorView};
use crate::sys::{debug_of, debug_str};

verus! {

/// Why starting a volume's client failed. The causes that the standard library
/// reports are held as their texts.
#[allow(non_camel_case_types)]
pub enum ErrorCode {
    E10001_IO_ERROR(IoError),
    /// Serialising the configuration failed: a message and the error's `Debug` text.
    E10002_SERDE(String, String),
    /// mkdirs but param is file
    E10003_MKDIRS_NEED_DIR(String),
    E10004_WRITE_FILE(String, IoError),
    /// Output that was not UTF-8: the decoding error's `Debug` text.
    E10005(String),
    E10006_EXEC_PROGRAM(String, IoError),
    E10007_CHMOD_FAIL(String),
}

#[allow(non_camel_case_types)]
pub enum ErrorCodeView {
    E10001_IO_ERROR(IoErrorView),
    E10002_SERDE(Seq<char>, Seq<char>),
    E10003_MKDIRS_NEED_DIR(Seq<char>),
    E10004_WRITE_FILE(Seq<char>, IoErrorView),
    E10005(Seq<char>),
    E10006_EXEC_PROGRAM(Seq<char>, IoErrorView),
    E10007_CHMOD_FAIL(Seq<char>),
}

impl View for ErrorCode {
    type V = ErrorCodeView;

    open spec fn view(&self) -> ErrorCodeView {
        match self {
            ErrorCode::E10001_IO_ERROR(e) => ErrorCodeView::E10001_IO_ERROR(e@),
            ErrorCode::E10002_SERDE(m, e) => ErrorCodeView::E10002_SERDE(m@, e@),
            ErrorCode::E10003_MKDIRS_NEED_DIR(f) => ErrorCodeView::E10003_MKDIRS_NEED_DIR(f@),
            ErrorCode::E10004_WRITE_FILE(f, e) => ErrorCodeView::E10004_WRITE_FILE(f@, e@),
            ErrorCode::E10005(e) => ErrorCodeView::E10005(e@),
            ErrorCode::E10006_EXEC_PROGRAM(p, e) => ErrorCodeView::E10006_EXEC_PROGRAM(p@, e@),
            ErrorCode::E10007_CHMOD_FAIL(p) => ErrorCodeView::E10007_CHMOD_FAIL(p@),
        }
    }
}

impl ErrorCodeView {
    /// The error's message: the code, then what failed.
    pub open spec fn message(self) -> Seq<char> {
        match self {
            ErrorCodeView::E10001_IO_ERROR(e) => "10001:"@ + e.debug,
            ErrorCodeView::E10002_SERDE(obj, e) => "10002: serde objet["@ + debug_str(obj)
                + "] fail, "@ + e,
            ErrorCodeView::E10003_MKDIRS_NEED_DIR(file) => "10003: mkdirs needs dir, but file["@
                + debug_str(file) + "]"@,
            ErrorCodeView::E10004_WRITE_FILE(file, e) => "10004: write file["@ + file
                + "] fail, "@ + e.debug,
            ErrorCodeView::E10005(e) => "10005: FromUtf8Error, "@ + e,
            ErrorCodeView::E10006_EXEC_PROGRAM(program, e) => "10006: exec program["@ + program
                + "] fail, "@ + e.debug,
            ErrorCodeView::E10007_CHMOD_FAIL(program) => "10007: chmod fail "@ + program,
        }
    }

    /// The error as `{:?}` shows it: the variant's name, then its fields in
    /// brackets, separated by `, `.
    pub open spec fn debug_text(self) -> Seq<char> {
        match self {
            ErrorCodeView::E10001_IO_ERROR(e) => "E10001_IO_ERROR("@ + e.debug + ")"@,
            ErrorCodeView::E10002_SERDE(obj, e) => "E10002_SERDE("@ + debug_str(obj) + ", "@ + e
                + ")"@,
            ErrorCodeView::E10003_MKDIRS_NEED_DIR(file) => "E10003_MKDIRS_NEED_DIR("@ + debug_str(
                file,
            ) + ")"@,
            ErrorCodeView::E10004_WRITE_FILE(file, e) => "E10004_WRITE_FILE("@ + debug_str(file)
                + ", "@ + e.debug + ")"@,
            ErrorCodeView::E10005(e) => "E10005("@ + e + ")"@,
            ErrorCodeView::E10006_EXEC_PROGRAM(program, e) => "E10006_EXEC_PROGRAM("@ + debug_str(
                program,
            ) + ", "@ + e.debug + ")"@,
            ErrorCodeView::E10007_CHMOD_FAIL(program) => "E10007_CHMOD_FAIL("@ + debug_str(program)
                + ")"@,
        }
    }
}

impl ErrorCode {
    /// The error's message, as its `Display` impl writes it.
    pub fn to_string(&self) -> (res: String)
        ensures
            res@ == self@.message(),
    {
        match self {
            ErrorCode::E10001_IO_ERROR(e) => {
                let mut s = "10001:".to_owned();
                s.append(e.debug.as_str());
                s
            },
            ErrorCode::E10002_SERDE(obj, e) => {
                let mut s = "10002: serde objet[".to_owned();
                s.append(debug_of(obj.as_str()).as_str());
                s.append("] fail, ");
                s.append(e.as_str());
                s
            },
            ErrorCode::E10003_MKDIRS_NEED_DIR(file) => {
                let mut s = "10003: mkdirs needs dir, but file[".to_owned();
                s.append(debug_of(file.as_str()).as_str());
                s.append("]");
                s
            },
            ErrorCode::E10004_WRITE_FILE(file, e) => {
                let mut s = "10004: write file[".to_owned();
                s.append(file.as_str());
                s.append("] fail, ");
                s.append(e.debug.as_str());
                s
            },
            ErrorCode::E10005(e) => {
                let mut s = "10005: FromUtf8Error, ".to_owned();
                s.append(e.as_str());
                s
            },
            ErrorCode::E10006_EXEC_PROGRAM(program, e) => {
                let mut s = "10006: exec program[".to_owned();
                s.append(program.as_str());
                s.append("] fail, ");
                s.append(e.debug.as_str());
                s
            },
            ErrorCode::E10007_CHMOD_FAIL(program) => {
                let mut s = "10007: chmod fail ".to_owned();
                s.append(program.as_str());
                s
            },
        }
    }

    /// The error as `{:?}` shows it.
    pub fn debug_text(&self) -> (res: String)
        ensures
            res@ == self@.debug_text(),
    {
        match self {
            ErrorCode::E10001_IO_ERROR(e) => {
                let mut s = "E10001_IO_ERROR(".to_owned();
                s.append(e.debug.as_str());
                s.append(")");
                s
            },
            ErrorCode::E10002_SERDE(obj, e) => {
                let mut s = "E10002_SERDE(".to_owned();
                s.append(debug_of(obj.as_str()).as_str());
                s.append(", ");
                s.append(e.as_str());
                s.append(")");
                s
            },
            ErrorCode::E10003_MKDIRS_NEED_DIR(file) => {
                let mut s = "E10003_MKDIRS_NEED_DIR(".to_owned();
                s.append(debug_of(file.as_str()).as_str());
                s.append(")");
                s
            },
            ErrorCode::E10004_WRITE_FILE(file, e) => {
                let mut s = "E10004_WRITE_FILE(".to_owned();
                s.append(debug_of(file.as_str()).as_str());
                s.append(", ");
                s.append(e.debug.as_str());
                s.append(")");
                s
            },
            ErrorCode::E10005(e) => {
                let mut s = "E10005(".to_owned();
                s.append(e.as_str());
                s.append(")");
                s
            },
            ErrorCode::E10006_EXEC_PROGRAM(program, e) => {
                let mut s = "E10006_EXEC_PROGRAM(".to_owned();
                s.append(debug_of(program.as_str()).as_str());
                s.append(", ");
                s.append(e.debug.as_str());
                s.append(")");
                s
            },
            ErrorCode::E10007_CHMOD_FAIL(program) => {
                let mut s = "E10007_CHMOD_FAIL(".to_owned();
                s.append(debug_of(program.as_str()).as_str());
                s.append(")");
                s
            },
        }
    }
}

} // verus!
