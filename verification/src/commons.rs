//! The envelope of a JSON answer.
use vstd::prelude::*;
use vstd::string::*;

verus! {

/// An answer: a code, a message and optional data.
pub struct Res<T> {
    code: u32,
    msg: String,
    data: Option<T>,
}

impl<T> Res<T> {
    pub closed spec fn spec_code(self) -> u32 {
        self.code
    }

    pub closed spec fn spec_msg(self) -> Seq<char> {
        self.msg@
    }

    pub closed spec fn spec_data(self) -> Option<T> {
        self.data
    }

    pub fn code(&self) -> (res: u32)
        ensures
            res == self.spec_code(),
    {
        self.code
    }

    pub fn msg(&self) -> (res: &str)
        ensures
            res@ == self.spec_msg(),
    {
        self.msg.as_str()
    }

    pub fn data(&self) -> (res: &Option<T>)
        ensures
            *res == self.spec_data(),
    {
        &self.data
    }
}

impl<T> Default for Res<T> {
    /// Success: code `0`, message `OK`, no data.
    fn default() -> (res: Self)
        ensures
            res.spec_code() == 0,
            res.spec_msg() == "OK"@,
            res.spec_data() is None,
    {
        Res { code: 0, msg: "OK".to_owned(), data: None }
    }
}

} // verus!
