//! Paths named by requests.
use vstd::prelude::*;

use crate::rpc::Error;
use crate::vfs::MAX_PATH_LEN;

verus! {

/// A path named by a client: a string of at most [`MAX_PATH_LEN`] bytes.
#[derive(Debug, Clone, PartialEq, Eq)]
pub struct Path {
    inner: String,
}

impl View for Path {
    type V = Seq<char>;

    closed spec fn view(&self) -> Seq<char> {
        self.inner@
    }
}

/// A path of these characters can be built.
pub open spec fn path_fits(chars: Seq<char>) -> bool {
    vstd::utf8::encode_utf8(chars).len() <= MAX_PATH_LEN
}

impl Path {
    /// Builds a path from `s`; fails with [`Error::MaxElemLimit`] when `s`
    /// is longer than [`MAX_PATH_LEN`] bytes.
    pub fn new(s: String) -> (r: Result<Path, Error>)
        ensures
            path_fits(s@) ==> (r matches Ok(p) && p@ == s@),
            !path_fits(s@) ==> r == Err::<Path, Error>(Error::MaxElemLimit),
    {
        if s.as_str().as_bytes().len() > MAX_PATH_LEN {
            Err(Error::MaxElemLimit)
        } else {
            Ok(Path { inner: s })
        }
    }

    /// The path as a string slice.
    pub fn as_str(&self) -> (r: &str)
        ensures
            r@ == self@,
    {
        self.inner.as_str()
    }
}

} // verus!
