use vstd::prelude::*;
use vstd::string::StringExecFns;
use crate::metadata::YKey;

verus! {

/// Message carried by every read that runs past the end of its buffer.
pub open spec fn eof_message() -> Seq<char> {
    "failed to fill whole buffer"@
}

/// The abstract value of an error: its message and the key it is attached to.
pub open spec fn err_view(msg: Seq<char>, key: u32) -> (Seq<char>, u32) {
    (msg, key)
}

/// The key an error carries before any key is attached to it.
pub open spec fn unset_key() -> u32 {
    0xFFFF_FFFFu32
}

/// Error raised while loading an object out of its bytes.
#[derive(Debug)]
pub struct LoadError {
    msg: String,
    key: YKey,
}

impl View for LoadError {
    type V = (Seq<char>, u32);

    closed spec fn view(&self) -> (Seq<char>, u32) {
        (self.msg@, self.key.0)
    }
}

impl LoadError {
    pub fn new(msg: String, key: YKey) -> (r: Self)
        ensures
            r@ == err_view(msg@, key.0),
    {
        Self { msg, key }
    }

    /// An error with the given message and no key attached yet.
    pub fn from_message(msg: String) -> (r: Self)
        ensures
            r@ == err_view(msg@, unset_key()),
    {
        Self { msg, key: YKey(0xFFFF_FFFF) }
    }

    /// An error with the given message and no key attached yet.
    pub fn from_str_message(msg: &str) -> (r: Self)
        ensures
            r@ == err_view(msg@, unset_key()),
    {
        Self { msg: <String as StringExecFns>::from_str(msg), key: YKey(0xFFFF_FFFF) }
    }

    /// The error of a read that runs past the end of its buffer.
    pub fn eof() -> (r: Self)
        ensures
            r@ == err_view(eof_message(), unset_key()),
    {
        Self::from_str_message("failed to fill whole buffer")
    }

    pub fn set_key(&mut self, key: YKey)
        ensures
            final(self)@ == err_view(old(self)@.0, key.0),
    {
        self.key = key
    }

    /// The message, as it is shown.
    pub fn message(&self) -> (r: &str)
        ensures
            r@ == self@.0,
    {
        self.msg.as_str()
    }

    pub fn key(&self) -> (r: YKey)
        ensures
            r.0 == self@.1,
    {
        self.key
    }

    pub fn duplicate(&self) -> (r: Self)
        ensures
            r@ == self@,
    {
        Self { msg: self.msg.clone(), key: self.key }
    }
}

impl Clone for LoadError {
    fn clone(&self) -> (r: Self)
        ensures
            r@ == self@,
    {
        self.duplicate()
    }
}

impl Default for LoadError {
    fn default() -> (r: Self)
        ensures
            r@ == err_view(Seq::empty(), unset_key()),
    {
        Self { msg: String::new(), key: YKey(0xFFFF_FFFF) }
    }
}

/// Error raised by the bigfile's own input and output.
#[derive(Debug)]
pub struct YetiIOError {
    msg: String,
    key: YKey,
}

impl View for YetiIOError {
    type V = (Seq<char>, u32);

    closed spec fn view(&self) -> (Seq<char>, u32) {
        (self.msg@, self.key.0)
    }
}

impl YetiIOError {
    /// An error with the given message and no key attached yet.
    pub fn from_message(msg: String) -> (r: Self)
        ensures
            r@ == err_view(msg@, unset_key()),
    {
        Self { msg, key: YKey(0xFFFF_FFFF) }
    }

    /// An error with the given message and no key attached yet.
    pub fn from_str_message(msg: &str) -> (r: Self)
        ensures
            r@ == err_view(msg@, unset_key()),
    {
        Self { msg: <String as StringExecFns>::from_str(msg), key: YKey(0xFFFF_FFFF) }
    }

    /// The error of a read that runs past the end of its buffer.
    pub fn eof() -> (r: Self)
        ensures
            r@ == err_view(eof_message(), unset_key()),
    {
        Self::from_str_message("failed to fill whole buffer")
    }

    pub fn set_key(&mut self, key: YKey)
        ensures
            final(self)@ == err_view(old(self)@.0, key.0),
    {
        self.key = key
    }

    /// The message, as it is shown.
    pub fn message(&self) -> (r: &str)
        ensures
            r@ == self@.0,
    {
        self.msg.as_str()
    }

    pub fn duplicate(&self) -> (r: Self)
        ensures
            r@ == self@,
    {
        Self { msg: self.msg.clone(), key: self.key }
    }

    /// The same failure, as an error of loading.
    pub fn into_load_error(self) -> (r: LoadError)
        ensures
            r@ == self@,
    {
        LoadError::new(self.msg, self.key)
    }
}

impl Clone for YetiIOError {
    fn clone(&self) -> (r: Self)
        ensures
            r@ == self@,
    {
        self.duplicate()
    }
}

impl Default for YetiIOError {
    fn default() -> (r: Self)
        ensures
            r@ == err_view(Seq::empty(), unset_key()),
    {
        Self { msg: String::new(), key: YKey(0xFFFF_FFFF) }
    }
}

} // verus!
