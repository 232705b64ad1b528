//! An open database: what is asked of the engine to open one, and what the
//! engine's answers to an open and to a lookup mean.

use vstd::prelude::*;
use vstd::slice::slice_to_vec;
use crate::iter::OwnedIterator;
use crate::options::Options;

verus! {

/// Why a database was not opened.
#[derive(Debug, PartialEq, Eq)]
pub enum OpenError {
    /// The path holds a zero byte.
    InvalidPath,
    /// The engine refused; this is its message.
    Engine(crate::string::String),
}

/// The mathematical value of an [`OpenError`].
pub enum OpenErrorView {
    InvalidPath,
    Engine(Seq<u8>),
}

impl View for OpenError {
    type V = OpenErrorView;

    open spec fn view(&self) -> OpenErrorView {
        match self {
            OpenError::InvalidPath => OpenErrorView::InvalidPath,
            OpenError::Engine(message) => OpenErrorView::Engine(message@),
        }
    }
}

/// A database that is about to be opened: the path in the form that the
/// engine takes, and the options to open it with.
#[derive(Debug)]
pub struct Opening {
    path: Vec<u8>,
    options: Options,
}

/// An open database. It keeps the options it was opened with for as long as
/// it lives.
#[derive(Debug)]
pub struct Db {
    raw: usize,
    options: Options,
}

impl Opening {
    /// The path that was asked for, without its terminating zero byte.
    pub closed spec fn requested_path(&self) -> Seq<u8> {
        self.path@.drop_last()
    }

    /// The options that were given.
    pub closed spec fn given_options(&self) -> Options {
        self.options
    }

    #[verifier::type_invariant]
    closed spec fn well_formed(&self) -> bool {
        &&& self.path@.len() > 0
        &&& self.path@.last() == 0
        &&& !self.path@.drop_last().contains(0)
    }

    /// The path to hand to the engine: the path that was asked for and a
    /// terminating zero byte.
    pub fn path(&self) -> (path: &[u8])
        ensures
            path@ == self.requested_path().push(0),
            !self.requested_path().contains(0),
    {
        proof {
            use_type_invariant(self);
            assert(self.path@ =~= self.path@.drop_last().push(0));
        }
        self.path.as_slice()
    }

    /// The options to hand to the engine.
    pub fn options(&self) -> (options: &Options)
        ensures
            *options == self.given_options(),
    {
        &self.options
    }

    /// Takes the engine's answer: the address of the connection, and the
    /// error message if the engine gave one. An error message decides: it is
    /// handed on as it is. Without one the connection is owned from here on,
    /// together with the options.
    pub fn finish(self, raw: usize, error: Option<crate::string::String>) -> (result: Result<
        Db,
        OpenError,
    >)
        requires
            error is None ==> raw != 0,
        ensures
            match error {
                Some(message) => result matches Err(OpenError::Engine(handed)) && handed
                    == message,
                None => result matches Ok(db) && db.address() == raw && db.kept_options()
                    == self.given_options(),
            },
    {
        match error {
            Some(message) => Err(OpenError::Engine(message)),
            None => Ok(Db { raw, options: self.options }),
        }
    }
}

impl Db {
    #[verifier::type_invariant]
    closed spec fn well_formed(&self) -> bool {
        self.raw != 0
    }

    /// The address of the engine's connection.
    pub closed spec fn address(&self) -> usize {
        self.raw
    }

    /// The options that the database was opened with.
    pub closed spec fn kept_options(&self) -> Options {
        self.options
    }

    /// Prepares to open the database at `path`: the path is refused if it
    /// holds a zero byte, and is terminated by one otherwise.
    pub fn open(path: &[u8], options: Options) -> (result: Result<Opening, OpenError>)
        ensures
            match result {
                Ok(opening) => !path@.contains(0) && opening.requested_path() == path@
                    && opening.given_options() == options,
                Err(error) => path@.contains(0) && error is InvalidPath,
            },
    {
        let mut at: usize = 0;
        while at < path.len()
            invariant
                at <= path@.len(),
                forall|i: int| 0 <= i < at ==> #[trigger] path@[i] != 0,
            decreases path@.len() - at,
        {
            if path[at] == 0 {
                return Err(OpenError::InvalidPath);
            }
            at += 1;
        }
        let mut terminated = slice_to_vec(path);
        terminated.push(0);
        assert(terminated@.drop_last() =~= path@);
        Ok(Opening { path: terminated, options })
    }

    /// The options that the database was opened with.
    pub fn options(&self) -> (options: &Options)
        ensures
            *options == self.kept_options(),
    {
        &self.options
    }

    /// The address of the engine's connection.
    pub fn as_raw(&self) -> (raw: usize)
        ensures
            raw == self.address(),
            raw != 0,
    {
        proof {
            use_type_invariant(self);
        }
        self.raw
    }

    /// Takes the engine's answer to a lookup: the value, if the key has one,
    /// and the error message, if the engine gave one. An error message
    /// decides; without one, an absent value means that the key is absent.
    pub fn get(
        &mut self,
        value: Option<crate::string::String>,
        error: Option<crate::string::String>,
    ) -> (result: Result<Option<crate::string::String>, crate::string::String>)
        ensures
            *final(self) == *old(self),
            result == match error {
                Some(message) => Err::<Option<crate::string::String>, crate::string::String>(
                    message,
                ),
                None => Ok(value),
            },
    {
        match error {
            Some(message) => Err(message),
            None => Ok(value),
        }
    }

    /// Starts a walk over the entries with the cursor that the engine has
    /// made at `cursor`. The database stays borrowed until the walk is
    /// dropped.
    pub fn iter_owned(&mut self, cursor: usize) -> (walk: OwnedIterator<'_>)
        requires
            cursor != 0,
        ensures
            walk.address() == cursor,
            walk.phase() == crate::iter::PhaseView::Fresh,
    {
        OwnedIterator::from_parts(cursor, self)
    }
}

} // verus!
