//! Handles of the engine's option objects.
//!
//! A handle records the address of a live object of the engine. It is never
//! null and cannot be copied: whoever holds it is the one to release the
//! object, once.

use vstd::prelude::*;

verus! {

/// Options for opening a database.
#[derive(Debug)]
pub struct Options {
    raw: usize,
}

/// Options for reading keys.
#[derive(Debug)]
pub struct ReadOptions {
    raw: usize,
}

impl Options {
    #[verifier::type_invariant]
    closed spec fn well_formed(&self) -> bool {
        self.raw != 0
    }

    /// The address of the engine's object.
    pub closed spec fn address(&self) -> usize {
        self.raw
    }

    /// Takes charge of the option object that the engine has made at `raw`.
    pub fn new(raw: usize) -> (options: Self)
        requires
            raw != 0,
        ensures
            options.address() == raw,
    {
        Options { raw }
    }

    /// The address of the engine's object, for calls that only read it.
    pub fn as_raw(&self) -> (raw: usize)
        ensures
            raw == self.address(),
            raw != 0,
    {
        proof {
            use_type_invariant(self);
        }
        self.raw
    }
}

impl ReadOptions {
    #[verifier::type_invariant]
    closed spec fn well_formed(&self) -> bool {
        self.raw != 0
    }

    /// The address of the engine's object.
    pub closed spec fn address(&self) -> usize {
        self.raw
    }

    /// Takes charge of the option object that the engine has made at `raw`.
    pub fn new(raw: usize) -> (options: Self)
        requires
            raw != 0,
        ensures
            options.address() == raw,
    {
        ReadOptions { raw }
    }

    /// The address of the engine's object, for calls that only read it.
    pub fn as_raw(&self) -> (raw: usize)
        ensures
            raw == self.address(),
            raw != 0,
    {
        proof {
            use_type_invariant(self);
        }
        self.raw
    }
}

} // verus!
