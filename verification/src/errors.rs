//! Error types for lexing, parsing, and runtime.
//!
//! Each error type carries a human-readable message and nothing else. The
//! view of an error is the message's character sequence.

use vstd::prelude::*;

verus! {

/// Error type for lexing.
#[derive(Debug)]
pub struct LexError {
    msg: String,
}

impl View for LexError {
    type V = Seq<char>;

    closed spec fn view(&self) -> Seq<char> {
        self.msg@
    }
}

impl LexError {
    pub fn new(msg: String) -> (r: Self)
        ensures
            r@ == msg@,
    {
        Self { msg }
    }

    /// The rendered message.
    pub fn message(&self) -> (r: &String)
        ensures
            r@ == self@,
    {
        &self.msg
    }
}

/// Error type for parsing.
#[derive(Debug)]
pub struct ParseError {
    msg: String,
}

impl View for ParseError {
    type V = Seq<char>;

    closed spec fn view(&self) -> Seq<char> {
        self.msg@
    }
}

impl ParseError {
    pub fn new(msg: String) -> (r: Self)
        ensures
            r@ == msg@,
    {
        Self { msg }
    }

    /// The rendered message.
    pub fn message(&self) -> (r: &String)
        ensures
            r@ == self@,
    {
        &self.msg
    }
}

/// Error type for runtime failures.
#[derive(Debug)]
pub struct RuntimeError {
    msg: String,
}

impl View for RuntimeError {
    type V = Seq<char>;

    closed spec fn view(&self) -> Seq<char> {
        self.msg@
    }
}

impl RuntimeError {
    pub fn new(msg: String) -> (r: Self)
        ensures
            r@ == msg@,
    {
        Self { msg }
    }

    /// The rendered message.
    pub fn message(&self) -> (r: &String)
        ensures
            r@ == self@,
    {
        &self.msg
    }
}

} // verus!
