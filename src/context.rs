//! Registrations with the scanning engine and the sessions opened from them.
//!
//! The engine's handles are carried as opaque values: nothing here reads or
//! changes them, it only hands them back to the engine's calls. A session
//! borrows its context, so no context can go away while a session of it
//! still exists.
use vstd::prelude::*;

use crate::error::{low_word, WinError};

verus! {

/// One registration with the scanning engine; the factory of sessions.
#[derive(Debug)]
pub struct AmsiContext {
    ctx: usize,
}

impl View for AmsiContext {
    type V = usize;

    /// The engine's registration handle.
    closed spec fn view(&self) -> usize {
        self.ctx
    }
}

/// One open scanning conversation, borrowing the context it came from.
#[derive(Debug)]
pub struct AmsiSession<'a> {
    ctx: &'a AmsiContext,
    session: usize,
}

impl<'a> View for AmsiSession<'a> {
    /// The handle of the context, then the handle of the session.
    type V = (usize, usize);

    closed spec fn view(&self) -> (usize, usize) {
        (self.ctx@, self.session)
    }
}

impl AmsiContext {
    /// Builds a context from the outcome of the registration call: a zero
    /// status yields a context owning `handle`, any other status the error
    /// in its low 16 bits.
    pub fn from_registration(status: u32, handle: usize) -> (r: Result<AmsiContext, WinError>)
        ensures
            status == 0 <==> r is Ok,
            r matches Ok(c) ==> c@ == handle,
            r matches Err(e) ==> e@ == low_word(status),
    {
        if status == 0 {
            Ok(AmsiContext { ctx: handle })
        } else {
            Err(WinError::from_hresult(status))
        }
    }

    /// The registration handle, to be passed to the engine's calls.
    pub fn handle(&self) -> (h: usize)
        ensures
            h == self@,
    {
        self.ctx
    }

    /// Builds a session of this context from the outcome of the open-session
    /// call: a zero status yields a session owning `handle` and bound to this
    /// context, any other status the error in its low 16 bits. The context is
    /// only borrowed, so any number of sessions may be opened from it.
    pub fn open_session<'a>(&'a self, status: u32, handle: usize) -> (r: Result<AmsiSession<'a>, WinError>)
        ensures
            status == 0 <==> r is Ok,
            r matches Ok(s) ==> s@ == (self@, handle),
            r matches Err(e) ==> e@ == low_word(status),
    {
        if status == 0 {
            Ok(AmsiSession { ctx: self, session: handle })
        } else {
            Err(WinError::from_hresult(status))
        }
    }
}

impl<'a> AmsiSession<'a> {
    /// The context this session was opened from.
    pub fn context(&self) -> (c: &'a AmsiContext)
        ensures
            c@ == self@.0,
    {
        self.ctx
    }

    /// The handle of the context this session was opened from.
    pub fn context_handle(&self) -> (h: usize)
        ensures
            h == self@.0,
    {
        self.ctx.handle()
    }

    /// The session handle, to be passed to the engine's calls.
    pub fn session_handle(&self) -> (h: usize)
        ensures
            h == self@.1,
    {
        self.session
    }
}

} // verus!
