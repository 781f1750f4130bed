//! The backend that stands in when none could be set up: it holds nothing
//! and answers every call with the reason.

use crate::models::{ErrorKind, MyError, OnetimeFile, OnetimeLink, OnetimeStorage, StoreView};
use vstd::prelude::*;

verus! {

pub struct Storage {
    pub error: String,
}

impl Storage {
    /// The error that every call is answered with.
    pub fn failure(&self) -> (e: MyError)
        ensures
            e@.kind == ErrorKind::Unavailable,
            e@.message == self.error@,
    {
        MyError::new(ErrorKind::Unavailable, self.error.clone())
    }
}

impl Clone for Storage {
    fn clone(&self) -> (r: Self)
        ensures
            r.error@ == self.error@,
    {
        Storage { error: self.error.clone() }
    }
}

impl OnetimeStorage for Storage {
    open spec fn store(&self) -> StoreView {
        StoreView::empty()
    }

    open spec fn dependable(&self) -> bool {
        false
    }

    fn add_file(&mut self, file: OnetimeFile) -> (r: Result<bool, MyError>)
        ensures
            r is Err,
            r->Err_0@.kind == ErrorKind::Unavailable,
            r->Err_0@.message == old(self).error@,
            *final(self) == *old(self),
    {
        Err(self.failure())
    }

    fn list_files(&self) -> (r: Result<Vec<OnetimeFile>, MyError>)
        ensures
            r is Err,
            r->Err_0@.kind == ErrorKind::Unavailable,
            r->Err_0@.message == self.error@,
    {
        Err(self.failure())
    }

    fn get_file(&self, filename: String) -> (r: Result<OnetimeFile, MyError>)
        ensures
            r is Err,
            r->Err_0@.kind == ErrorKind::Unavailable,
            r->Err_0@.message == self.error@,
    {
        Err(self.failure())
    }

    fn add_link(&mut self, link: OnetimeLink) -> (r: Result<bool, MyError>)
        ensures
            r is Err,
            r->Err_0@.kind == ErrorKind::Unavailable,
            r->Err_0@.message == old(self).error@,
            *final(self) == *old(self),
    {
        Err(self.failure())
    }

    fn list_links(&self) -> (r: Result<Vec<OnetimeLink>, MyError>)
        ensures
            r is Err,
            r->Err_0@.kind == ErrorKind::Unavailable,
            r->Err_0@.message == self.error@,
    {
        Err(self.failure())
    }

    fn get_link(&self, token: String) -> (r: Result<OnetimeLink, MyError>)
        ensures
            r is Err,
            r->Err_0@.kind == ErrorKind::Unavailable,
            r->Err_0@.message == self.error@,
    {
        Err(self.failure())
    }

    fn mark_downloaded(&mut self, link: OnetimeLink, ip_address: String, downloaded_at: i64) -> (r:
        Result<bool, MyError>)
        ensures
            r is Err,
            r->Err_0@.kind == ErrorKind::Unavailable,
            r->Err_0@.message == old(self).error@,
            *final(self) == *old(self),
    {
        Err(self.failure())
    }
}

} // verus!
