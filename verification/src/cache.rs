//! The content cache: the single shared buffer holding the file's last-known
//! contents.
//!
//! The cache itself is a plain owned value; the surrounding program places it
//! behind one mutual-exclusion lock shared by the file watcher (write side)
//! and every connection handler (read side), so that a reader always observes
//! either the value before a replace or the value after it, never a mixture.
//! Lock acquisition and its failure mode live outside this library; a handler
//! that could not reach the cache reports that by handing `None` to
//! [`crate::handler::respond`].

use vstd::prelude::*;
use vstd::slice::slice_to_vec;

verus! {

/// The current contents of the watched file, as bytes.
pub struct ContentCache {
    pub contents: Vec<u8>,
}

impl View for ContentCache {
    type V = Seq<u8>;

    open spec fn view(&self) -> Seq<u8> {
        self.contents@
    }
}

impl ContentCache {
    /// Creates the cache from the initial synchronous read of the file.
    pub fn new(initial: Vec<u8>) -> (c: ContentCache)
        ensures
            c@ == initial@,
    {
        ContentCache { contents: initial }
    }

    /// Returns an independent copy of the current contents.
    pub fn read(&self) -> (r: Vec<u8>)
        ensures
            r@ == self@,
    {
        slice_to_vec(self.contents.as_slice())
    }

    /// Atomically overwrites the stored contents; every later read returns
    /// the new value.
    pub fn replace(&mut self, new_contents: Vec<u8>)
        ensures
            final(self)@ == new_contents@,
    {
        self.contents = new_contents;
    }

    /// Applies the outcome of one re-read of the watched file: a successful
    /// read replaces the contents, a failed read leaves them unchanged.
    pub fn apply_reload(&mut self, read_result: Option<Vec<u8>>)
        ensures
            final(self)@ == reload_model(
                old(self)@,
                match read_result {
                    Some(new_contents) => Some(new_contents@),
                    None => None,
                },
            ),
    {
        match read_result {
            Some(new_contents) => self.replace(new_contents),
            None => (),
        }
    }
}

/// The cache contents after one reload step: a successful re-read installs
/// the newly read bytes, a failed one keeps the current bytes.
pub open spec fn reload_model(current: Seq<u8>, read_result: Option<Seq<u8>>) -> Seq<u8> {
    match read_result {
        Some(new_contents) => new_contents,
        None => current,
    }
}

/// After a successful re-read, the cache holds exactly the newly read bytes,
/// whatever it held before; since a read returns exactly the held bytes,
/// every read that starts after the replace returns the new contents whole,
/// never a mixture of old and new.
pub proof fn lemma_successful_reload_visible(current: Seq<u8>, new_contents: Seq<u8>)
    ensures
        reload_model(current, Some(new_contents)) == new_contents,
{
}

/// A failed re-read leaves the cache holding exactly the bytes it held
/// before, so a read still returns the previous contents unchanged.
pub proof fn lemma_failed_reload_keeps_previous(current: Seq<u8>)
    ensures
        reload_model(current, None) == current,
{
}

} // verus!
