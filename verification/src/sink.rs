//! The states of the archive: entries are appended one at a time while it
//! is open, it is finalized once, and after that it takes nothing more.

use vstd::prelude::*;
use vstd::string::StringExecFns;
use crate::command::texts;
use crate::job::Entry;

verus! {

/// Why the archive refuses an operation.
#[derive(Clone, Copy, Debug, PartialEq, Eq, Structural)]
pub enum SinkError {
    /// The archive has been finalized already.
    Finalized,
}

/// The record of what has been appended to the archive, and whether the
/// archive is still open.
#[derive(Clone, Debug, PartialEq, Eq)]
pub struct Sink {
    /// The names of the appended entries, in the order of their appending.
    /// A name may occur more than once.
    pub names: Vec<String>,
    /// Whether the archive has been finalized.
    pub finalized: bool,
}

impl Sink {
    /// The names appended so far, and whether the archive is finalized.
    pub open spec fn view(&self) -> (Seq<Seq<char>>, bool) {
        (texts(self.names@), self.finalized)
    }

    /// An open archive to which nothing has been appended yet.
    pub fn new() -> (r: Sink)
        ensures
            r@ == (Seq::<Seq<char>>::empty(), false),
    {
        let r = Sink { names: Vec::new(), finalized: false };
        assert(texts(r.names@) =~= Seq::<Seq<char>>::empty());
        r
    }

    /// Records that `entry` is appended and returns its position among the
    /// appended entries. Refused, with nothing changed, once the archive is
    /// finalized.
    pub fn append(&mut self, entry: &Entry) -> (r: Result<usize, SinkError>)
        ensures
            match r {
                Ok(position) => !old(self)@.1 && position == old(self)@.0.len() && final(self)@ == (
                    old(self)@.0.push(entry.name@),
                    false,
                ),
                Err(e) => old(self)@.1 && e == SinkError::Finalized && final(self)@ == old(self)@,
            },
    {
        if self.finalized {
            Err(SinkError::Finalized)
        } else {
            let position: usize = self.names.len();
            self.names.push(String::from_str(entry.name.as_str()));
            assert(texts(self.names@) =~= texts(old(self).names@).push(entry.name@));
            Ok(position)
        }
    }

    /// Closes the archive and returns how many entries were appended.
    /// Refused, with nothing changed, where the archive is finalized
    /// already: it is finalized exactly once.
    pub fn finalize(&mut self) -> (r: Result<usize, SinkError>)
        ensures
            match r {
                Ok(count) => !old(self)@.1 && count == old(self)@.0.len() && final(self)@ == (
                    old(self)@.0,
                    true,
                ),
                Err(e) => old(self)@.1 && e == SinkError::Finalized && final(self)@ == old(self)@,
            },
    {
        if self.finalized {
            Err(SinkError::Finalized)
        } else {
            self.finalized = true;
            Ok(self.names.len())
        }
    }
}

} // verus!
