//! The presence registry: who is online, and through which sink.
//!
//! An entry exists for a name only while some session is authenticated under
//! it; a new login under the same name replaces the old entry.  Each entry
//! remembers the session it belongs to, so that a session's cleanup can
//! leave a newer entry for the same name in place.  Nothing here is
//! persisted: the registry is empty after every process start.

use crate::table::Table;
use futures::channel::mpsc::UnboundedSender;
use vstd::prelude::*;

verus! {

/// One online entry: the owning session and the sink that delivers to it.
pub struct OnlineEntry {
    pub session: u64,
    pub sink: UnboundedSender<String>,
}

/// The online sessions, seen as a map from name to its entry.
pub struct Presence {
    table: Table<OnlineEntry>,
}

impl View for Presence {
    type V = Map<Seq<char>, OnlineEntry>;

    closed spec fn view(&self) -> Map<Seq<char>, OnlineEntry> {
        self.table@
    }
}

impl Presence {
    /// The empty registry.
    pub fn new() -> (p: Self)
        ensures
            p@ == Map::<Seq<char>, OnlineEntry>::empty(),
    {
        Presence { table: Table::new() }
    }

    /// Puts `name` online through `entry`, replacing any existing entry.
    pub fn set_online(&mut self, name: String, entry: OnlineEntry)
        ensures
            final(self)@ == old(self)@.insert(name@, entry),
    {
        self.table.insert(name, entry);
    }

    /// Takes `name` offline; a no-op when it has no entry.
    pub fn remove_online(&mut self, name: &String)
        ensures
            final(self)@ == old(self)@.remove(name@),
    {
        self.table.remove(name);
    }

    /// The entry delivering to `name`, if it is online.
    pub fn lookup(&self, name: &String) -> (r: Option<&OnlineEntry>)
        ensures
            match r {
                Some(e) => self@.contains_key(name@) && *e == self@[name@],
                None => !self@.contains_key(name@),
            },
    {
        self.table.get(name)
    }
}

} // verus!
