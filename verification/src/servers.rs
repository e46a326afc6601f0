//! Server-list bookkeeping.
//!
//! The host persists the list of configured servers and the active-server
//! pointer in a JSON file; the rules for changing that list live here, on
//! plain values. Identifiers are unique: adding rejects a duplicate id,
//! updating and activating reject an unknown one, and deleting a server
//! clears the active pointer when it pointed at the deleted entry.

use vstd::prelude::*;
use crate::text::str_eq;

verus! {

/// One configured server account.
pub struct ServerEntry {
    pub id: String,
    pub name: String,
    pub url: String,
    pub token: Option<String>,
    pub color: String,
    pub icon: Option<String>,
    pub keep_loaded: Option<bool>,
}

/// Why a list operation was rejected.
#[derive(Clone, Copy, PartialEq, Eq, Structural, Debug)]
pub enum ServerListError {
    /// Adding was requested with an id the list already holds.
    DuplicateId,
    /// The named server is not in the list.
    NotFound,
}

/// Predicate on a server entry: its id is not `id`.
pub open spec fn id_is_not_fn(id: Seq<char>) -> spec_fn(ServerEntry) -> bool {
    |e: ServerEntry| e.id@ != id
}

/// The configured servers and the active-server pointer.
pub struct ServersConfig {
    pub servers: Vec<ServerEntry>,
    pub active_server_id: Option<String>,
}

/// Copy one server entry.
fn clone_entry(e: &ServerEntry) -> (r: ServerEntry)
    ensures
        r == *e,
{
    ServerEntry {
        id: e.id.clone(),
        name: e.name.clone(),
        url: e.url.clone(),
        token: match &e.token {
            Option::Some(t) => Option::Some(t.clone()),
            Option::None => Option::None,
        },
        color: e.color.clone(),
        icon: match &e.icon {
            Option::Some(i) => Option::Some(i.clone()),
            Option::None => Option::None,
        },
        keep_loaded: match e.keep_loaded {
            Option::Some(b) => Option::Some(b),
            Option::None => Option::None,
        },
    }
}

impl ServersConfig {
    /// The list holds an entry with this id.
    pub open spec fn has_id(&self, id: Seq<char>) -> bool {
        exists|i: int| 0 <= i < self.servers@.len() && self.servers@[i].id@ == id
    }

    /// The configuration used when no stored one exists: no servers, no
    /// active server.
    pub fn new() -> (c: Self)
        ensures
            c.servers@.len() == 0,
            c.active_server_id is None,
    {
        ServersConfig { servers: Vec::new(), active_server_id: Option::None }
    }

    /// The index of the first entry with this id, if any.
    pub fn find_server(&self, id: &str) -> (r: Option<usize>)
        ensures
            match r {
                Option::Some(i) => i < self.servers@.len() && self.servers@[i as int].id@ == id@
                    && (forall|k: int| 0 <= k < i ==> self.servers@[k].id@ != id@),
                Option::None => !self.has_id(id@),
            },
    {
        let mut i: usize = 0;
        while i < self.servers.len()
            invariant
                i <= self.servers@.len(),
                forall|k: int| 0 <= k < i ==> self.servers@[k].id@ != id@,
            decreases self.servers@.len() - i,
        {
            if str_eq(self.servers[i].id.as_str(), id) {
                return Option::Some(i);
            }
            i += 1;
        }
        Option::None
    }

    /// Append a server; rejected when an entry with the same id exists.
    pub fn add_server(&mut self, server: ServerEntry) -> (r: Result<(), ServerListError>)
        ensures
            r is Ok <==> !old(self).has_id(server.id@),
            old(self).has_id(server.id@) <==> r == Err::<(), ServerListError>(
                ServerListError::DuplicateId,
            ),
            r is Err ==> *final(self) == *old(self),
            r is Ok ==> final(self).servers@ == old(self).servers@.push(server),
            final(self).active_server_id == old(self).active_server_id,
    {
        if self.find_server(server.id.as_str()).is_some() {
            return Result::Err(ServerListError::DuplicateId);
        }
        self.servers.push(server);
        Result::Ok(())
    }

    /// Replace the first entry carrying this server's id; rejected when no
    /// entry has it.
    pub fn update_server(&mut self, server: ServerEntry) -> (r: Result<(), ServerListError>)
        ensures
            old(self).has_id(server.id@) <==> r is Ok,
            r is Err ==> *final(self) == *old(self) && r == Err::<(), ServerListError>(
                ServerListError::NotFound,
            ),
            r is Ok ==> (exists|i: int|
                0 <= i < old(self).servers@.len() && old(self).servers@[i].id@ == server.id@ && (
                forall|k: int| 0 <= k < i ==> old(self).servers@[k].id@ != server.id@)
                    && final(self).servers@ == old(self).servers@.update(i, server)),
            final(self).active_server_id == old(self).active_server_id,
    {
        match self.find_server(server.id.as_str()) {
            Option::Some(i) => {
                let ghost s_old = self.servers@;
                self.servers.remove(i);
                self.servers.insert(i, server);
                proof {
                    assert(self.servers@ =~= s_old.update(i as int, server));
                }
                Result::Ok(())
            },
            Option::None => Result::Err(ServerListError::NotFound),
        }
    }

    /// Remove every entry with this id. When the active pointer named the
    /// deleted server it is cleared.
    pub fn delete_server(&mut self, server_id: &str)
        ensures
            final(self).servers@ == old(self).servers@.filter(id_is_not_fn(server_id@)),
            final(self).active_server_id == (match old(self).active_server_id {
                Option::Some(a) => if a@ == server_id@ {
                    Option::<String>::None
                } else {
                    Option::Some(a)
                },
                Option::None => Option::<String>::None,
            }),
    {
        let ghost s_old = self.servers@;
        let mut kept: Vec<ServerEntry> = Vec::new();
        let mut i: usize = 0;
        while i < self.servers.len()
            invariant
                i <= s_old.len(),
                self.servers@ == s_old,
                kept@ == s_old.take(i as int).filter(id_is_not_fn(server_id@)),
            decreases s_old.len() - i,
        {
            proof {
                reveal(Seq::filter);
                assert(s_old.take(i as int + 1).drop_last() =~= s_old.take(i as int));
                assert(s_old.take(i as int + 1).last() == s_old[i as int]);
            }
            if !str_eq(self.servers[i].id.as_str(), server_id) {
                let entry = clone_entry(&self.servers[i]);
                proof {
                    assert(entry == s_old[i as int]);
                }
                kept.push(entry);
            }
            i += 1;
        }
        proof {
            assert(s_old.take(s_old.len() as int) =~= s_old);
        }
        self.servers = kept;

        let clear = match &self.active_server_id {
            Option::Some(a) => str_eq(a.as_str(), server_id),
            Option::None => false,
        };
        if clear {
            self.active_server_id = Option::None;
        }
    }

    /// Point the active-server pointer at this id; rejected when no entry
    /// has it.
    pub fn set_active_server(&mut self, server_id: String) -> (r: Result<(), ServerListError>)
        ensures
            old(self).has_id(server_id@) <==> r is Ok,
            r is Ok ==> final(self).active_server_id == Option::Some(server_id),
            r is Err ==> *final(self) == *old(self) && r == Err::<(), ServerListError>(
                ServerListError::NotFound,
            ),
            final(self).servers@ == old(self).servers@,
    {
        if self.find_server(server_id.as_str()).is_none() {
            return Result::Err(ServerListError::NotFound);
        }
        self.active_server_id = Option::Some(server_id);
        Result::Ok(())
    }

    /// A copy of the first entry the active pointer names, or nothing when
    /// no pointer is set or it names no entry.
    pub fn get_active_server(&self) -> (r: Option<ServerEntry>)
        ensures
            match r {
                Option::Some(e) => self.active_server_id matches Some(a) && (exists|i: int|
                    0 <= i < self.servers@.len() && self.servers@[i].id@ == a@ && e == self.servers@[
                        i
                    ] && (forall|k: int| 0 <= k < i ==> self.servers@[k].id@ != a@)),
                Option::None => match self.active_server_id {
                    Option::Some(a) => !self.has_id(a@),
                    Option::None => true,
                },
            },
    {
        let id = match &self.active_server_id {
            Option::Some(a) => a.as_str(),
            Option::None => {
                return Option::None;
            },
        };
        match self.find_server(id) {
            Option::Some(i) => Option::Some(clone_entry(&self.servers[i])),
            Option::None => Option::None,
        }
    }
}

} // verus!
