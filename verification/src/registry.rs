//! The client registry: live connections, each under an id that scripts can name.

use crate::error::{Error, ErrorModel};
use vstd::prelude::*;

verus! {

/// Calls `Uuid::new_v4` and writes the id out with `to_string`. The id is random, so only
/// its length is stated: the hyphenated form that `Display` writes has 36 characters. The
/// call panics where the system hands out no random bytes.
#[verifier::external_body]
fn fresh_client_id() -> (id: String)
    ensures
        id@.len() == 36,
{
    uuid::Uuid::new_v4().to_string()
}

/// A live connection and the id it was given when it was opened.
pub struct SyncClientEntry<C> {
    pub client: C,
    pub id: String,
}

impl<C> SyncClientEntry<C> {
    /// Gives a connection a fresh id.
    pub fn new(client: C) -> (entry: SyncClientEntry<C>)
        ensures
            entry.client == client,
            entry.id@.len() == 36,
    {
        SyncClientEntry { id: fresh_client_id(), client }
    }
}

/// The registry of connections. Entries are only ever added, and no id is held twice.
pub struct ClientRegistry<C> {
    entries: Vec<SyncClientEntry<C>>,
}

/// Some entry carries the id.
pub open spec fn has_id<C>(entries: Seq<(Seq<char>, C)>, id: Seq<char>) -> bool {
    exists|i: int| 0 <= i < entries.len() && (#[trigger] entries[i]).0 == id
}

/// No two entries carry the same id.
pub open spec fn ids_distinct<C>(entries: Seq<(Seq<char>, C)>) -> bool {
    forall|i: int, j: int|
        0 <= i < j < entries.len() ==> (#[trigger] entries[i]).0 != (#[trigger] entries[j]).0
}

/// What registering does: the entry goes to the end unless its id is taken, and then
/// nothing changes.
pub open spec fn registered<C>(entries: Seq<(Seq<char>, C)>, id: Seq<char>, client: C) -> Option<
    Seq<(Seq<char>, C)>,
> {
    if has_id(entries, id) {
        None
    } else {
        Some(entries.push((id, client)))
    }
}

impl<C> View for ClientRegistry<C> {
    type V = Seq<(Seq<char>, C)>;

    closed spec fn view(&self) -> Seq<(Seq<char>, C)> {
        Seq::new(self.entries@.len(), |i: int| (self.entries@[i].id@, self.entries@[i].client))
    }
}

impl<C> ClientRegistry<C> {
    /// The registry's ids are distinct: what `new` establishes and `register` keeps.
    pub closed spec fn well_formed(&self) -> bool {
        ids_distinct(self@)
    }

    /// An empty registry.
    pub fn new() -> (registry: ClientRegistry<C>)
        ensures
            registry@ == Seq::<(Seq<char>, C)>::empty(),
            registry.well_formed(),
    {
        let registry = ClientRegistry { entries: Vec::new() };
        assert(registry@ =~= Seq::<(Seq<char>, C)>::empty());
        registry
    }

    /// The number of connections.
    pub fn len(&self) -> (n: usize)
        ensures
            n == self@.len(),
    {
        self.entries.len()
    }

    /// The entry under an id: the first that carries it, or none where no entry does.
    pub fn find(&self, id: &str) -> (found: Option<&SyncClientEntry<C>>)
        ensures
            match found {
                Some(entry) => exists|i: int|
                    0 <= i < self@.len() && #[trigger] self@[i] == (entry.id@, entry.client)
                        && entry.id@ == id@ && forall|j: int|
                        0 <= j < i ==> (#[trigger] self@[j]).0 != id@,
                None => !has_id(self@, id@),
            },
    {
        let wanted = id.to_owned();
        let mut i: usize = 0;
        while i < self.entries.len()
            invariant
                i <= self.entries.len(),
                wanted@ == id@,
                forall|j: int| 0 <= j < i ==> (#[trigger] self@[j]).0 != id@,
            decreases self.entries.len() - i,
        {
            if self.entries[i].id == wanted {
                assert(self@[i as int] == (self.entries@[i as int].id@, self.entries@[i as int].client));
                return Some(&self.entries[i]);
            }
            i += 1;
        }
        None
    }

    /// Whether some connection has the id.
    pub fn contains(&self, id: &str) -> (held: bool)
        ensures
            held == has_id(self@, id@),
    {
        self.find(id).is_some()
    }

    /// Adds a connection. An entry whose id is already held is handed back and the registry
    /// stays as it was.
    pub fn register(&mut self, entry: SyncClientEntry<C>) -> (refused: Option<SyncClientEntry<C>>)
        ensures
            match refused {
                None => registered(old(self)@, entry.id@, entry.client) == Some(final(self)@),
                Some(back) => {
                    &&& registered(old(self)@, entry.id@, entry.client) is None
                    &&& final(self)@ == old(self)@
                    &&& back == entry
                },
            },
            old(self).well_formed() ==> final(self).well_formed(),
    {
        if self.contains(entry.id.as_str()) {
            return Some(entry);
        }
        let ghost before = self@;
        let ghost id = entry.id@;
        let ghost client = entry.client;
        self.entries.push(entry);
        proof {
            assert(self@ =~= before.push((id, client)));
            lemma_register_keeps_ids_distinct(before, id, client);
        }
        None
    }

    /// Gives a connection a fresh id and adds it under that id, which is handed out. Where
    /// the fresh id is already held, the connection is handed back and the registry stays
    /// as it was: no id is ever used twice. A fresh id has 36 characters, so a registry that
    /// holds no id of that length, an empty one first of all, always takes the connection.
    pub fn connect(&mut self, client: C) -> (result: Result<String, C>)
        ensures
            match result {
                Ok(id) => registered(old(self)@, id@, client) == Some(final(self)@),
                Err(back) => final(self)@ == old(self)@ && back == client,
            },
            result matches Ok(id) ==> id@.len() == 36,
            result is Err ==> exists|i: int|
                0 <= i < old(self)@.len() && (#[trigger] old(self)@[i]).0.len() == 36,
            old(self).well_formed() ==> final(self).well_formed(),
    {
        let entry = SyncClientEntry::new(client);
        let id = entry.id.clone();
        match self.register(entry) {
            None => Ok(id),
            Some(refused) => Err(refused.client),
        }
    }
}

/// The connection that a command names by its id, or `ClientNotFound` where the registry
/// holds no such id.
pub fn get_collection_names<'a, C>(registry: &'a ClientRegistry<C>, client_id: &str) -> (result:
    Result<&'a SyncClientEntry<C>, Error>)
    ensures
        match result {
            Ok(entry) => has_id(registry@, client_id@) && entry.id@ == client_id@ && exists|
                i: int,
            |
                0 <= i < registry@.len() && #[trigger] registry@[i] == (entry.id@, entry.client)
                    && forall|j: int| 0 <= j < i ==> (#[trigger] registry@[j]).0 != client_id@,
            Err(error) => !has_id(registry@, client_id@) && error@ == ErrorModel::ClientNotFound,
        },
{
    match registry.find(client_id) {
        Some(entry) => Ok(entry),
        None => Err(Error::ClientNotFound),
    }
}

/// Registering keeps the ids distinct.
pub proof fn lemma_register_keeps_ids_distinct<C>(
    entries: Seq<(Seq<char>, C)>,
    id: Seq<char>,
    client: C,
)
    ensures
        ids_distinct(entries) ==> match registered(entries, id, client) {
            Some(after) => ids_distinct(after),
            None => true,
        },
{
    if ids_distinct(entries) && !has_id(entries, id) {
        let after = entries.push((id, client));
        assert forall|i: int, j: int| 0 <= i < j < after.len() implies (#[trigger] after[i]).0 != (
        #[trigger] after[j]).0 by {
            if j < entries.len() {
                assert(after[i] == entries[i] && after[j] == entries[j]);
            } else {
                assert(after[i] == entries[i]);
            }
        }
    }
}

/// Two connections that were both registered, one after the other, have different ids,
/// whatever else they share.
pub proof fn lemma_registered_ids_differ<C>(
    entries: Seq<(Seq<char>, C)>,
    first_id: Seq<char>,
    first: C,
    second_id: Seq<char>,
    second: C,
)
    requires
        registered(entries, first_id, first) is Some,
        registered(registered(entries, first_id, first)->0, second_id, second) is Some,
    ensures
        first_id != second_id,
{
    let after = entries.push((first_id, first));
    assert(after[entries.len() as int].0 == first_id);
}

} // verus!
