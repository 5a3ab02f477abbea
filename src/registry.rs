//! The process-wide shared directories: the client directory (session id to
//! the sending side of that session's relay channel) and the username index
//! (display name to the set of session ids registered under it).

use vstd::prelude::*;
use dashmap::{DashMap, DashSet};

verus! {

#[verifier::external_type_specification]
#[verifier::external_body]
#[verifier::reject_recursive_types(K)]
#[verifier::reject_recursive_types(V)]
#[verifier::reject_recursive_types(S)]
pub struct ExDashMap<K, V, S>(DashMap<K, V, S>);

#[verifier::external_type_specification]
#[verifier::external_body]
#[verifier::reject_recursive_types(K)]
#[verifier::reject_recursive_types(S)]
pub struct ExDashSet<K, S>(DashSet<K, S>);

#[verifier::external_type_specification]
#[verifier::external_body]
#[verifier::reject_recursive_types(T)]
pub struct ExSender<T>(flume::Sender<T>);

#[verifier::external_type_specification]
#[verifier::external_body]
#[verifier::reject_recursive_types(T)]
pub struct ExReceiver<T>(flume::Receiver<T>);

/// Relies on flume::unbounded: a new channel with no bound on what it queues,
/// so sending on it never blocks.
#[verifier::external_body]
fn new_channel() -> (r: (flume::Sender<String>, flume::Receiver<String>)) {
    flume::unbounded()
}

/// The session ids that a client directory holds as keys.
pub uninterp spec fn directory_ids(m: DashMap<String, flume::Sender<String>>) -> Set<Seq<char>>;

/// What a username index holds: each name present, with its set of session ids.
pub uninterp spec fn name_index(m: DashMap<String, DashSet<String>>) -> Map<Seq<char>, Set<Seq<char>>>;

/// Relies on DashMap::new: a new map holds no entries.
#[verifier::external_body]
fn new_directory() -> (r: DashMap<String, flume::Sender<String>>)
    ensures
        directory_ids(r) == Set::<Seq<char>>::empty(),
{
    DashMap::new()
}

/// Relies on DashMap::new: a new map holds no entries.
#[verifier::external_body]
fn new_name_index() -> (r: DashMap<String, DashSet<String>>)
    ensures
        name_index(r).dom() == Set::<Seq<char>>::empty(),
{
    DashMap::new()
}

/// Relies on DashMap::insert: afterwards the key is present (a value stored
/// under it before is replaced); no other key changes.
#[verifier::external_body]
fn directory_insert(m: &mut DashMap<String, flume::Sender<String>>, id: String, tx: flume::Sender<String>)
    ensures
        directory_ids(*final(m)) == directory_ids(*old(m)).insert(id@),
{
    m.insert(id, tx);
}

/// Relies on DashMap::remove: afterwards the key is absent; no other key changes.
#[verifier::external_body]
fn directory_remove(m: &mut DashMap<String, flume::Sender<String>>, id: &str)
    ensures
        directory_ids(*final(m)) == directory_ids(*old(m)).remove(id@),
{
    m.remove(id);
}

/// Relies on DashMap::get: it finds the value stored under the key, if any;
/// the sending handle found is cloned out, so the shard lock is released at once.
#[verifier::external_body]
fn directory_get(m: &DashMap<String, flume::Sender<String>>, id: &str) -> (r: Option<flume::Sender<String>>)
    ensures
        r.is_some() <==> directory_ids(*m).contains(id@),
{
    m.get(id).map(|entry| entry.value().clone())
}

/// Relies on DashMap::entry, Entry::or_default and DashSet::insert: the set
/// stored under the name (a new empty one when the name is absent) gains the id;
/// no other name changes.
#[verifier::external_body]
fn index_add(m: &mut DashMap<String, DashSet<String>>, name: &str, id: &str)
    ensures
        name_index(*final(m)) == name_index(*old(m)).insert(
            name@,
            members_in(name_index(*old(m)), name@).insert(id@),
        ),
{
    m.entry(name.to_string()).or_default().insert(id.to_string());
}

/// Relies on DashMap::get and DashSet::iter: every id of the set stored under
/// the name, each once, in the set's iteration order; nothing when the name is absent.
#[verifier::external_body]
fn index_get(m: &DashMap<String, DashSet<String>>, name: &str) -> (r: Vec<String>)
    ensures
        ids_of(r@).no_duplicates(),
        ids_of(r@).to_set() == members_in(name_index(*m), name@),
{
    m.get(name).map(|set| set.iter().map(|id| id.key().clone()).collect()).unwrap_or_else(Vec::new)
}

/// The views of a sequence of strings.
pub open spec fn ids_of(v: Seq<String>) -> Seq<Seq<char>> {
    v.map_values(|s: String| s@)
}

/// The ids registered under `name` in an index view; empty when the name is absent.
pub open spec fn members_in(index: Map<Seq<char>, Set<Seq<char>>>, name: Seq<char>) -> Set<Seq<char>> {
    if index.contains_key(name) {
        index[name]
    } else {
        Set::empty()
    }
}

/// The client directory and the username index, shared by all sessions.
///
/// Every sending handle in the directory belongs to an unbounded channel that
/// `register` made, so handing a value to it never blocks.
pub struct Registry {
    clients: DashMap<String, flume::Sender<String>>,
    names: DashMap<String, DashSet<String>>,
    sent: Ghost<Map<Seq<char>, Seq<Seq<char>>>>,
}

impl Registry {
    /// The ids of the sessions that are live and reachable.
    pub closed spec fn live(&self) -> Set<Seq<char>> {
        directory_ids(self.clients)
    }

    /// Each registered display name with the ids registered under it.
    pub closed spec fn index(&self) -> Map<Seq<char>, Set<Seq<char>>> {
        name_index(self.names)
    }

    /// For each session id, the values handed to the relay channel that the
    /// session last registered, oldest first.
    pub closed spec fn sent(&self) -> Map<Seq<char>, Seq<Seq<char>>> {
        self.sent@
    }

    /// The ids registered under `name`; empty when nobody took it.
    pub open spec fn members(&self, name: Seq<char>) -> Set<Seq<char>> {
        members_in(self.index(), name)
    }

    /// The values handed to the relay channel of session `id`; empty when none.
    pub open spec fn log(&self, id: Seq<char>) -> Seq<Seq<char>> {
        if self.sent().contains_key(id) {
            self.sent()[id]
        } else {
            Seq::empty()
        }
    }

    /// An empty registry.
    pub fn new() -> (r: Registry)
        ensures
            r.live() == Set::<Seq<char>>::empty(),
            r.index().dom() == Set::<Seq<char>>::empty(),
            r.sent().dom() == Set::<Seq<char>>::empty(),
    {
        Registry { clients: new_directory(), names: new_name_index(), sent: Ghost(Map::empty()) }
    }

    /// Makes session `id` reachable through a new unbounded relay channel,
    /// whose receiving side is returned.
    pub fn register(&mut self, id: String) -> (rx: flume::Receiver<String>)
        ensures
            final(self).live() == old(self).live().insert(id@),
            final(self).index() == old(self).index(),
            final(self).sent() == old(self).sent().insert(id@, Seq::empty()),
    {
        let (tx, rx) = new_channel();
        let ghost key = id@;
        directory_insert(&mut self.clients, id, tx);
        self.sent = Ghost(self.sent@.insert(key, Seq::empty()));
        rx
    }

    /// The sending handle of session `id`, when it is live.
    pub fn lookup(&self, id: &str) -> (r: Option<flume::Sender<String>>)
        ensures
            r.is_some() <==> self.live().contains(id@),
    {
        directory_get(&self.clients, id)
    }

    /// Makes session `id` unreachable; the username index is left as it is.
    pub fn remove(&mut self, id: &str)
        ensures
            final(self).live() == old(self).live().remove(id@),
            final(self).index() == old(self).index(),
            final(self).sent() == old(self).sent(),
    {
        directory_remove(&mut self.clients, id);
    }

    /// Records that session `id` uses the display name `name`.
    pub fn add_membership(&mut self, name: &str, id: &str)
        ensures
            final(self).index() == old(self).index().insert(name@, old(self).members(name@).insert(id@)),
            final(self).live() == old(self).live(),
            final(self).sent() == old(self).sent(),
    {
        index_add(&mut self.names, name, id);
    }

    /// The ids registered under `name`, each once, in no particular order.
    pub fn lookup_members(&self, name: &str) -> (r: Vec<String>)
        ensures
            ids_of(r@).no_duplicates(),
            ids_of(r@).to_set() == self.members(name@),
    {
        index_get(&self.names, name)
    }

    /// Relies on DashMap::get and flume::Sender::send: the handle stored under
    /// `id` is found exactly when the id is live, and `msg` is queued on its
    /// channel behind what was queued before. The channel is unbounded (see
    /// `register`), so `send` does not block; it discards `msg` only when the
    /// receiving side is gone.
    #[verifier::external_body]
    pub(crate) fn send_to(&mut self, id: &str, msg: String) -> (found: bool)
        ensures
            found == old(self).live().contains(id@),
            final(self).live() == old(self).live(),
            final(self).index() == old(self).index(),
            final(self).sent() == (if found {
                old(self).sent().insert(id@, old(self).log(id@).push(msg@))
            } else {
                old(self).sent()
            }),
    {
        match self.clients.get(id) {
            Some(tx) => {
                let _ = tx.send(msg);
                true
            },
            None => false,
        }
    }
}

/// Registering a name for a session makes the session one of the name's
/// members; registering the same name for a second session keeps the first
/// and adds the second.
pub proof fn lemma_shared_name(r0: Registry, r1: Registry, r2: Registry, name: Seq<char>, s1: Seq<char>, s2: Seq<char>)
    requires
        r1.index() == r0.index().insert(name, r0.members(name).insert(s1)),
        r2.index() == r1.index().insert(name, r1.members(name).insert(s2)),
    ensures
        r1.members(name).contains(s1),
        r2.members(name).contains(s1),
        r2.members(name).contains(s2),
{
}

/// Removing a session from the directory makes it unreachable and leaves
/// every name's members as they were, the session's own names included.
pub proof fn lemma_disconnect_keeps_names(r0: Registry, r1: Registry, id: Seq<char>, name: Seq<char>)
    requires
        r1.live() == r0.live().remove(id),
        r1.index() == r0.index(),
    ensures
        !r1.live().contains(id),
        r1.members(name) == r0.members(name),
{
}

} // verus!
