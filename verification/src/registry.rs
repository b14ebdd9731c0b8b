//! The connection registry: at most one live connection per workspace.
//!
//! A workspace is named by a text. The standard hash map has no model for
//! keys that are texts, so nothing could be shown of one; the registry keeps
//! its entries in a list instead, each workspace once, and searches it.

use crate::error::LookupError;
use vstd::prelude::*;
use vstd::string::StringExecFns;

verus! {

/// Whether the workspace occurs among the keys.
spec fn holds(keys: Seq<String>, workspace: Seq<char>) -> bool {
    exists|i: int| 0 <= i < keys.len() && keys[i]@ == workspace
}

/// Where the workspace occurs among the keys.
spec fn index_of(keys: Seq<String>, workspace: Seq<char>) -> int {
    choose|i: int| 0 <= i < keys.len() && keys[i]@ == workspace
}

/// Whether no workspace occurs twice among the keys.
spec fn distinct(keys: Seq<String>) -> bool {
    forall|i: int, j: int| 0 <= i < j < keys.len() ==> keys[i]@ != keys[j]@
}

/// The map that keys and connections stand for, entry by entry.
spec fn model<C>(keys: Seq<String>, connections: Seq<C>) -> Map<Seq<char>, C> {
    Map::new(
        |workspace: Seq<char>| holds(keys, workspace),
        |workspace: Seq<char>| connections[index_of(keys, workspace)],
    )
}

proof fn lemma_index<C>(keys: Seq<String>, connections: Seq<C>, at: int)
    requires
        distinct(keys),
        0 <= at < keys.len(),
    ensures
        holds(keys, keys[at]@),
        index_of(keys, keys[at]@) == at,
        model(keys, connections)[keys[at]@] == connections[at],
{
    let found = index_of(keys, keys[at]@);
    if found < at {
    } else if at < found {
    }
}

proof fn lemma_len<C>(keys: Seq<String>, connections: Seq<C>)
    requires
        distinct(keys),
    ensures
        model(keys, connections).dom().finite(),
        model(keys, connections).len() == keys.len(),
{
    let views = Seq::new(keys.len(), |i: int| keys[i]@);
    assert(views.no_duplicates());
    views.unique_seq_to_set();
    assert(views.to_set() =~= model(keys, connections).dom()) by {
        assert forall|k: Seq<char>| views.to_set().contains(k) <==> holds(keys, k) by {
            if views.to_set().contains(k) {
                let i = choose|i: int| 0 <= i < views.len() && views[i] == k;
                assert(keys[i]@ == k);
            }
            if holds(keys, k) {
                let i = index_of(keys, k);
                assert(views[i] == k);
            }
        }
    }
}

proof fn lemma_push<C>(keys: Seq<String>, connections: Seq<C>, key: String, connection: C)
    requires
        distinct(keys),
        keys.len() == connections.len(),
        !holds(keys, key@),
    ensures
        distinct(keys.push(key)),
        model(keys.push(key), connections.push(connection)) == model(keys, connections).insert(
            key@,
            connection,
        ),
{
    let more = keys.push(key);
    let last = keys.len() as int;
    assert forall|i: int, j: int| 0 <= i < j < more.len() implies more[i]@ != more[j]@ by {
        if j == last {
            assert(keys[i]@ == more[i]@);
        }
    }
    assert forall|k: Seq<char>| #[trigger] holds(more, k) <==> (k == key@ || holds(keys, k)) by {
        if holds(more, k) {
            let i = index_of(more, k);
            if i < last {
                assert(keys[i]@ == k);
            }
        }
        if holds(keys, k) {
            let i = index_of(keys, k);
            assert(more[i]@ == k);
        }
        if k == key@ {
            assert(more[last]@ == k);
        }
    }
    assert forall|k: Seq<char>| holds(keys, k) implies index_of(more, k) == index_of(keys, k) by {
        let i = index_of(keys, k);
        lemma_index(more, connections.push(connection), i);
    }
    lemma_index(more, connections.push(connection), last);
    assert(model(more, connections.push(connection)) =~= model(keys, connections).insert(
        key@,
        connection,
    ));
}

proof fn lemma_remove<C>(keys: Seq<String>, connections: Seq<C>, at: int)
    requires
        distinct(keys),
        keys.len() == connections.len(),
        0 <= at < keys.len(),
    ensures
        distinct(keys.remove(at)),
        model(keys.remove(at), connections.remove(at)) == model(keys, connections).remove(
            keys[at]@,
        ),
{
    let fewer = keys.remove(at);
    let rest = connections.remove(at);
    assert forall|i: int| 0 <= i < fewer.len() implies #[trigger] fewer[i] == keys[if i < at {
        i
    } else {
        i + 1
    }] by {}
    assert forall|i: int, j: int| 0 <= i < j < fewer.len() implies fewer[i]@ != fewer[j]@ by {
        let from_i = if i < at {
            i
        } else {
            i + 1
        };
        let from_j = if j < at {
            j
        } else {
            j + 1
        };
        assert(keys[from_i]@ != keys[from_j]@);
    }
    assert forall|k: Seq<char>| #[trigger] holds(fewer, k) <==> (k != keys[at]@ && holds(
        keys,
        k,
    )) by {
        if holds(fewer, k) {
            let i = index_of(fewer, k);
            let from = if i < at {
                i
            } else {
                i + 1
            };
            assert(keys[from]@ == k);
            if k == keys[at]@ {
                if from < at {
                } else {
                }
            }
        }
        if k != keys[at]@ && holds(keys, k) {
            let i = index_of(keys, k);
            let to = if i < at {
                i
            } else {
                i - 1
            };
            assert(fewer[to]@ == k);
        }
    }
    assert forall|k: Seq<char>| holds(fewer, k) implies rest[index_of(fewer, k)]
        == connections[index_of(keys, k)] by {
        let i = index_of(fewer, k);
        let from = if i < at {
            i
        } else {
            i + 1
        };
        lemma_index(keys, connections, from);
    }
    assert(model(fewer, rest) =~= model(keys, connections).remove(keys[at]@));
}

/// The live connections, by workspace. `C` is what the host holds for one
/// connection.
pub struct AcpState<C> {
    workspaces: Vec<String>,
    connections: Vec<C>,
}

impl<C> View for AcpState<C> {
    type V = Map<Seq<char>, C>;

    closed spec fn view(&self) -> Map<Seq<char>, C> {
        model(self.workspaces@, self.connections@)
    }
}

impl<C> Default for AcpState<C> {
    /// A registry without connections.
    fn default() -> (state: Self)
        ensures
            state@ == Map::<Seq<char>, C>::empty(),
    {
        AcpState::new()
    }
}

impl<C> AcpState<C> {
    /// Every workspace has one entry.
    #[verifier::type_invariant]
    spec fn one_entry_each(&self) -> bool {
        &&& self.workspaces.len() == self.connections.len()
        &&& distinct(self.workspaces@)
    }

    /// A registry without connections.
    pub fn new() -> (state: Self)
        ensures
            state@ == Map::<Seq<char>, C>::empty(),
    {
        let state = AcpState { workspaces: Vec::new(), connections: Vec::new() };
        assert(state@ =~= Map::<Seq<char>, C>::empty());
        state
    }

    fn position(&self, workspace_id: &str) -> (found: Option<usize>)
        ensures
            match found {
                Some(at) => at < self.workspaces.len() && self.workspaces[at as int]@
                    == workspace_id@ && self@.contains_key(workspace_id@),
                None => !self@.contains_key(workspace_id@),
            },
    {
        let wanted = String::from_str(workspace_id);
        let mut i: usize = 0;
        while i < self.workspaces.len()
            invariant
                wanted@ == workspace_id@,
                i <= self.workspaces.len(),
                forall|j: int| 0 <= j < i ==> self.workspaces[j]@ != workspace_id@,
            decreases self.workspaces.len() - i,
        {
            if self.workspaces[i] == wanted {
                return Some(i);
            }
            i += 1;
        }
        None
    }

    /// The number of live connections.
    pub fn len(&self) -> (count: usize)
        ensures
            count == self@.len(),
            self@.dom().finite(),
    {
        proof {
            use_type_invariant(self);
            lemma_len(self.workspaces@, self.connections@);
        }
        self.workspaces.len()
    }

    /// Whether the workspace has a live connection.
    pub fn contains(&self, workspace_id: &str) -> (live: bool)
        ensures
            live == self@.contains_key(workspace_id@),
    {
        self.position(workspace_id).is_some()
    }

    /// The connection of the workspace, or `NotConnected`.
    pub fn connection(&self, workspace_id: &str) -> (found: Result<&C, LookupError>)
        ensures
            match found {
                Ok(connection) => self@.contains_key(workspace_id@) && *connection
                    == self@[workspace_id@],
                Err(error) => !self@.contains_key(workspace_id@) && error
                    == LookupError::NotConnected,
            },
    {
        proof {
            use_type_invariant(self);
        }
        match self.position(workspace_id) {
            Some(at) => {
                proof {
                    lemma_index(self.workspaces@, self.connections@, at as int);
                }
                Ok(&self.connections[at])
            },
            None => Err(LookupError::NotConnected),
        }
    }

    /// Runs `op` on the connection of the workspace. Without a live
    /// connection it fails with `NotConnected` and `op` does not run.
    pub fn with_connection<R, F: FnOnce(&C) -> R>(&self, workspace_id: &str, op: F) -> (outcome:
        Result<R, LookupError>)
        requires
            self@.contains_key(workspace_id@) ==> call_requires(op, (&self@[workspace_id@],)),
        ensures
            match outcome {
                Ok(value) => self@.contains_key(workspace_id@) && call_ensures(
                    op,
                    (&self@[workspace_id@],),
                    value,
                ),
                Err(error) => !self@.contains_key(workspace_id@) && error
                    == LookupError::NotConnected,
            },
    {
        match self.connection(workspace_id) {
            Ok(connection) => Ok(op(connection)),
            Err(error) => Err(error),
        }
    }

    /// Enters a connection for a workspace that has none. Where the
    /// workspace has one already, the registry stays as it is and the
    /// connection comes back, for the caller to shut down.
    pub fn insert(&mut self, workspace_id: String, connection: C) -> (rejected: Option<C>)
        ensures
            match rejected {
                Some(given) => old(self)@.contains_key(workspace_id@) && given == connection
                    && final(self)@ == old(self)@,
                None => !old(self)@.contains_key(workspace_id@) && final(self)@ == old(
                    self,
                )@.insert(workspace_id@, connection),
            },
    {
        proof {
            use_type_invariant(&*self);
        }
        if self.position(workspace_id.as_str()).is_some() {
            return Some(connection);
        }
        let mut taken = AcpState::new();
        std::mem::swap(self, &mut taken);
        let AcpState { mut workspaces, mut connections } = taken;
        proof {
            lemma_push(workspaces@, connections@, workspace_id, connection);
        }
        workspaces.push(workspace_id);
        connections.push(connection);
        *self = AcpState { workspaces, connections };
        None
    }

    /// Takes the connection of the workspace out of the registry, if there
    /// is one. Every other entry stays as it is.
    pub(crate) fn remove(&mut self, workspace_id: &str) -> (removed: Option<C>)
        ensures
            final(self)@ == old(self)@.remove(workspace_id@),
            removed == if old(self)@.contains_key(workspace_id@) {
                Some(old(self)@[workspace_id@])
            } else {
                None
            },
    {
        proof {
            use_type_invariant(&*self);
        }
        match self.position(workspace_id) {
            None => {
                assert(self@ =~= old(self)@.remove(workspace_id@));
                None
            },
            Some(at) => {
                let mut taken = AcpState::new();
                std::mem::swap(self, &mut taken);
                let AcpState { mut workspaces, mut connections } = taken;
                proof {
                    lemma_index(workspaces@, connections@, at as int);
                    lemma_remove(workspaces@, connections@, at as int);
                }
                let _ = workspaces.remove(at);
                let connection = connections.remove(at);
                *self = AcpState { workspaces, connections };
                Some(connection)
            },
        }
    }

    /// Takes every connection out of the registry and hands them out with
    /// their workspaces, each one once.
    pub(crate) fn drain(&mut self) -> (drained: Vec<(String, C)>)
        ensures
            final(self)@ == Map::<Seq<char>, C>::empty(),
            old(self)@.dom().finite(),
            drained.len() == old(self)@.len(),
            forall|i: int|
                0 <= i < drained.len() ==> old(self)@.contains_key((#[trigger] drained[i]).0@)
                    && old(self)@[drained[i].0@] == drained[i].1,
            forall|i: int, j: int|
                0 <= i < j < drained.len() ==> (#[trigger] drained[i]).0@ != (
                #[trigger] drained[j]).0@,
    {
        proof {
            use_type_invariant(&*self);
            lemma_len(self.workspaces@, self.connections@);
        }
        let mut taken = AcpState::new();
        std::mem::swap(self, &mut taken);
        let AcpState { mut workspaces, mut connections } = taken;
        let ghost keys = workspaces@;
        let ghost values = connections@;
        let mut drained: Vec<(String, C)> = Vec::new();
        while workspaces.len() > 0
            invariant
                workspaces.len() == connections.len(),
                drained.len() + workspaces.len() == keys.len(),
                keys.len() == values.len(),
                workspaces@ =~= keys.take(workspaces.len() as int),
                connections@ =~= values.take(connections.len() as int),
                forall|i: int|
                    0 <= i < drained.len() ==> (#[trigger] drained[i]).0 == keys[keys.len() - 1
                        - i] && drained[i].1 == values[keys.len() - 1 - i],
            decreases workspaces.len(),
        {
            let workspace = workspaces.pop().unwrap();
            let connection = connections.pop().unwrap();
            drained.push((workspace, connection));
        }
        proof {
            assert forall|i: int| 0 <= i < drained.len() implies old(self)@.contains_key(
                (#[trigger] drained[i]).0@,
            ) && old(self)@[drained[i].0@] == drained[i].1 by {
                lemma_index(keys, values, keys.len() - 1 - i);
            }
        }
        drained
    }
}

} // verus!
