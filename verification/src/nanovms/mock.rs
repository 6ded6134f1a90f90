//! The in-memory transport's store: sandboxes and snapshots kept by
//! identifier, for tests of code that drives sandboxes.
use vstd::prelude::*;

use super::{
    same_sandbox, same_snapshot, sandbox_from, NanovmsError, Output, Sandbox, SandboxConfig,
    SandboxState, Snapshot,
};
use crate::common::clock::Timestamp;
use crate::common::duration::{millis, span_of_millis};
use crate::common::ids::{is_uuid_text, new_uuid_text};
use crate::common::str_map::{keys_distinct, lemma_pairs_map_dom, lemma_pairs_map_index, pairs_map, StrMap};
use crate::common::text::{joined, texts};

verus! {

/// The sandboxes and snapshots of the in-memory transport.
#[derive(Debug)]
pub struct MockStore {
    sandboxes: StrMap<Sandbox>,
    snapshots: StrMap<Snapshot>,
}

/// The size that the in-memory transport gives every snapshot: 10 MiB.
pub const MOCK_SNAPSHOT_SIZE: u64 = 10485760;

/// `m` holds each value under its own identifier.
pub open spec fn sandboxes_by_id(m: Map<Seq<char>, Sandbox>) -> bool {
    forall|k: Seq<char>| #[trigger] m.contains_key(k) ==> m[k].id@ == k
}

/// `m` holds each value under its own identifier.
pub open spec fn snapshots_by_id(m: Map<Seq<char>, Snapshot>) -> bool {
    forall|k: Seq<char>| #[trigger] m.contains_key(k) ==> m[k].id@ == k
}

/// `n` is `m` with the value under `k` replaced by (a copy of) `s`.
pub open spec fn sandbox_stored(
    m: Map<Seq<char>, Sandbox>,
    n: Map<Seq<char>, Sandbox>,
    k: Seq<char>,
    s: Sandbox,
) -> bool {
    &&& n.dom() == m.dom().insert(k)
    &&& n.remove(k) == m.remove(k)
    &&& same_sandbox(n[k], s)
}

/// `n` is `m` with (a copy of) `s` under `k`.
pub open spec fn snapshot_stored(
    m: Map<Seq<char>, Snapshot>,
    n: Map<Seq<char>, Snapshot>,
    k: Seq<char>,
    s: Snapshot,
) -> bool {
    &&& n.dom() == m.dom().insert(k)
    &&& n.remove(k) == m.remove(k)
    &&& same_snapshot(n[k], s)
}

/// The sandbox made running at `now` from `config`, under the configured
/// identifier or else `fallback_id`.
pub open spec fn running_from(s: Sandbox, config: SandboxConfig, fallback_id: Seq<char>, now: Timestamp) -> bool {
    &&& s.state == SandboxState::Running
    &&& sandbox_from(Sandbox { state: SandboxState::Pending, ..s }, config, fallback_id, now)
}

/// `r` and `n` are what creating a sandbox at `now` from `config`, under
/// the configured identifier or else `fallback_id`, gives and leaves of the
/// sandboxes `m`: an identifier in use is an error.
pub open spec fn creation(
    m: Map<Seq<char>, Sandbox>,
    n: Map<Seq<char>, Sandbox>,
    config: SandboxConfig,
    fallback_id: Seq<char>,
    now: Timestamp,
    r: Result<Sandbox, NanovmsError>,
) -> bool {
    let id = match config.id {
        Some(i) => i@,
        None => fallback_id,
    };
    if m.contains_key(id) {
        &&& r matches Err(NanovmsError::SandboxAlreadyExists(e)) && e@ == id
        &&& n == m
    } else {
        &&& r matches Ok(s) && running_from(s, config, fallback_id, now) && sandbox_stored(
            m,
            n,
            id,
            s,
        )
    }
}

/// `s` is `old` moved to `state`.
pub open spec fn moved_to(s: Sandbox, old: Sandbox, state: SandboxState) -> bool {
    same_sandbox(s, Sandbox { state, ..old })
}

impl MockStore {
    /// The sandboxes, by identifier.
    pub closed spec fn sandboxes(&self) -> Map<Seq<char>, Sandbox> {
        self.sandboxes@
    }

    /// The snapshots, by identifier.
    pub closed spec fn snapshots(&self) -> Map<Seq<char>, Snapshot> {
        self.snapshots@
    }

    #[verifier::type_invariant]
    closed spec fn keyed_by_id(&self) -> bool {
        &&& sandboxes_by_id(self.sandboxes@)
        &&& snapshots_by_id(self.snapshots@)
    }

    /// An empty store.
    pub fn new() -> (r: Self)
        ensures
            r.sandboxes().len() == 0,
            r.snapshots().len() == 0,
    {
        MockStore { sandboxes: StrMap::new(), snapshots: StrMap::new() }
    }

    /// Creates a running sandbox at `now` from `config`, under the
    /// configured identifier or else `fallback_id`; an identifier in use is
    /// an error.
    pub fn create_sandbox_at(
        &mut self,
        config: &SandboxConfig,
        fallback_id: String,
        now: Timestamp,
    ) -> (r: Result<Sandbox, NanovmsError>)
        ensures
            creation(
                old(self).sandboxes(),
                final(self).sandboxes(),
                *config,
                fallback_id@,
                now,
                r,
            ),
            final(self).snapshots() == old(self).snapshots(),
    {
        proof {
            use_type_invariant(&*self);
        }
        let mut sandbox = Sandbox::from_config_at(config.clone(), fallback_id, now);
        sandbox.state = SandboxState::Running;
        if self.sandboxes.contains_key(sandbox.id.as_str()) {
            return Err(NanovmsError::SandboxAlreadyExists(sandbox.id.clone()));
        }
        let stored = sandbox.clone();
        let mut table = StrMap::new();
        core::mem::swap(&mut table, &mut self.sandboxes);
        let ghost before = table@;
        table.insert(sandbox.id.clone(), stored);
        assert(table@.remove(sandbox.id@) =~= before.remove(sandbox.id@));
        self.sandboxes = table;
        Ok(sandbox)
    }

    /// Creates a running sandbox now from `config`, under the configured
    /// identifier or else a fresh random one; an identifier in use is an
    /// error.
    pub fn create_sandbox(&mut self, config: &SandboxConfig) -> (r: Result<Sandbox, NanovmsError>)
        ensures
            exists|fallback: Seq<char>, now: Timestamp|
                is_uuid_text(fallback) && #[trigger] creation(
                    old(self).sandboxes(),
                    final(self).sandboxes(),
                    *config,
                    fallback,
                    now,
                    r,
                ),
            final(self).snapshots() == old(self).snapshots(),
    {
        let fallback = new_uuid_text();
        let ghost f = fallback@;
        let now = Timestamp::now();
        self.create_sandbox_at(config, fallback, now)
    }

    /// A copy of the sandbox `id`; a missing one is an error.
    pub fn get_sandbox(&self, id: &str) -> (r: Result<Sandbox, NanovmsError>)
        ensures
            self.sandboxes().contains_key(id@) ==> (r matches Ok(s) && same_sandbox(
                s,
                self.sandboxes()[id@],
            )),
            !self.sandboxes().contains_key(id@) ==> (r matches Err(
                NanovmsError::SandboxNotFound(m),
            ) && m@ == id@),
    {
        match self.sandboxes.get(id) {
            Some(s) => Ok(s.clone()),
            None => Err(NanovmsError::SandboxNotFound(String::from_str(id))),
        }
    }

    /// Copies of all sandboxes, each once.
    pub fn list_sandboxes(&self) -> (r: Vec<Sandbox>)
        ensures
            r@.len() == self.sandboxes().len(),
            forall|i: int|
                0 <= i < r@.len() ==> self.sandboxes().contains_key(#[trigger] r@[i].id@)
                    && same_sandbox(r@[i], self.sandboxes()[r@[i].id@]),
            forall|i: int, j: int|
                0 <= i < j < r@.len() ==> #[trigger] r@[i].id@ != #[trigger] r@[j].id@,
    {
        proof {
            use_type_invariant(self);
        }
        let n = self.sandboxes.len();
        let mut out: Vec<Sandbox> = Vec::new();
        let mut i: usize = 0;
        while i < n
            invariant
                n == self.sandboxes.spec_entries().len(),
                n == self.sandboxes@.len(),
                keys_distinct(self.sandboxes.spec_entries()),
                sandboxes_by_id(self.sandboxes@),
                i <= n,
                out@.len() == i,
                forall|j: int|
                    0 <= j < i ==> #[trigger] out@[j].id@ == self.sandboxes.spec_entries()[j].0@
                        && self.sandboxes@.contains_key(out@[j].id@) && same_sandbox(
                        out@[j],
                        self.sandboxes@[out@[j].id@],
                    ),
            decreases n - i,
        {
            let (k, s) = self.sandboxes.entry_at(i);
            out.push(s.clone());
            i = i + 1;
        }
        proof {
            assert forall|a: int, b: int| 0 <= a < b < out@.len() implies #[trigger] out@[a].id@
                != #[trigger] out@[b].id@ by {
                assert(out@[a].id@ == self.sandboxes.spec_entries()[a].0@);
                assert(out@[b].id@ == self.sandboxes.spec_entries()[b].0@);
            }
        }
        out
    }

    /// Moves the sandbox `id` to `state` and hands back a copy of it.
    fn move_sandbox(&mut self, id: &str, state: SandboxState) -> (r: Result<Sandbox, NanovmsError>)
        ensures
            old(self).sandboxes().contains_key(id@) ==> (r matches Ok(s) && moved_to(
                s,
                old(self).sandboxes()[id@],
                state,
            ) && sandbox_stored(old(self).sandboxes(), final(self).sandboxes(), id@, s)),
            !old(self).sandboxes().contains_key(id@) ==> (r matches Err(
                NanovmsError::SandboxNotFound(m),
            ) && m@ == id@) && final(self).sandboxes() == old(self).sandboxes(),
            final(self).snapshots() == old(self).snapshots(),
    {
        proof {
            use_type_invariant(&*self);
        }
        let mut moved = match self.sandboxes.get(id) {
            Some(s) => s.clone(),
            None => {
                return Err(NanovmsError::SandboxNotFound(String::from_str(id)));
            },
        };
        moved.state = state;
        let copy = moved.clone();
        let mut table = StrMap::new();
        core::mem::swap(&mut table, &mut self.sandboxes);
        let ghost before = table@;
        table.insert(String::from_str(id), moved);
        assert(table@.remove(id@) =~= before.remove(id@));
        self.sandboxes = table;
        Ok(copy)
    }

    /// Starts the sandbox `id`: it is running afterwards.
    pub fn start_sandbox(&mut self, id: &str) -> (r: Result<Sandbox, NanovmsError>)
        ensures
            old(self).sandboxes().contains_key(id@) ==> (r matches Ok(s) && moved_to(
                s,
                old(self).sandboxes()[id@],
                SandboxState::Running,
            ) && sandbox_stored(old(self).sandboxes(), final(self).sandboxes(), id@, s)),
            !old(self).sandboxes().contains_key(id@) ==> (r matches Err(
                NanovmsError::SandboxNotFound(m),
            ) && m@ == id@) && final(self).sandboxes() == old(self).sandboxes(),
            final(self).snapshots() == old(self).snapshots(),
    {
        self.move_sandbox(id, SandboxState::Running)
    }

    /// Stops the sandbox `id`: it is stopped afterwards.
    pub fn stop_sandbox(&mut self, id: &str) -> (r: Result<Sandbox, NanovmsError>)
        ensures
            old(self).sandboxes().contains_key(id@) ==> (r matches Ok(s) && moved_to(
                s,
                old(self).sandboxes()[id@],
                SandboxState::Stopped,
            ) && sandbox_stored(old(self).sandboxes(), final(self).sandboxes(), id@, s)),
            !old(self).sandboxes().contains_key(id@) ==> (r matches Err(
                NanovmsError::SandboxNotFound(m),
            ) && m@ == id@) && final(self).sandboxes() == old(self).sandboxes(),
            final(self).snapshots() == old(self).snapshots(),
    {
        self.move_sandbox(id, SandboxState::Stopped)
    }

    /// Deletes the sandbox `id`; a missing one is an error.
    pub fn delete_sandbox(&mut self, id: &str) -> (r: Result<(), NanovmsError>)
        ensures
            final(self).sandboxes() == old(self).sandboxes().remove(id@),
            old(self).sandboxes().contains_key(id@) ==> r is Ok,
            !old(self).sandboxes().contains_key(id@) ==> (r matches Err(
                NanovmsError::SandboxNotFound(m),
            ) && m@ == id@),
            final(self).snapshots() == old(self).snapshots(),
    {
        proof {
            use_type_invariant(&*self);
        }
        let mut table = StrMap::new();
        core::mem::swap(&mut table, &mut self.sandboxes);
        let removed = table.remove(id);
        self.sandboxes = table;
        match removed {
            Some(_) => Ok(()),
            None => Err(NanovmsError::SandboxNotFound(String::from_str(id))),
        }
    }

    /// What executing `command` gives: an echo of it, with exit code zero,
    /// taking 100 ms.
    pub fn execute(command: &[String]) -> (r: Output)
        ensures
            r.stdout@ == "Executed: "@ + joined(texts(command@), " "@),
            r.stderr@.len() == 0,
            r.exit_code == 0,
            r.duration == span_of_millis(100),
    {
        let mut out = String::from_str("Executed: ");
        let ghost head = out@;
        let mut i: usize = 0;
        while i < command.len()
            invariant
                i <= command@.len(),
                head == "Executed: "@,
                out@ == head + joined(texts(command@.take(i as int)), " "@),
            decreases command@.len() - i,
        {
            let ghost parts = texts(command@.take(i + 1));
            assert(parts.drop_last() =~= texts(command@.take(i as int)));
            assert(parts.last() == command@[i as int]@);
            if i > 0 {
                out.append(" ");
            } else {
                assert(texts(command@.take(0)) =~= Seq::<Seq<char>>::empty());
            }
            out.append(command[i].as_str());
            i = i + 1;
        }
        assert(command@.take(command@.len() as int) =~= command@);
        Output { stdout: out, stderr: String::new(), exit_code: 0, duration: millis(100) }
    }

    /// Snapshots the sandbox `sandbox_id` as `name` at `now`, under the
    /// identifier `id`; a missing sandbox is an error.
    pub fn create_snapshot_at(
        &mut self,
        sandbox_id: &str,
        name: &str,
        id: String,
        now: Timestamp,
    ) -> (r: Result<Snapshot, NanovmsError>)
        ensures
            final(self).sandboxes() == old(self).sandboxes(),
            !old(self).sandboxes().contains_key(sandbox_id@) ==> (r matches Err(
                NanovmsError::SandboxNotFound(m),
            ) && m@ == sandbox_id@) && final(self).snapshots() == old(self).snapshots(),
            old(self).sandboxes().contains_key(sandbox_id@) ==> (r matches Ok(s) && s.id == id
                && s.sandbox_id@ == sandbox_id@ && s.name@ == name@ && s.created_at == now
                && s.size_bytes == MOCK_SNAPSHOT_SIZE && s.labels@.len() == 0 && snapshot_stored(
                old(self).snapshots(),
                final(self).snapshots(),
                id@,
                s,
            )),
    {
        proof {
            use_type_invariant(&*self);
        }
        if !self.sandboxes.contains_key(sandbox_id) {
            return Err(NanovmsError::SandboxNotFound(String::from_str(sandbox_id)));
        }
        let snapshot = Snapshot {
            id,
            sandbox_id: String::from_str(sandbox_id),
            name: String::from_str(name),
            created_at: now,
            size_bytes: MOCK_SNAPSHOT_SIZE,
            labels: StrMap::new(),
        };
        let stored = snapshot.clone();
        let mut table = StrMap::new();
        core::mem::swap(&mut table, &mut self.snapshots);
        let ghost before = table@;
        table.insert(snapshot.id.clone(), stored);
        assert(table@.remove(snapshot.id@) =~= before.remove(snapshot.id@));
        self.snapshots = table;
        Ok(snapshot)
    }

    /// Snapshots the sandbox `sandbox_id` as `name` now, under a fresh
    /// random identifier; a missing sandbox is an error.
    pub fn create_snapshot(&mut self, sandbox_id: &str, name: &str) -> (r: Result<
        Snapshot,
        NanovmsError,
    >)
        ensures
            final(self).sandboxes() == old(self).sandboxes(),
            !old(self).sandboxes().contains_key(sandbox_id@) ==> (r matches Err(
                NanovmsError::SandboxNotFound(m),
            ) && m@ == sandbox_id@) && final(self).snapshots() == old(self).snapshots(),
            old(self).sandboxes().contains_key(sandbox_id@) ==> (r matches Ok(s) && is_uuid_text(
                s.id@,
            ) && s.sandbox_id@ == sandbox_id@ && s.name@ == name@ && s.size_bytes
                == MOCK_SNAPSHOT_SIZE && s.labels@.len() == 0 && snapshot_stored(
                old(self).snapshots(),
                final(self).snapshots(),
                s.id@,
                s,
            )),
    {
        self.create_snapshot_at(sandbox_id, name, new_uuid_text(), Timestamp::now())
    }

    /// Copies of the snapshots of the sandbox `sandbox_id`, each once.
    pub fn list_snapshots(&self, sandbox_id: &str) -> (r: Vec<Snapshot>)
        ensures
            forall|i: int|
                0 <= i < r@.len() ==> self.snapshots().contains_key(#[trigger] r@[i].id@)
                    && same_snapshot(r@[i], self.snapshots()[r@[i].id@]) && r@[i].sandbox_id@
                    == sandbox_id@,
            forall|i: int, j: int|
                0 <= i < j < r@.len() ==> #[trigger] r@[i].id@ != #[trigger] r@[j].id@,
            forall|k: Seq<char>|
                #[trigger] self.snapshots().contains_key(k) && self.snapshots()[k].sandbox_id@
                    == sandbox_id@ ==> exists|i: int| 0 <= i < r@.len() && r@[i].id@ == k,
    {
        proof {
            use_type_invariant(self);
        }
        let n = self.snapshots.len();
        let mut out: Vec<Snapshot> = Vec::new();
        let ghost mut picked: Seq<int> = Seq::empty();
        let mut i: usize = 0;
        while i < n
            invariant
                n == self.snapshots.spec_entries().len(),
                snapshots_by_id(self.snapshots@),
                keys_distinct(self.snapshots.spec_entries()),
                self.snapshots@ == pairs_map(self.snapshots.spec_entries()),
                i <= n,
                out@.len() == picked.len(),
                forall|j: int|
                    0 <= j < out@.len() ==> 0 <= #[trigger] picked[j] < i && out@[j].id@
                        == self.snapshots.spec_entries()[picked[j]].0@ && self.snapshots@.contains_key(
                        out@[j].id@,
                    ) && same_snapshot(out@[j], self.snapshots@[out@[j].id@]) && out@[j].sandbox_id@
                        == sandbox_id@,
                forall|a: int, b: int| 0 <= a < b < picked.len() ==> picked[a] < picked[b],
                forall|e: int|
                    0 <= e < i && (#[trigger] self.snapshots.spec_entries()[e]).1.sandbox_id@
                        == sandbox_id@ ==> exists|j: int| 0 <= j < picked.len() && picked[j] == e,
            decreases n - i,
        {
            let (k, s) = self.snapshots.entry_at(i);
            let ghost old_picked = picked;
            let ghost es = self.snapshots.spec_entries();
            if crate::common::text::str_eq(s.sandbox_id.as_str(), sandbox_id) {
                out.push(s.clone());
                proof {
                    picked = picked.push(i as int);
                }
            }
            proof {
                assert forall|e: int|
                    0 <= e < i + 1 && (#[trigger] es[e]).1.sandbox_id@ == sandbox_id@ implies exists|
                    j: int,
                | 0 <= j < picked.len() && picked[j] == e by {
                    if e < i {
                        let j = choose|j: int| 0 <= j < old_picked.len() && old_picked[j] == e;
                        assert(picked[j] == e);
                    } else {
                        assert(picked[picked.len() - 1] == e);
                    }
                }
            }
            i = i + 1;
        }
        proof {
            let es = self.snapshots.spec_entries();
            assert forall|a: int| 0 <= a < out@.len() implies self.snapshots@.contains_key(
                #[trigger] out@[a].id@,
            ) && same_snapshot(out@[a], self.snapshots@[out@[a].id@]) && out@[a].sandbox_id@
                == sandbox_id@ by {
                assert(0 <= picked[a]);
            }
            assert forall|a: int, b: int| 0 <= a < b < out@.len() implies #[trigger] out@[a].id@
                != #[trigger] out@[b].id@ by {
                assert(picked[a] < picked[b]);
                assert(es[picked[a]].0@ != es[picked[b]].0@);
            }
            assert forall|k: Seq<char>|
                #[trigger] self.snapshots@.contains_key(k) && self.snapshots@[k].sandbox_id@
                    == sandbox_id@ implies exists|i: int| 0 <= i < out@.len() && out@[i].id@ == k by {
                lemma_pairs_map_dom(es, k);
                let e = choose|e: int| 0 <= e < es.len() && #[trigger] es[e].0@ == k;
                lemma_pairs_map_index(es, e);
                assert(es[e].1.sandbox_id@ == sandbox_id@);
                let j = choose|j: int| 0 <= j < picked.len() && picked[j] == e;
                assert(out@[j].id@ == k);
            }
        }
        out
    }

    /// Restores the sandbox `sandbox_id` from the snapshot `snapshot_id` at
    /// `now`: the sandbox is marked updated.  A missing snapshot, then a
    /// missing sandbox, is an error.
    pub fn restore_snapshot_at(&mut self, sandbox_id: &str, snapshot_id: &str, now: Timestamp) -> (r:
        Result<Sandbox, NanovmsError>)
        ensures
            final(self).snapshots() == old(self).snapshots(),
            !old(self).snapshots().contains_key(snapshot_id@) ==> (r matches Err(
                NanovmsError::Unknown(m),
            ) && m@ == "Snapshot not found"@) && final(self).sandboxes() == old(self).sandboxes(),
            old(self).snapshots().contains_key(snapshot_id@) && !old(self).sandboxes().contains_key(
                sandbox_id@,
            ) ==> (r matches Err(NanovmsError::SandboxNotFound(m)) && m@ == sandbox_id@)
                && final(self).sandboxes() == old(self).sandboxes(),
            old(self).snapshots().contains_key(snapshot_id@) && old(self).sandboxes().contains_key(
                sandbox_id@,
            ) ==> (r matches Ok(s) && same_sandbox(
                s,
                Sandbox { updated_at: now, ..old(self).sandboxes()[sandbox_id@] },
            ) && sandbox_stored(old(self).sandboxes(), final(self).sandboxes(), sandbox_id@, s)),
    {
        proof {
            use_type_invariant(&*self);
        }
        if !self.snapshots.contains_key(snapshot_id) {
            return Err(NanovmsError::Unknown(String::from_str("Snapshot not found")));
        }
        let mut restored = match self.sandboxes.get(sandbox_id) {
            Some(s) => s.clone(),
            None => {
                return Err(NanovmsError::SandboxNotFound(String::from_str(sandbox_id)));
            },
        };
        restored.updated_at = now;
        let copy = restored.clone();
        let mut table = StrMap::new();
        core::mem::swap(&mut table, &mut self.sandboxes);
        let ghost before = table@;
        table.insert(String::from_str(sandbox_id), restored);
        assert(table@.remove(sandbox_id@) =~= before.remove(sandbox_id@));
        self.sandboxes = table;
        Ok(copy)
    }

    /// Restores the sandbox `sandbox_id` from the snapshot `snapshot_id`
    /// now.  A missing snapshot, then a missing sandbox, is an error.
    pub fn restore_snapshot(&mut self, sandbox_id: &str, snapshot_id: &str) -> (r: Result<
        Sandbox,
        NanovmsError,
    >)
        ensures
            final(self).snapshots() == old(self).snapshots(),
            !old(self).snapshots().contains_key(snapshot_id@) ==> (r matches Err(
                NanovmsError::Unknown(m),
            ) && m@ == "Snapshot not found"@) && final(self).sandboxes() == old(self).sandboxes(),
            old(self).snapshots().contains_key(snapshot_id@) && !old(self).sandboxes().contains_key(
                sandbox_id@,
            ) ==> (r matches Err(NanovmsError::SandboxNotFound(m)) && m@ == sandbox_id@)
                && final(self).sandboxes() == old(self).sandboxes(),
            old(self).snapshots().contains_key(snapshot_id@) && old(self).sandboxes().contains_key(
                sandbox_id@,
            ) ==> (r matches Ok(s) && same_sandbox(
                Sandbox { updated_at: old(self).sandboxes()[sandbox_id@].updated_at, ..s },
                old(self).sandboxes()[sandbox_id@],
            ) && sandbox_stored(old(self).sandboxes(), final(self).sandboxes(), sandbox_id@, s)),
    {
        self.restore_snapshot_at(sandbox_id, snapshot_id, Timestamp::now())
    }

    /// Deletes the snapshot `snapshot_id`; a missing one is an error.
    pub fn delete_snapshot(&mut self, snapshot_id: &str) -> (r: Result<(), NanovmsError>)
        ensures
            final(self).sandboxes() == old(self).sandboxes(),
            final(self).snapshots() == old(self).snapshots().remove(snapshot_id@),
            old(self).snapshots().contains_key(snapshot_id@) ==> r is Ok,
            !old(self).snapshots().contains_key(snapshot_id@) ==> (r matches Err(
                NanovmsError::Unknown(m),
            ) && m@ == "Snapshot not found"@),
    {
        proof {
            use_type_invariant(&*self);
        }
        let mut table = StrMap::new();
        core::mem::swap(&mut table, &mut self.snapshots);
        let removed = table.remove(snapshot_id);
        self.snapshots = table;
        match removed {
            Some(_) => Ok(()),
            None => Err(NanovmsError::Unknown(String::from_str("Snapshot not found"))),
        }
    }
}

impl Default for MockStore {
    fn default() -> (r: Self)
        ensures
            r.sandboxes().len() == 0,
            r.snapshots().len() == 0,
    {
        Self::new()
    }
}

} // verus!
