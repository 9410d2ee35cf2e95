//! Process-wide bookkeeping of live connections and terminals, with
//! cascaded cleanup: removing a connection removes its terminals, and a
//! terminal can only be added under a present connection, so no terminal
//! ever points at an absent connection.

use vstd::prelude::*;
use crate::assoc::StrMap;

verus! {

/// A terminal registered under a connection. The handle is whatever the
/// caller uses to reach the pump task.
pub struct TerminalRecord<H> {
    pub terminal_id: String,
    pub connection_id: String,
    pub handle: H,
}

/// The registry of live connections (by connection id) and terminals (by
/// terminal id).
pub struct AppState<C, H> {
    pub connections: StrMap<C>,
    pub terminals: StrMap<TerminalRecord<H>>,
}

impl<C, H> AppState<C, H> {
    /// Well-formedness: unique keys on both sides, each terminal stored
    /// under its own id, and every terminal's connection present.
    pub open spec fn wf(&self) -> bool {
        &&& self.connections.wf()
        &&& self.terminals.wf()
        &&& forall|i: int|
            0 <= i < self.terminals.entries@.len() ==> (#[trigger] self.terminals.entries@[i]).0@
                == self.terminals.entries@[i].1.terminal_id@
        &&& forall|i: int|
            0 <= i < self.terminals.entries@.len() ==> self.connections.has_key(
                (#[trigger] self.terminals.entries@[i]).1.connection_id@,
            )
    }

    /// An empty registry.
    pub fn new() -> (r: Self)
        ensures
            r.wf(),
            forall|k: Seq<char>| !r.connections.has_key(k),
            forall|k: Seq<char>| !r.terminals.has_key(k),
    {
        AppState { connections: StrMap::new(), terminals: StrMap::new() }
    }

    /// Register (or replace) a connection handle.
    pub fn add_connection(&mut self, id: String, handle: C)
        requires
            old(self).wf(),
        ensures
            final(self).wf(),
            final(self).connections.has_key(id@),
            final(self).connections.value_at(id@) == handle,
            forall|k: Seq<char>|
                k != id@ ==> #[trigger] final(self).connections.has_key(k) == old(self).connections.has_key(k),
            final(self).terminals == old(self).terminals,
    {
        self.connections.insert(id, handle);
        proof {
            assert forall|i: int|
                0 <= i < self.terminals.entries@.len() implies self.connections.has_key(
                (#[trigger] self.terminals.entries@[i]).1.connection_id@,
            ) by {
                let c = self.terminals.entries@[i].1.connection_id@;
                assert(old(self).connections.has_key(c));
            }
        }
    }

    /// Borrow a connection handle.
    pub fn get_connection(&self, id: &str) -> (r: Option<&C>)
        requires
            self.wf(),
        ensures
            match r {
                Some(c) => self.connections.has_key(id@) && *c == self.connections.value_at(id@),
                None => !self.connections.has_key(id@),
            },
    {
        self.connections.get_ref(id)
    }

    /// Borrow a terminal record.
    pub fn get_terminal(&self, id: &str) -> (r: Option<&TerminalRecord<H>>)
        requires
            self.wf(),
        ensures
            match r {
                Some(t) => self.terminals.has_key(id@) && *t == self.terminals.value_at(id@),
                None => !self.terminals.has_key(id@),
            },
    {
        self.terminals.get_ref(id)
    }

    /// Register a terminal. Refused when its connection is not present:
    /// every live terminal must point at a live connection.
    pub fn add_terminal(&mut self, terminal: TerminalRecord<H>) -> (added: bool)
        requires
            old(self).wf(),
        ensures
            final(self).wf(),
            added == old(self).connections.has_key(terminal.connection_id@),
            final(self).connections == old(self).connections,
            added ==> final(self).terminals.has_key(terminal.terminal_id@) && final(self).terminals.value_at(terminal.terminal_id@) == terminal,
            added ==> forall|k: Seq<char>|
                k != terminal.terminal_id@ ==> #[trigger] final(self).terminals.has_key(k) == old(self).terminals.has_key(k),
            !added ==> *final(self) == *old(self),
    {
        match self.connections.index_of(terminal.connection_id.as_str()) {
            Some(_) => {
                let key = terminal.terminal_id.clone();
                self.terminals.insert(key, terminal);
                proof {
                    assert forall|i: int|
                        0 <= i < self.terminals.entries@.len() implies (
                    #[trigger] self.terminals.entries@[i]).0@
                        == self.terminals.entries@[i].1.terminal_id@ && self.connections.has_key(
                        self.terminals.entries@[i].1.connection_id@,
                    ) by {
                        let e = self.terminals.entries@[i];
                        self.terminals.lemma_key_index(e.0@, i);
                        if e.0@ != terminal.terminal_id@ {
                            assert(old(self).terminals.has_key(e.0@));
                            let j = choose|j: int|
                                0 <= j < old(self).terminals.entries@.len() && old(self).terminals.entries@[j].0@ == e.0@;
                            old(self).terminals.lemma_key_index(e.0@, j);
                            assert(e.1 == old(self).terminals.entries@[j].1);
                        }
                    }
                }
                true
            },
            None => false,
        }
    }

    /// Remove one terminal, returning its record.
    pub fn remove_terminal(&mut self, id: &str) -> (r: Option<TerminalRecord<H>>)
        requires
            old(self).wf(),
        ensures
            final(self).wf(),
            final(self).connections == old(self).connections,
            !final(self).terminals.has_key(id@),
            match r {
                Some(t) => old(self).terminals.has_key(id@) && t == old(self).terminals.value_at(
                    id@,
                ),
                None => !old(self).terminals.has_key(id@),
            },
            forall|k: Seq<char>|
                k != id@ ==> #[trigger] final(self).terminals.has_key(k) == old(self).terminals.has_key(k),
            forall|k: Seq<char>|
                k != id@ && old(self).terminals.has_key(k) ==> #[trigger] final(self).terminals.value_at(k) == old(self).terminals.value_at(k),
    {
        let r = self.terminals.remove_entry(id);
        proof {
            lemma_submap_wf(&self.terminals, &old(self).terminals, &self.connections);
        }
        r
    }

    /// The position of some terminal of `connection_id`, if any is left.
    fn find_terminal_for_connection(&self, connection_id: &str) -> (r: Option<usize>)
        requires
            self.terminals.wf(),
        ensures
            match r {
                Some(i) => i < self.terminals.entries@.len() && self.terminals.entries@[
                    i as int
                ].1.connection_id@ == connection_id@,
                None => forall|k: Seq<char>|
                    #[trigger] self.terminals.has_key(k) ==> self.terminals.value_at(
                        k,
                    ).connection_id@ != connection_id@,
            },
    {
        let mut i: usize = 0;
        while i < self.terminals.entries.len()
            invariant
                self.terminals.wf(),
                i <= self.terminals.entries@.len(),
                forall|j: int|
                    0 <= j < i ==> (#[trigger] self.terminals.entries@[j]).1.connection_id@
                        != connection_id@,
            decreases self.terminals.entries@.len() - i,
        {
            if crate::text::str_eq(
                self.terminals.entries[i].1.connection_id.as_str(),
                connection_id,
            ) {
                return Some(i);
            }
            i = i + 1;
        }
        proof {
            assert forall|k: Seq<char>| #[trigger] self.terminals.has_key(k) implies
                self.terminals.value_at(k).connection_id@ != connection_id@ by {
                let j = choose|j: int|
                    0 <= j < self.terminals.entries@.len() && self.terminals.entries@[j].0@ == k;
                self.terminals.lemma_key_index(k, j);
            }
        }
        None
    }

    /// Atomically remove and return every terminal of one connection.
    pub fn take_terminals_for_connection(&mut self, connection_id: &str) -> (r: Vec<
        TerminalRecord<H>,
    >)
        requires
            old(self).wf(),
        ensures
            final(self).wf(),
            final(self).connections == old(self).connections,
            forall|k: Seq<char>|
                #[trigger] final(self).terminals.has_key(k) ==> final(self).terminals.value_at(
                    k,
                ).connection_id@ != connection_id@,
            forall|k: Seq<char>|
                #[trigger] final(self).terminals.has_key(k) ==> old(self).terminals.has_key(k)
                    && final(self).terminals.value_at(k) == old(self).terminals.value_at(k),
            forall|k: Seq<char>|
                old(self).terminals.has_key(k) && old(self).terminals.value_at(
                    k,
                ).connection_id@ != connection_id@ ==> #[trigger] final(self).terminals.has_key(k),
            forall|j: int|
                0 <= j < r@.len() ==> (#[trigger] r@[j]).connection_id@ == connection_id@ && old(self).terminals.has_key(r@[j].terminal_id@) && old(self).terminals.value_at(
                    r@[j].terminal_id@,
                ) == r@[j],
            forall|k: Seq<char>|
                old(self).terminals.has_key(k) && old(self).terminals.value_at(
                    k,
                ).connection_id@ == connection_id@ ==> exists|j: int|
                    0 <= j < r@.len() && (#[trigger] r@[j]) == old(self).terminals.value_at(k),
    {
        let mut removed: Vec<TerminalRecord<H>> = Vec::new();
        loop
            invariant
                old(self).wf(),
                self.wf(),
                self.connections == old(self).connections,
                forall|k: Seq<char>|
                    #[trigger] self.terminals.has_key(k) ==> old(self).terminals.has_key(k)
                        && self.terminals.value_at(k) == old(self).terminals.value_at(k),
                forall|k: Seq<char>|
                    old(self).terminals.has_key(k) && old(self).terminals.value_at(
                        k,
                    ).connection_id@ != connection_id@ ==> #[trigger] self.terminals.has_key(k),
                forall|j: int|
                    0 <= j < removed@.len() ==> (#[trigger] removed@[j]).connection_id@
                        == connection_id@ && old(self).terminals.has_key(removed@[j].terminal_id@)
                        && old(self).terminals.value_at(removed@[j].terminal_id@) == removed@[j],
                forall|k: Seq<char>|
                    old(self).terminals.has_key(k) && !(#[trigger] self.terminals.has_key(k))
                        ==> exists|j: int|
                        0 <= j < removed@.len() && (#[trigger] removed@[j]) == old(self).terminals.value_at(k),
            decreases self.terminals.spec_len(),
        {
            match self.find_terminal_for_connection(connection_id) {
                Some(i) => {
                    let key = self.terminals.entries[i].0.clone();
                    proof {
                        self.terminals.lemma_key_index(key@, i as int);
                        assert(self.terminals.value_at(key@).terminal_id@ == key@);
                        assert(self.terminals.value_at(key@).connection_id@ == connection_id@);
                    }
                    let ghost pre = *self;
                    let ghost pre_removed = removed@;
                    let rec = self.terminals.remove_entry(key.as_str());
                    match rec {
                        Some(t) => {
                            removed.push(t);
                            proof {
                                assert(t == old(self).terminals.value_at(key@));
                                assert(removed@ =~= pre_removed.push(t));
                                lemma_submap_wf(
                                    &self.terminals,
                                    &old(self).terminals,
                                    &self.connections,
                                );
                                assert forall|k: Seq<char>|
                                    old(self).terminals.has_key(k) && !(
                                #[trigger] self.terminals.has_key(k)) implies exists|j: int|
                                    0 <= j < removed@.len() && (#[trigger] removed@[j]) == old(self).terminals.value_at(k) by {
                                    if k == key@ {
                                        assert(removed@[removed@.len() - 1] == old(self).terminals.value_at(k));
                                    } else {
                                        assert(pre.terminals.has_key(k) == self.terminals.has_key(
                                            k,
                                        ));
                                        let j = choose|j: int|
                                            0 <= j < pre_removed.len() && pre_removed[j] == old(
                                                self,
                                            ).terminals.value_at(k);
                                        assert(removed@[j] == pre_removed[j]);
                                    }
                                }
                            }
                        },
                        None => {
                            proof {
                                assert(false);
                            }
                        },
                    }
                },
                None => {
                    proof {
                        assert forall|k: Seq<char>|
                            old(self).terminals.has_key(k) && old(self).terminals.value_at(
                                k,
                            ).connection_id@ == connection_id@ implies exists|j: int|
                            0 <= j < removed@.len() && (#[trigger] removed@[j]) == old(
                                self,
                            ).terminals.value_at(k) by {
                            if self.terminals.has_key(k) {
                                assert(self.terminals.value_at(k).connection_id@
                                    != connection_id@);
                            }
                        }
                    }
                    return removed;
                },
            }
        }
    }

    /// Remove a connection and, with it, all of its terminals: the handle
    /// (if the connection was present) and the removed terminal records.
    pub fn remove_connection(&mut self, id: &str) -> ((handle, removed): (
        Option<C>,
        Vec<TerminalRecord<H>>,
    ))
        requires
            old(self).wf(),
        ensures
            final(self).wf(),
            !final(self).connections.has_key(id@),
            match handle {
                Some(c) => old(self).connections.has_key(id@) && c == old(self).connections.value_at(id@),
                None => !old(self).connections.has_key(id@),
            },
            forall|k: Seq<char>|
                k != id@ ==> #[trigger] final(self).connections.has_key(k) == old(self).connections.has_key(k),
            forall|k: Seq<char>|
                #[trigger] final(self).terminals.has_key(k) ==> final(self).terminals.value_at(
                    k,
                ).connection_id@ != id@,
            forall|j: int|
                0 <= j < removed@.len() ==> (#[trigger] removed@[j]).connection_id@ == id@,
            forall|k: Seq<char>|
                #![trigger old(self).terminals.value_at(k)]
                old(self).terminals.has_key(k) && old(self).terminals.value_at(k).connection_id@
                    == id@ ==> removed@.contains(old(self).terminals.value_at(k)),
    {
        let terminals = self.take_terminals_for_connection(id);
        let ghost mid = *self;
        let conn_handle = self.connections.remove_entry(id);
        proof {
            assert forall|i: int|
                0 <= i < self.terminals.entries@.len() implies self.connections.has_key(
                (#[trigger] self.terminals.entries@[i]).1.connection_id@,
            ) by {
                let e = self.terminals.entries@[i];
                mid.terminals.lemma_key_index(e.0@, i);
                assert(mid.terminals.has_key(e.0@));
                assert(mid.terminals.value_at(e.0@).connection_id@ != id@);
                assert(mid.connections.has_key(e.1.connection_id@));
            }
        }
        proof {
            assert forall|k: Seq<char>|
                #![trigger old(self).terminals.value_at(k)]
                old(self).terminals.has_key(k) && old(self).terminals.value_at(k).connection_id@
                    == id@ implies terminals@.contains(old(self).terminals.value_at(k)) by {
                if self.terminals.has_key(k) {
                    assert(self.terminals.value_at(k).connection_id@ != id@);
                } else {
                    let j = choose|j: int|
                        0 <= j < terminals@.len() && terminals@[j] == old(self).terminals.value_at(
                            k,
                        );
                    assert(terminals@[j] == old(self).terminals.value_at(k));
                }
            }
        }
        (conn_handle, terminals)
    }
}

/// Removing terminal entries keeps each remaining one stored under its own
/// id and pointing at a present connection.
proof fn lemma_submap_wf<C, H>(
    cur: &StrMap<TerminalRecord<H>>,
    orig: &StrMap<TerminalRecord<H>>,
    connections: &StrMap<C>,
)
    requires
        cur.wf(),
        orig.wf(),
        forall|k: Seq<char>| #[trigger] cur.has_key(k) ==> orig.has_key(k) && cur.value_at(k)
            == orig.value_at(k),
        forall|i: int|
            0 <= i < orig.entries@.len() ==> (#[trigger] orig.entries@[i]).0@
                == orig.entries@[i].1.terminal_id@,
        forall|i: int|
            0 <= i < orig.entries@.len() ==> connections.has_key(
                (#[trigger] orig.entries@[i]).1.connection_id@,
            ),
    ensures
        forall|i: int|
            0 <= i < cur.entries@.len() ==> (#[trigger] cur.entries@[i]).0@
                == cur.entries@[i].1.terminal_id@,
        forall|i: int|
            0 <= i < cur.entries@.len() ==> connections.has_key(
                (#[trigger] cur.entries@[i]).1.connection_id@,
            ),
{
    assert forall|i: int| 0 <= i < cur.entries@.len() implies (#[trigger] cur.entries@[i]).0@
        == cur.entries@[i].1.terminal_id@ && connections.has_key(
        cur.entries@[i].1.connection_id@,
    ) by {
        let e = cur.entries@[i];
        cur.lemma_key_index(e.0@, i);
        assert(cur.has_key(e.0@));
        assert(orig.has_key(e.0@));
        let j = choose|j: int| 0 <= j < orig.entries@.len() && orig.entries@[j].0@ == e.0@;
        orig.lemma_key_index(e.0@, j);
        assert(orig.entries@[j].1 == cur.value_at(e.0@));
        assert(cur.value_at(e.0@) == e.1);
    }
}

/// Law: a well-formed registry holds no terminal whose connection id is
/// absent from the connection table.
pub proof fn lemma_no_orphan_terminals<C, H>(s: &AppState<C, H>, terminal_id: Seq<char>)
    requires
        s.wf(),
        s.terminals.has_key(terminal_id),
    ensures
        s.connections.has_key(s.terminals.value_at(terminal_id).connection_id@),
{
    let j = choose|j: int|
        0 <= j < s.terminals.entries@.len() && s.terminals.entries@[j].0@ == terminal_id;
    s.terminals.lemma_key_index(terminal_id, j);
}

} // verus!
