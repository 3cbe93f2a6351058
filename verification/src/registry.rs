use vstd::prelude::*;

verus! {

/// One connected protocol peer: its registry id and an optional capability
/// token (the security context it was created under). The protocol-library
/// state that rides along with a client lives with the embedding process,
/// keyed by this id.
#[derive(Clone, Copy, PartialEq, Eq, Structural, Debug)]
pub struct Client {
    pub id: u64,
    /// Capability token of the client's security context; a client
    /// accepted on the plain listening socket has none.
    pub capability_token: Option<u64>,
}

/// Accepts new protocol client connections and forgets them on disconnect.
/// The sockets themselves are outside work; the registry owns which
/// clients exist, their ids and their capability tokens.
pub struct ClientRegistry {
    /// Connected clients, in order of acceptance.
    pub clients: Vec<Client>,
    /// The id the next accepted client will get.
    pub next_id: u64,
}

impl ClientRegistry {
    /// Ids are handed out in increasing order, so they never repeat.
    pub open spec fn wf(self) -> bool {
        &&& forall|i: int| 0 <= i < self.clients@.len() ==> self.clients@[i].id < self.next_id
        &&& forall|i: int, j: int|
            0 <= i < j < self.clients@.len() ==> self.clients@[i].id < self.clients@[j].id
    }

    pub open spec fn holds_id(self, id: u64) -> bool {
        exists|i: int| 0 <= i < self.clients@.len() && self.clients@[i].id == id
    }

    /// The position of the client with a given id.
    pub open spec fn index_of(self, id: u64) -> int {
        choose|i: int| 0 <= i < self.clients@.len() && self.clients@[i].id == id
    }

    pub fn new() -> (r: ClientRegistry)
        ensures
            r.clients@ == Seq::<Client>::empty(),
            r.next_id == 0,
            r.wf(),
    {
        ClientRegistry { clients: Vec::new(), next_id: 0 }
    }

    /// Wrap a newly accepted connection in a client record with an empty
    /// capability token and a fresh id. Accepting never fails (a failing
    /// listening socket never reaches the registry); the id-space bound is
    /// the one machine limit.
    pub fn accept(&mut self) -> (id: u64)
        requires
            old(self).wf(),
            old(self).next_id < u64::MAX,
        ensures
            final(self).wf(),
            id == old(self).next_id,
            !old(self).holds_id(id),
            final(self).clients@ == old(self).clients@.push(
                Client { id, capability_token: None },
            ),
            final(self).next_id == old(self).next_id + 1,
    {
        let id = self.next_id;
        self.clients.push(Client { id, capability_token: None });
        self.next_id = self.next_id + 1;
        id
    }

    /// Remove the client on disconnect or error; every other client is
    /// untouched, so one client's failure stays its own. Reports whether
    /// the id was known.
    pub fn on_disconnect(&mut self, id: u64) -> (found: bool)
        requires
            old(self).wf(),
        ensures
            final(self).wf(),
            final(self).next_id == old(self).next_id,
            found == old(self).holds_id(id),
            found ==> final(self).clients@ == old(self).clients@.remove(old(self).index_of(id)),
            !found ==> final(self).clients@ == old(self).clients@,
    {
        let n = self.clients.len();
        let mut i: usize = 0;
        while i < n
            invariant
                old(self).wf(),
                *self == *old(self),
                n == self.clients@.len(),
                i <= n,
                forall|j: int| 0 <= j < i ==> self.clients@[j].id != id,
            decreases n - i,
        {
            if self.clients[i].id == id {
                self.clients.remove(i);
                proof {
                    let s0 = old(self).clients@;
                    assert(old(self).holds_id(id));
                    let w = old(self).index_of(id);
                    assert(0 <= w < s0.len() && s0[w].id == id);
                    if w < i as int {
                        assert(s0[w].id < s0[i as int].id);
                    }
                    if w > i as int {
                        assert(s0[i as int].id < s0[w].id);
                    }
                    assert(w == i as int);
                    let s1 = self.clients@;
                    assert forall|p: int, q: int| 0 <= p < q < s1.len() implies s1[p].id
                        < s1[q].id by {
                        let pp: int = if p < i as int { p } else { p + 1 };
                        let qq: int = if q < i as int { q } else { q + 1 };
                        assert(s1[p] == s0[pp]);
                        assert(s1[q] == s0[qq]);
                        assert(s0[pp].id < s0[qq].id);
                    }
                    assert forall|p: int| 0 <= p < s1.len() implies s1[p].id < self.next_id by {
                        let pp: int = if p < i as int { p } else { p + 1 };
                        assert(s1[p] == s0[pp]);
                    }
                }
                return true;
            }
            i = i + 1;
        }
        proof {
            assert(!old(self).holds_id(id));
        }
        false
    }

    /// How many clients are connected.
    pub fn client_count(&self) -> (n: usize)
        ensures
            n == self.clients@.len(),
    {
        self.clients.len()
    }
}

} // verus!
