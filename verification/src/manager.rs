//! The collection of all clients.

use crate::client::{
    Client, ClientConfig, ClientConfigView, ClientHandle, ClientState, ClientStateView, ClientView,
    Position,
};
use crate::handles::{
    all_handles, handles_where, lemma_handles_below, lemma_handles_step, lemma_is_lowest,
    lemma_lowest, lowest_where,
};
use crate::message::listed;
use vstd::prelude::*;

verus! {

/// All clients by their handles.
pub type ClientMap = Map<ClientHandle, ClientView>;

/// Holds of the handles that name a client.
pub open spec fn is_client(clients: ClientMap) -> spec_fn(ClientHandle) -> bool {
    |h: ClientHandle| clients.contains_key(h)
}

/// Holds of the handles that name no client.
pub open spec fn is_free(clients: ClientMap) -> spec_fn(ClientHandle) -> bool {
    |h: ClientHandle| !clients.contains_key(h)
}

/// Whether a handle names an active client.
pub open spec fn active(clients: ClientMap, h: ClientHandle) -> bool {
    clients.contains_key(h) && clients[h].1.active
}

/// Holds of the handles that name an active client.
pub open spec fn is_active(clients: ClientMap) -> spec_fn(ClientHandle) -> bool {
    |h: ClientHandle| active(clients, h)
}

/// Holds of the handles that name an active client on the given side.
pub open spec fn is_active_at(clients: ClientMap, pos: Position) -> spec_fn(ClientHandle) -> bool {
    |h: ClientHandle| active(clients, h) && clients[h].0.pos == pos
}

/// The active clients in ascending order.
pub open spec fn active_handles(clients: ClientMap) -> Seq<ClientHandle> {
    handles_where(is_active(clients))
}

/// The active client on the given side; the one with the lowest handle if there
/// are several.
pub open spec fn occupant(clients: ClientMap, pos: Position) -> Option<ClientHandle> {
    lowest_where(is_active_at(clients, pos))
}

/// The lowest handle that names no client.
pub open spec fn free_handle(clients: ClientMap) -> Option<ClientHandle> {
    lowest_where(is_free(clients))
}

/// All clients in ascending order of their handles.
pub open spec fn listing(clients: ClientMap) -> Seq<
    (ClientHandle, ClientConfigView, ClientStateView),
> {
    handles_where(is_client(clients)).map_values(
        |h: ClientHandle| (h, clients[h].0, clients[h].1),
    )
}

/// The entry of a list of clients as a value.
pub open spec fn entry(e: (ClientHandle, &Client)) -> (
    ClientHandle,
    ClientConfigView,
    ClientStateView,
) {
    (e.0, e.1@.0, e.1@.1)
}

/// The clients of the service, each under a handle of its own.
#[derive(Debug)]
pub struct ClientManager {
    /// The client with handle `h`, if there is one, stands at index `h`.
    slots: Vec<Option<Client>>,
}

impl View for ClientManager {
    type V = ClientMap;

    closed spec fn view(&self) -> ClientMap {
        Map::new(
            |h: ClientHandle| h < self.slots@.len() && self.slots@[h as int] is Some,
            |h: ClientHandle| (self.slots@[h as int]->0)@,
        )
    }
}

impl Default for ClientManager {
    fn default() -> (manager: ClientManager)
        ensures
            manager@ == ClientMap::empty(),
    {
        let manager = ClientManager { slots: Vec::new() };
        assert(manager@ =~= ClientMap::empty());
        manager
    }
}

impl ClientManager {
    /// Adds a client of which nothing is known yet, under the lowest free handle.
    pub fn add_client(&mut self) -> (handle: ClientHandle)
        ensures
            free_handle(old(self)@) == Some(handle),
            final(self)@ == old(self)@.insert(
                handle,
                (ClientConfigView::unconfigured(), ClientStateView::fresh()),
            ),
    {
        let client = (ClientConfig::default(), ClientState::default());
        let mut i: usize = 0;
        while i < self.slots.len()
            invariant_except_break
                forall|j: int| 0 <= j < i ==> self.slots@[j] is Some,
            invariant
                i <= self.slots@.len(),
                self.slots@ == old(self).slots@,
            ensures
                forall|j: int| 0 <= j < i ==> self.slots@[j] is Some,
                i < self.slots@.len() ==> self.slots@[i as int] is None,
            decreases self.slots@.len() - i,
        {
            if self.slots[i].is_none() {
                break;
            }
            i = i + 1;
        }
        if i < self.slots.len() {
            self.slots.set(i, Some(client));
        } else {
            self.slots.push(Some(client));
        }
        proof {
            let h = i as ClientHandle;
            let p = is_free(old(self)@);
            assert(p(h));
            assert forall|k: ClientHandle| #[trigger] p(k) implies h <= k by {
                if k < h {
                    assert(old(self).slots@[k as int] is Some);
                }
            }
            lemma_is_lowest(p, h);
            assert(self@ =~= old(self)@.insert(
                h,
                (ClientConfigView::unconfigured(), ClientStateView::fresh()),
            ));
        }
        i as ClientHandle
    }

    /// The active client on the given side; the one with the lowest handle if there
    /// are several.
    pub fn find_client(&self, pos: Position) -> (handle: Option<ClientHandle>)
        ensures
            handle == occupant(self@, pos),
    {
        let ghost p = is_active_at(self@, pos);
        for i in 0..self.slots.len()
            invariant
                p == is_active_at(self@, pos),
                forall|k: ClientHandle| k < i ==> !#[trigger] p(k),
        {
            if let Some((c, s)) = &self.slots[i] {
                if s.active && c.pos == pos {
                    proof {
                        assert(p(i as ClientHandle));
                        lemma_is_lowest(p, i as ClientHandle);
                    }
                    return Some(i as ClientHandle);
                }
            }
        }
        proof {
            assert forall|k: ClientHandle| !#[trigger] p(k) by {
                if p(k) {
                    assert(k < self.slots@.len());
                }
            }
            lemma_lowest(p);
        }
        None
    }

    /// Removes a client and hands it out.
    pub fn remove_client(&mut self, handle: ClientHandle) -> (client: Option<Client>)
        ensures
            final(self)@ == old(self)@.remove(handle),
            match client {
                Some(c) => old(self)@.contains_key(handle) && old(self)@[handle] == c@,
                None => !old(self)@.contains_key(handle),
            },
    {
        if handle >= self.slots.len() as u64 {
            assert(self@ =~= old(self)@.remove(handle));
            return None;
        }
        let mut client: Option<Client> = None;
        std::mem::swap(&mut client, &mut self.slots[handle as usize]);
        assert(self@ =~= old(self)@.remove(handle));
        client
    }

    /// The client with the given handle.
    pub fn get(&self, handle: ClientHandle) -> (client: Option<&Client>)
        ensures
            match client {
                Some(c) => self@.contains_key(handle) && self@[handle] == c@,
                None => !self@.contains_key(handle),
            },
    {
        if handle < self.slots.len() as u64 {
            self.slots[handle as usize].as_ref()
        } else {
            None
        }
    }

    /// The client with the given handle, to be changed in place.
    pub fn get_mut(&mut self, handle: ClientHandle) -> (client: Option<&mut Client>)
        ensures
            match client {
                Some(c) => {
                    &&& old(self)@.contains_key(handle)
                    &&& old(self)@[handle] == (*c)@
                    &&& final(self)@ == old(self)@.insert(handle, final(c)@)
                },
                None => !old(self)@.contains_key(handle) && final(self)@ == old(self)@,
            },
    {
        if handle < self.slots.len() as u64 {
            self.slots[handle as usize].as_mut()
        } else {
            None
        }
    }

    /// All clients in ascending order of their handles.
    pub fn get_client_states(&self) -> (clients: Vec<(ClientHandle, &Client)>)
        ensures
            clients@.map_values(|e: (ClientHandle, &Client)| entry(e)) == listing(self@),
    {
        let mut clients: Vec<(ClientHandle, &Client)> = Vec::new();
        let ghost p = is_client(self@);
        let ghost f = |h: ClientHandle| (h, self@[h].0, self@[h].1);
        let ghost g = |e: (ClientHandle, &Client)| entry(e);
        for i in 0..self.slots.len()
            invariant
                p == is_client(self@),
                f == (|h: ClientHandle| (h, self@[h].0, self@[h].1)),
                g == (|e: (ClientHandle, &Client)| entry(e)),
                clients@.map_values(g) == all_handles().take(i as int).filter(p).map_values(f),
        {
            let ghost before = clients@;
            if let Some(client) = &self.slots[i] {
                clients.push((i as ClientHandle, client));
            }
            proof {
                let h = i as ClientHandle;
                lemma_handles_step(p, h);
                let low = all_handles().take(i as int).filter(p);
                if p(h) {
                    assert(clients@.map_values(g) =~= before.map_values(g).push(f(h)));
                    assert(low.push(h).map_values(f) =~= low.map_values(f).push(f(h)));
                }
            }
        }
        proof {
            lemma_handles_below(p, self.slots@.len());
        }
        clients
    }

    /// The active clients in ascending order.
    pub fn active_clients(&self) -> (handles: Vec<ClientHandle>)
        ensures
            handles@ == active_handles(self@),
    {
        let mut handles: Vec<ClientHandle> = Vec::new();
        let ghost p = is_active(self@);
        for i in 0..self.slots.len()
            invariant
                p == is_active(self@),
                handles@ == all_handles().take(i as int).filter(p),
        {
            if let Some((_, s)) = &self.slots[i] {
                if s.active {
                    handles.push(i as ClientHandle);
                }
            }
            proof {
                lemma_handles_step(p, i as ClientHandle);
            }
        }
        proof {
            lemma_handles_below(p, self.slots@.len());
        }
        handles
    }

    /// A copy of all clients in ascending order of their handles.
    pub fn snapshot(&self) -> (clients: Vec<(ClientHandle, ClientConfig, ClientState)>)
        ensures
            clients@.map_values(|e: (ClientHandle, ClientConfig, ClientState)| listed(e))
                == listing(self@),
    {
        let states = self.get_client_states();
        let mut clients: Vec<(ClientHandle, ClientConfig, ClientState)> = Vec::new();
        let ghost f = |e: (ClientHandle, &Client)| entry(e);
        let ghost g = |e: (ClientHandle, ClientConfig, ClientState)| listed(e);
        for i in 0..states.len()
            invariant
                g == (|e: (ClientHandle, ClientConfig, ClientState)| listed(e)),
                f == (|e: (ClientHandle, &Client)| entry(e)),
                clients@.map_values(g) == states@.map_values(f).take(i as int),
        {
            let (h, client) = states[i];
            let ghost before = clients@;
            clients.push((h, client.0.clone(), client.1.clone()));
            proof {
                assert(clients@.map_values(g) =~= before.map_values(g).push(f(states@[i as int])));
                assert(states@.map_values(f).take(i + 1) =~= states@.map_values(f).take(
                    i as int,
                ).push(f(states@[i as int])));
            }
        }
        assert(states@.map_values(f).take(states@.len() as int) =~= states@.map_values(f));
        clients
    }
}

} // verus!
