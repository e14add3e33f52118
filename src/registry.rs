use vstd::prelude::*;

use crate::structures::{copy_clients, ClientInfo};
use crate::text::same_text;

verus! {

/// No two records carry the same id.
pub open spec fn ids_unique(s: Seq<ClientInfo>) -> bool {
    forall|i: int, j: int|
        0 <= i < s.len() && 0 <= j < s.len() && #[trigger] s[i].id@ == #[trigger] s[j].id@ ==> i == j
}

/// At most one record is marked as admin.
pub open spec fn at_most_one_admin(s: Seq<ClientInfo>) -> bool {
    forall|i: int, j: int|
        0 <= i < s.len() && 0 <= j < s.len() && #[trigger] s[i].is_admin && #[trigger] s[j].is_admin
            ==> i == j
}

/// Whether some record carries the id `id`.
pub open spec fn has_id(s: Seq<ClientInfo>, id: Seq<char>) -> bool {
    exists|i: int| 0 <= i < s.len() && #[trigger] s[i].id@ == id
}

/// Whether some record is marked as admin.
pub open spec fn has_admin(s: Seq<ClientInfo>) -> bool {
    exists|i: int| 0 <= i < s.len() && #[trigger] s[i].is_admin
}

/// `c` is the record that registration makes of these values.
pub open spec fn is_new_client(c: ClientInfo, id: Seq<char>, name: Seq<char>, key: Seq<char>) -> bool {
    &&& c.id@ == id
    &&& c.name@ == name
    &&& c.key@ == key
    &&& !c.is_admin
}

/// `after` is `before` with the client `id` as the only admin.
pub open spec fn admin_moved(before: Seq<ClientInfo>, after: Seq<ClientInfo>, id: Seq<char>) -> bool {
    &&& after.len() == before.len()
    &&& forall|i: int|
        0 <= i < after.len() ==> {
            &&& #[trigger] after[i].id == before[i].id
            &&& after[i].name == before[i].name
            &&& after[i].key == before[i].key
            &&& after[i].is_admin == (before[i].id@ == id)
        }
}

/// The directory of registered clients, keyed by id, with at most one admin.
pub struct ClientRegistry {
    clients: Vec<ClientInfo>,
}

impl View for ClientRegistry {
    type V = Seq<ClientInfo>;

    closed spec fn view(&self) -> Seq<ClientInfo> {
        self.clients@
    }
}

impl ClientRegistry {
    pub open spec fn well_formed(&self) -> bool {
        ids_unique(self@) && at_most_one_admin(self@)
    }

    /// An empty registry.
    pub fn new() -> (r: ClientRegistry)
        ensures
            r@ == Seq::<ClientInfo>::empty(),
            r.well_formed(),
    {
        ClientRegistry { clients: Vec::new() }
    }

    /// The number of registered clients.
    pub fn len(&self) -> (r: usize)
        ensures
            r == self@.len(),
    {
        self.clients.len()
    }

    /// The position of the record with id `id`, if there is one.
    fn find(&self, id: &str) -> (r: Option<usize>)
        ensures
            r matches Some(i) ==> i < self@.len() && self@[i as int].id@ == id@,
            r is None ==> !has_id(self@, id@),
    {
        let mut i: usize = 0;
        while i < self.clients.len()
            invariant
                i <= self@.len(),
                forall|j: int| 0 <= j < i ==> #[trigger] self@[j].id@ != id@,
            decreases self@.len() - i,
        {
            if same_text(self.clients[i].id.as_str(), id) {
                return Some(i);
            }
            i = i + 1;
        }
        None
    }

    /// Registers a client that is not an admin; refused (false) when the id
    /// is registered already, in which case nothing changes.
    pub fn add_client(&mut self, id: &str, name: &str, key: &str) -> (r: bool)
        requires
            old(self).well_formed(),
        ensures
            final(self).well_formed(),
            r == !has_id(old(self)@, id@),
            r ==> final(self)@.len() == old(self)@.len() + 1,
            r ==> final(self)@.subrange(0, old(self)@.len() as int) == old(self)@,
            r ==> is_new_client(final(self)@.last(), id@, name@, key@),
            !r ==> final(self)@ == old(self)@,
    {
        match self.find(id) {
            Some(_) => false,
            None => {
                let c = ClientInfo {
                    id: id.to_owned(),
                    key: key.to_owned(),
                    name: name.to_owned(),
                    is_admin: false,
                };
                self.clients.push(c);
                assert(final(self)@.subrange(0, old(self)@.len() as int) =~= old(self)@);
                true
            },
        }
    }

    /// Makes the client with id `id` the admin, and no other; false when no
    /// such client is registered, in which case nothing changes.
    pub fn make_admin(&mut self, id: &str) -> (r: bool)
        requires
            old(self).well_formed(),
        ensures
            final(self).well_formed(),
            r == has_id(old(self)@, id@),
            final(self)@.len() == old(self)@.len(),
            r ==> admin_moved(old(self)@, final(self)@, id@),
            !r ==> final(self)@ == old(self)@,
    {
        match self.find(id) {
            None => false,
            Some(k) => {
                let n = self.clients.len();
                let mut i: usize = 0;
                while i < n
                    invariant
                        n == self@.len(),
                        n == old(self)@.len(),
                        i <= n,
                        k < n,
                        old(self)@[k as int].id@ == id@,
                        ids_unique(old(self)@),
                        forall|j: int|
                            0 <= j < n ==> {
                                &&& #[trigger] self@[j].id == old(self)@[j].id
                                &&& self@[j].name == old(self)@[j].name
                                &&& self@[j].key == old(self)@[j].key
                            },
                        forall|j: int|
                            0 <= j < i ==> #[trigger] self@[j].is_admin == (j == k as int),
                        forall|j: int| i <= j < n ==> #[trigger] self@[j] == old(self)@[j],
                    decreases n - i,
                {
                    let mut c = self.clients[i].duplicate();
                    c.is_admin = i == k;
                    self.clients.set(i, c);
                    i = i + 1;
                }
                assert forall|j: int| 0 <= j < self@.len() implies {
                    &&& #[trigger] self@[j].id == old(self)@[j].id
                    &&& self@[j].name == old(self)@[j].name
                    &&& self@[j].key == old(self)@[j].key
                    &&& self@[j].is_admin == (old(self)@[j].id@ == id@)
                } by {
                    assert(i == n);
                    assert(self@[j].id == old(self)@[j].id);
                    assert(self@[j].is_admin == (j == k as int));
                    if old(self)@[j].id@ == id@ {
                        assert(old(self)@[j].id@ == old(self)@[k as int].id@);
                    }
                }
                assert(admin_moved(old(self)@, self@, id@));
                true
            },
        }
    }

    /// Removes the client with id `id`, if one is registered.
    pub fn remove_client(&mut self, id: &str)
        requires
            old(self).well_formed(),
        ensures
            final(self).well_formed(),
            has_id(old(self)@, id@) ==> exists|i: int|
                0 <= i < old(self)@.len() && #[trigger] old(self)@[i].id@ == id@ && final(self)@
                    == old(self)@.remove(i),
            !has_id(old(self)@, id@) ==> final(self)@ == old(self)@,
    {
        match self.find(id) {
            None => {},
            Some(k) => {
                let _ = self.clients.remove(k);
                assert(old(self)@[k as int].id@ == id@);
                let ghost s = old(self)@;
                assert forall|i: int, j: int|
                    0 <= i < self@.len() && 0 <= j < self@.len() && #[trigger] self@[i].id@
                        == #[trigger] self@[j].id@ implies i == j by {
                    let a = if i < k { i } else { i + 1 };
                    let b = if j < k { j } else { j + 1 };
                    assert(s[a].id@ == s[b].id@);
                }
                assert forall|i: int, j: int|
                    0 <= i < self@.len() && 0 <= j < self@.len() && #[trigger] self@[i].is_admin
                        && #[trigger] self@[j].is_admin implies i == j by {
                    let a = if i < k { i } else { i + 1 };
                    let b = if j < k { j } else { j + 1 };
                    assert(s[a].is_admin && s[b].is_admin);
                }
            },
        }
    }

    /// All registered clients, in registration order.
    pub fn get_client_list(&self) -> (r: Vec<ClientInfo>)
        ensures
            r@ == self@,
    {
        copy_clients(&self.clients)
    }

    /// The record of the client with id `id`.
    pub fn get_client(&self, id: &str) -> (r: Option<ClientInfo>)
        ensures
            r is None <==> !has_id(self@, id@),
            r matches Some(c) ==> c.id@ == id@ && exists|i: int|
                0 <= i < self@.len() && #[trigger] self@[i] == c,
    {
        match self.find(id) {
            None => None,
            Some(k) => Some(self.clients[k].duplicate()),
        }
    }

    /// Whether a client with id `id` is registered.
    pub fn contains(&self, id: &str) -> (r: bool)
        ensures
            r == has_id(self@, id@),
    {
        self.find(id).is_some()
    }

    /// Whether the client with id `id` is registered and is the admin.
    pub fn is_admin(&self, id: &str) -> (r: bool)
        requires
            self.well_formed(),
        ensures
            r == exists|i: int|
                0 <= i < self@.len() && #[trigger] self@[i].id@ == id@ && self@[i].is_admin,
    {
        match self.find(id) {
            None => false,
            Some(k) => self.clients[k].is_admin,
        }
    }

    /// The id of the admin, found by a scan; there is at most one.
    pub fn get_admin_id(&self) -> (r: Option<String>)
        ensures
            r is None <==> !has_admin(self@),
            r matches Some(a) ==> exists|i: int|
                0 <= i < self@.len() && #[trigger] self@[i].is_admin && self@[i].id == a,
    {
        let mut i: usize = 0;
        while i < self.clients.len()
            invariant
                i <= self@.len(),
                forall|j: int| 0 <= j < i ==> !#[trigger] self@[j].is_admin,
            decreases self@.len() - i,
        {
            if self.clients[i].is_admin {
                return Some(self.clients[i].id.clone());
            }
            i = i + 1;
        }
        None
    }
}

} // verus!
