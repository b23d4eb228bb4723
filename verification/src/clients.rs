//! The signaling server's registry of connected clients.
use vstd::prelude::*;

use crate::protocol::ClientRef;

verus! {

/// Map from client id to optional label, kept in a `hashbrown::HashMap`
/// whose contents are described by `table_contents`.
#[verifier::external_body]
pub struct ClientTable {
    map: hashbrown::HashMap<u32, Option<String>>,
}

/// What a client table holds: for each registered id, its label if it has one.
pub uninterp spec fn table_contents(t: ClientTable) -> Map<u32, Option<Seq<char>>>;

/// The view of a stored label.
pub open spec fn label_view(l: Option<String>) -> Option<Seq<char>> {
    match l {
        Some(s) => Some(s@),
        None => None,
    }
}

/// `hashbrown::HashMap::new`: the new map is empty.
#[verifier::external_body]
fn table_new() -> (fresh: ClientTable)
    ensures
        table_contents(fresh) =~= Map::empty(),
{
    ClientTable { map: hashbrown::HashMap::new() }
}

/// `hashbrown::HashMap::insert`: afterwards `id` maps to `label`, every other
/// entry is unchanged.
#[verifier::external_body]
fn table_insert(t: &mut ClientTable, id: u32, label: Option<String>)
    ensures
        table_contents(*final(t)) == table_contents(*old(t)).insert(id, label_view(label)),
{
    t.map.insert(id, label);
}

/// `hashbrown::HashMap::remove`: afterwards `id` is absent, every other entry
/// is unchanged.
#[verifier::external_body]
fn table_remove(t: &mut ClientTable, id: u32)
    ensures
        table_contents(*final(t)) == table_contents(*old(t)).remove(id),
{
    t.map.remove(&id);
}

/// `hashbrown::HashMap::iter`, each entry copied out: every entry of the map
/// appears exactly once, in an order that the map does not fix.
#[verifier::external_body]
fn table_entries(t: &ClientTable) -> (r: Vec<(u32, Option<String>)>)
    ensures
        forall|i: int|
            0 <= i < r@.len() ==> {
                &&& #[trigger] table_contents(*t).contains_key(r@[i].0)
                &&& table_contents(*t)[r@[i].0] == label_view(r@[i].1)
            },
        forall|i: int, j: int| 0 <= i < j < r@.len() ==> r@[i].0 != r@[j].0,
        forall|k: u32|
            #[trigger] table_contents(*t).contains_key(k) ==> exists|i: int|
                0 <= i < r@.len() && r@[i].0 == k,
{
    t.map.iter().map(|(k, v)| (*k, v.clone())).collect()
}

/// The registry: the last id handed out and the table of registered clients.
pub struct Clients {
    counter: u32,
    clients: ClientTable,
}

/// `list` holds, each exactly once and in any order, the clients of `table`
/// other than `id` that have a label, each with that label.
pub open spec fn lists_other_clients(
    table: Map<u32, Option<Seq<char>>>,
    id: u32,
    list: Seq<ClientRef>,
) -> bool {
    &&& forall|i: int|
        0 <= i < list.len() ==> {
            &&& #[trigger] list[i].id != id
            &&& table.contains_key(list[i].id)
            &&& table[list[i].id] == Some(list[i].label@)
        }
    &&& forall|i: int, j: int| 0 <= i < j < list.len() ==> list[i].id != list[j].id
    &&& forall|k: u32|
        #[trigger] table.contains_key(k) && k != id && table[k] is Some ==> exists|i: int|
            0 <= i < list.len() && list[i].id == k
}

impl Clients {
    /// The last id handed out (0 before the first client).
    pub closed spec fn counter(&self) -> u32 {
        self.counter
    }

    /// Registered clients and their labels.
    pub closed spec fn table(&self) -> Map<u32, Option<Seq<char>>> {
        table_contents(self.clients)
    }

    /// An empty registry.
    pub fn new() -> (r: Clients)
        ensures
            r.counter() == 0,
            r.table() == Map::<u32, Option<Seq<char>>>::empty(),
    {
        Clients { counter: 0, clients: table_new() }
    }

    /// The last id handed out (0 before the first client).
    pub fn last_id(&self) -> (r: u32)
        ensures
            r == self.counter(),
    {
        self.counter
    }

    /// Registers a new client without a label and returns its id, one above
    /// the last id handed out.
    pub fn new_client(&mut self) -> (id: u32)
        requires
            old(self).counter() < u32::MAX,
        ensures
            id == old(self).counter() + 1,
            final(self).counter() == id,
            final(self).table() == old(self).table().insert(id, None),
    {
        self.counter = self.counter + 1;
        table_insert(&mut self.clients, self.counter, None);
        self.counter
    }

    /// Gives client `id` the label `label`.
    pub fn set_label(&mut self, id: u32, label: String)
        ensures
            final(self).counter() == old(self).counter(),
            final(self).table() == old(self).table().insert(id, Some(label@)),
    {
        table_insert(&mut self.clients, id, Some(label));
    }

    /// Forgets client `id`.
    pub fn drop_client(&mut self, id: u32)
        ensures
            final(self).counter() == old(self).counter(),
            final(self).table() == old(self).table().remove(id),
    {
        table_remove(&mut self.clients, id);
    }

    /// The labelled clients other than `id`, each once, in no fixed order.
    pub fn list_other_clients(&self, id: u32) -> (r: Vec<ClientRef>)
        ensures
            lists_other_clients(self.table(), id, r@),
    {
        let entries = table_entries(&self.clients);
        let ghost table = self.table();
        let mut r: Vec<ClientRef> = Vec::new();
        let mut i: usize = 0;
        while i < entries.len()
            invariant
                table == table_contents(self.clients),
                i <= entries@.len(),
                forall|j: int|
                    0 <= j < entries@.len() ==> {
                        &&& #[trigger] table.contains_key(entries@[j].0)
                        &&& table[entries@[j].0] == label_view(entries@[j].1)
                    },
                forall|a: int, b: int| 0 <= a < b < entries@.len() ==> entries@[a].0 != entries@[b].0,
                forall|j: int|
                    0 <= j < r@.len() ==> {
                        &&& #[trigger] r@[j].id != id
                        &&& table.contains_key(r@[j].id)
                        &&& table[r@[j].id] == Some(r@[j].label@)
                        &&& exists|e: int| 0 <= e < i && entries@[e].0 == r@[j].id
                    },
                forall|a: int, b: int| 0 <= a < b < r@.len() ==> r@[a].id != r@[b].id,
                forall|e: int|
                    #![trigger entries@[e]]
                    0 <= e < i && entries@[e].0 != id && entries@[e].1 is Some
                        ==> exists|j: int| 0 <= j < r@.len() && r@[j].id == entries@[e].0,
            decreases entries@.len() - i,
        {
            let cid = entries[i].0;
            let ghost old_r0 = r@;
            if cid != id {
                match &entries[i].1 {
                    Some(label) => {
                        let ghost old_r = r@;
                        r.push(ClientRef { id: cid, label: label.clone() });
                        assert forall|a: int, b: int| 0 <= a < b < r@.len() implies r@[a].id != r@[b].id by {
                            if b == r@.len() - 1 {
                                let e = choose|e: int| 0 <= e < i && entries@[e].0 == old_r[a].id;
                                assert(entries@[e].0 != entries@[i as int].0);
                            }
                        }
                        assert(r@[r@.len() - 1].id == entries@[i as int].0);
                    },
                    None => {},
                }
            }
            proof {
                assert forall|e: int|
                    #![trigger entries@[e]]
                    0 <= e < i + 1 && entries@[e].0 != id && entries@[e].1 is Some
                        implies exists|j: int| 0 <= j < r@.len() && r@[j].id == entries@[e].0 by {
                    if e < i {
                        let j = choose|j: int| 0 <= j < old_r0.len() && old_r0[j].id == entries@[e].0;
                        assert(r@[j] == old_r0[j]);
                    } else {
                        assert(r@[r@.len() - 1].id == entries@[e].0);
                    }
                }
            }
            i = i + 1;
        }
        proof {
            assert forall|k: u32|
                #[trigger] table.contains_key(k) && k != id && table[k] is Some implies exists|j: int|
                    0 <= j < r@.len() && r@[j].id == k by {
                let e = choose|e: int| 0 <= e < entries@.len() && entries@[e].0 == k;
                assert(table[entries@[e].0] == label_view(entries@[e].1));
                assert(entries@[e].0 != id && entries@[e].1 is Some);
            }
        }
        r
    }
}

/// Every registered id lies between 1 and the last id handed out.
pub open spec fn ids_handed_out(table: Map<u32, Option<Seq<char>>>, counter: u32) -> bool {
    forall|k: u32| #[trigger] table.contains_key(k) ==> 1 <= k <= counter
}

/// Ids are never handed out twice: when every registered id was handed out
/// already, registering a client gives an id that no registered client holds,
/// and the registry keeps that property; relabelling a registered client and
/// dropping a client keep it too.
pub proof fn lemma_fresh_ids(table: Map<u32, Option<Seq<char>>>, counter: u32, id: u32, label: Seq<char>)
    requires
        ids_handed_out(table, counter),
        counter < u32::MAX,
    ensures
        !table.contains_key((counter + 1) as u32),
        ids_handed_out(table.insert((counter + 1) as u32, None), (counter + 1) as u32),
        table.contains_key(id) ==> ids_handed_out(table.insert(id, Some(label)), counter),
        ids_handed_out(table.remove(id), counter),
{
}

/// Once a client has a label, every other client's listing shows it with
/// that label; a dropped client shows up in no listing.
pub proof fn lemma_listing_reflects_changes(
    table: Map<u32, Option<Seq<char>>>,
    id: u32,
    label: Seq<char>,
    viewer: u32,
    after_label: Seq<ClientRef>,
    after_drop: Seq<ClientRef>,
)
    requires
        viewer != id,
        lists_other_clients(table.insert(id, Some(label)), viewer, after_label),
        lists_other_clients(table.remove(id), viewer, after_drop),
    ensures
        exists|i: int| 0 <= i < after_label.len() && after_label[i].id == id && after_label[i].label@ == label,
        forall|i: int| 0 <= i < after_drop.len() ==> after_drop[i].id != id,
{
    let t = table.insert(id, Some(label));
    assert(t.contains_key(id) && t[id] is Some);
    let i = choose|i: int| 0 <= i < after_label.len() && after_label[i].id == id;
    assert(after_label[i].id != viewer);
    assert forall|i: int| 0 <= i < after_drop.len() implies after_drop[i].id != id by {
        assert(after_drop[i].id != viewer);
    }
}

/// What a listing is: it never names the client it is for, names only
/// registered clients with a label and shows that label, names each client at
/// most once, and leaves out no other labelled client.
pub proof fn lemma_listing_characterized(table: Map<u32, Option<Seq<char>>>, id: u32, list: Seq<ClientRef>)
    requires
        lists_other_clients(table, id, list),
    ensures
        forall|i: int| 0 <= i < list.len() ==> #[trigger] list[i].id != id,
        forall|i: int| 0 <= i < list.len() ==> table.contains_key(#[trigger] list[i].id),
        forall|i: int| 0 <= i < list.len() ==> table[#[trigger] list[i].id] == Some(list[i].label@),
        forall|i: int, j: int| 0 <= i < j < list.len() ==> list[i].id != list[j].id,
        forall|k: u32|
            table.contains_key(k) && k != id && #[trigger] table[k] is Some ==> exists|i: int|
                0 <= i < list.len() && list[i].id == k,
{
    assert forall|k: u32| table.contains_key(k) && k != id && #[trigger] table[k] is Some implies exists|i: int|
        0 <= i < list.len() && list[i].id == k by {
        assert(table.contains_key(k));
    }
}

impl Default for Clients {
    /// An empty registry.
    fn default() -> (r: Clients)
        ensures
            r.counter() == 0,
            r.table() == Map::<u32, Option<Seq<char>>>::empty(),
    {
        Clients::new()
    }
}

} // verus!
