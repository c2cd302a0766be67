//! The collection bridge over the native base library's data structures.
//!
//! The native side keeps its lists, inline lists and hash tables as raw
//! linked nodes that only its own functions may allocate and free.  This
//! module models each structure by the one thing the bindings are allowed to
//! observe — the sequence of element data — and gives the traversal and
//! mutation operations the contracts the native documentation states: a
//! mutating call returns a possibly different head handle, a traversal
//! visits each element once and then reports exhaustion, and is not
//! restartable.

use vstd::prelude::*;

verus! {

/// The native truth value: a single byte, `1` for true and `0` for false.
pub type EinaBool = u8;

pub const EINA_FALSE: EinaBool = 0u8;

pub const EINA_TRUE: EinaBool = 1u8;

/// A handle into a native list of `T`, standing for one node of the list —
/// the head right after construction — or for the null handle once a
/// traversal has run off the end.
///
/// The element data is the model of what the native nodes carry; the
/// position marks the node this handle denotes, with position == length
/// standing for null.
pub struct EinaList<T> {
    elems: Vec<T>,
    pos: usize,
}

/// The accounting record a native list carries beside its nodes: the count
/// of nodes and where the last one is.
pub struct EinaListAccounting {
    /// Position of the last node, if the list has any node.
    pub last: Option<usize>,
    /// Number of nodes in the whole list.
    pub count: usize,
}

impl<T> EinaList<T> {
    /// The elements of the whole list, in order.
    pub closed spec fn view(self) -> Seq<T> {
        self.elems@
    }

    /// The node this handle stands on; the length of the list means null.
    pub closed spec fn position(self) -> int {
        self.pos as int
    }

    /// A handle never points past the null node.
    pub open spec fn wf(self) -> bool {
        self.position() <= self@.len()
    }

    /// The handle is null: nothing left to visit.
    pub open spec fn spec_exhausted(self) -> bool {
        self.position() == self@.len()
    }

    /// A fresh, empty list: the native empty list is the null handle.
    pub fn new() -> (l: EinaList<T>)
        ensures
            l@ == Seq::<T>::empty(),
            l.position() == 0,
            l.wf(),
    {
        EinaList { elems: Vec::new(), pos: 0 }
    }

    /// One step of the traversal: the data of the node the handle stands
    /// on, advancing the handle — onto null after the last node.  Once
    /// exhausted, the handle answers `None` forever; a new traversal needs a
    /// new handle.
    pub fn next(&mut self) -> (r: Option<&T>)
        requires
            old(self).wf(),
        ensures
            final(self)@ == old(self)@,
            final(self).wf(),
            !old(self).spec_exhausted() ==> r is Some && *r->0 == old(self)@[old(self).position()]
                && final(self).position() == old(self).position() + 1,
            old(self).spec_exhausted() ==> r is None && final(self).position() == old(self).position(),
    {
        if self.pos < self.elems.len() {
            let r = &self.elems[self.pos];
            self.pos = self.pos + 1;
            Some(r)
        } else {
            None
        }
    }

    /// Whether the traversal has run off the end.
    pub fn exhausted(&self) -> (b: bool)
        requires
            self.wf(),
        ensures
            b == self.spec_exhausted(),
    {
        self.pos >= self.elems.len()
    }

    /// The native accounting of this handle's list: null reports no nodes.
    pub fn accounting(&self) -> (acc: EinaListAccounting)
        requires
            self.wf(),
        ensures
            self.spec_exhausted() ==> acc.count == 0 && acc.last is None,
            !self.spec_exhausted() ==> acc.count == self@.len()
                && acc.last == Some((self@.len() - 1) as usize),
    {
        if self.pos >= self.elems.len() {
            EinaListAccounting { last: None, count: 0 }
        } else {
            EinaListAccounting { last: Some(self.elems.len() - 1), count: self.elems.len() }
        }
    }
}

/// Append data to a list; `None` stands for the native null (empty) list.
/// The native call hands back the head of the grown list, which the caller
/// must use from here on.
pub fn list_append<T>(list: Option<EinaList<T>>, data: T) -> (r: EinaList<T>)
    requires
        list is Some ==> list->0.wf(),
    ensures
        r.wf(),
        match list {
            Option::None => r@ == seq![data] && r.position() == 0,
            Option::Some(l) => r@ == l@.push(data) && r.position() == l.position(),
        },
{
    match list {
        None => {
            let mut elems: Vec<T> = Vec::new();
            elems.push(data);
            proof {
                assert(elems@ =~= seq![data]);
            }
            EinaList { elems, pos: 0 }
        },
        Some(mut l) => {
            l.elems.push(data);
            l
        },
    }
}

/// Prepend data to a list; `None` stands for the native null (empty) list.
/// The native call hands back the new node as the new head.
pub fn list_prepend<T>(list: Option<EinaList<T>>, data: T) -> (r: EinaList<T>)
    requires
        list is Some ==> list->0.wf(),
    ensures
        r.wf(),
        r.position() == 0,
        match list {
            Option::None => r@ == seq![data],
            Option::Some(l) => r@ == seq![data] + l@,
        },
{
    match list {
        None => {
            let mut elems: Vec<T> = Vec::new();
            elems.push(data);
            proof {
                assert(elems@ =~= seq![data]);
            }
            EinaList { elems, pos: 0 }
        },
        Some(mut l) => {
            l.elems.insert(0, data);
            l.pos = 0;
            proof {
                assert(l.elems@ =~= seq![data] + l.elems@.subrange(1, l.elems@.len() as int));
            }
            EinaList { elems: l.elems, pos: 0 }
        },
    }
}

/// The data of the node the handle stands on; null yields nothing.
pub fn list_data_get<T>(list: &EinaList<T>) -> (r: Option<&T>)
    ensures
        !list.spec_exhausted() && list.wf() ==> r is Some && *r->0 == list@[list.position()],
        list.spec_exhausted() ==> r is None,
{
    if list.pos < list.elems.len() {
        Some(&list.elems[list.pos])
    } else {
        None
    }
}

/// Replace the data of the node the handle stands on, handing the old data
/// back; null accepts nothing and yields nothing.
pub fn list_data_set<T>(list: &mut EinaList<T>, new_data: T) -> (r: Option<T>)
    requires
        old(list).wf(),
    ensures
        final(list).wf(),
        final(list).position() == old(list).position(),
        !old(list).spec_exhausted() ==> final(list)@ == old(list)@.update(old(list).position(), new_data)
            && r == Some(old(list)@[old(list).position()]),
        old(list).spec_exhausted() ==> r is None && final(list)@ == old(list)@,
    {
    if list.pos < list.elems.len() {
        let old_data = list.elems.remove(list.pos);
        list.elems.insert(list.pos, new_data);
        proof {
            assert(list.elems@ =~= old(list)@.update(old(list).position(), new_data));
        }
        Some(old_data)
    } else {
        None
    }
}

/// Move the handle to the last node of its list, as the native accounting
/// allows in one step; a null handle stays null and reports failure.
pub fn list_last<T>(list: &mut EinaList<T>) -> (b: bool)
    requires
        old(list).wf(),
    ensures
        final(list).wf(),
        final(list)@ == old(list)@,
        b == !old(list).spec_exhausted(),
        b ==> final(list).position() == final(list)@.len() - 1,
        !b ==> final(list).position() == old(list).position(),
{
    if list.pos < list.elems.len() {
        list.pos = list.elems.len() - 1;
        true
    } else {
        false
    }
}

/// Move the handle to the structurally next node.  At the last node the
/// next pointer is null and the handle stays, reporting failure — this is
/// the node accessor, not the traversal step.
pub fn list_next<T>(list: &mut EinaList<T>) -> (b: bool)
    requires
        old(list).wf(),
    ensures
        final(list).wf(),
        final(list)@ == old(list)@,
        b == (old(list).position() + 1 < old(list)@.len()),
        b ==> final(list).position() == old(list).position() + 1,
        !b ==> final(list).position() == old(list).position(),
{
    if list.pos < list.elems.len() && list.pos + 1 < list.elems.len() {
        list.pos = list.pos + 1;
        true
    } else {
        false
    }
}

/// Move the handle to the structurally previous node; the head and the null
/// handle have none and stay, reporting failure.
pub fn list_prev<T>(list: &mut EinaList<T>) -> (b: bool)
    requires
        old(list).wf(),
    ensures
        final(list).wf(),
        final(list)@ == old(list)@,
        b == (0 < old(list).position() && !old(list).spec_exhausted()),
        b ==> final(list).position() == old(list).position() - 1,
        !b ==> final(list).position() == old(list).position(),
{
    if list.pos > 0 && list.pos < list.elems.len() {
        list.pos = list.pos - 1;
        true
    } else {
        false
    }
}

/// The native count of the handle's list: every node counts, from whichever
/// node the handle stands on; the null handle counts zero.
pub fn list_count<T>(list: &EinaList<T>) -> (n: usize)
    requires
        list.wf(),
    ensures
        list.spec_exhausted() ==> n == 0,
        !list.spec_exhausted() ==> n == list@.len(),
{
    if list.pos >= list.elems.len() {
        0
    } else {
        list.elems.len()
    }
}

/// The data of the last node of the handle's list; the null handle has
/// none.
pub fn list_last_data_get<T>(list: &EinaList<T>) -> (r: Option<&T>)
    requires
        list.wf(),
    ensures
        list.spec_exhausted() ==> r is None,
        !list.spec_exhausted() ==> r is Some && *r->0 == list@.last(),
{
    if list.pos < list.elems.len() {
        Some(&list.elems[list.elems.len() - 1])
    } else {
        None
    }
}

/// Free the whole list, ignoring the data contained; what comes back is the
/// null handle, as the native free returns.
pub fn list_free<T>(list: EinaList<T>) -> (r: EinaList<T>)
    ensures
        r@ == Seq::<T>::empty(),
        r.spec_exhausted(),
{
    let _ = list;
    EinaList { elems: Vec::new(), pos: 0 }
}

/// Run a traversal to its end: starting anywhere, it visits exactly the
/// elements from the handle's node on — all `count` of them from the head —
/// and leaves the handle exhausted.
pub fn list_walk<T>(list: &mut EinaList<T>) -> (visited: usize)
    requires
        old(list).wf(),
    ensures
        final(list)@ == old(list)@,
        final(list).spec_exhausted(),
        visited as int == old(list)@.len() - old(list).position(),
        old(list).position() == 0 ==> visited == old(list)@.len(),
{
    let mut visited: usize = 0;
    loop
        invariant_except_break
            list.wf(),
            list@ == old(list)@,
            old(list).position() <= list.position() <= list@.len(),
            visited as int == list.position() - old(list).position(),
        ensures
            list@ == old(list)@,
            list.spec_exhausted(),
            visited as int == list@.len() - old(list).position(),
        decreases list@.len() - list.position(),
    {
        match list.next() {
            Some(_) => {
                visited = visited + 1;
            },
            None => {
                break;
            },
        }
    }
    visited
}

/// A handle to a native inline list: nodes are embedded in the caller's own
/// structures, so an element is known here by its node address alone.  The
/// native side links each node into at most one place, which is the
/// well-formedness carried through every operation.
pub struct EinaInlist {
    nodes: Vec<usize>,
}

impl EinaInlist {
    /// The node addresses of the list, in order.
    pub closed spec fn view(self) -> Seq<usize> {
        self.nodes@
    }

    /// Every node is linked in at most once, and null is no node.
    pub open spec fn wf(self) -> bool {
        self@.no_duplicates() && !self@.contains(0)
    }

    /// A fresh, empty inline list: the native empty list is the null handle.
    pub fn new() -> (l: EinaInlist)
        ensures
            l@ == Seq::<usize>::empty(),
            l.wf(),
    {
        EinaInlist { nodes: Vec::new() }
    }

    /// The node addresses, for handing each to a native accessor in turn.
    pub fn nodes(&self) -> (r: &Vec<usize>)
        ensures
            r@ == self@,
    {
        &self.nodes
    }
}

/// Removing a node keeps the remaining nodes distinct.
proof fn lemma_remove_no_duplicates(s: Seq<usize>, i: int)
    requires
        s.no_duplicates(),
        0 <= i < s.len(),
    ensures
        s.remove(i).no_duplicates(),
{
    let t = s.remove(i);
    assert forall|p: int, q: int| 0 <= p < t.len() && 0 <= q < t.len() && p != q implies t[p]
        != t[q] by {
        assert(t[p] == if p < i {
            s[p]
        } else {
            s[p + 1]
        });
        assert(t[q] == if q < i {
            s[q]
        } else {
            s[q + 1]
        });
    }
}

/// Removing a node removes its address for good when addresses are
/// distinct.
proof fn lemma_remove_not_contains(s: Seq<usize>, i: int)
    requires
        s.no_duplicates(),
        0 <= i < s.len(),
    ensures
        !s.remove(i).contains(s[i]),
{
    let t = s.remove(i);
    assert forall|p: int| 0 <= p < t.len() implies t[p] != s[i] by {
        assert(t[p] == if p < i {
            s[p]
        } else {
            s[p + 1]
        });
    }
}

/// Find a node in the list; the first match is reported, everything before
/// it differs.
fn inlist_find(nodes: &Vec<usize>, in_item: usize) -> (r: Option<usize>)
    ensures
        r is Some ==> 0 <= r->0 < nodes@.len() && nodes@[r->0 as int] == in_item,
        r is None ==> !nodes@.contains(in_item),
{
    let mut i: usize = 0;
    let n = nodes.len();
    while i < n
        invariant
            i <= n,
            n == nodes@.len(),
            forall|j: int| 0 <= j < i ==> nodes@[j] != in_item,
        decreases n - i,
    {
        if nodes[i] == in_item {
            return Some(i);
        }
        i = i + 1;
    }
    None
}

/// Add a node to the end of an inline list; `None` stands for the native
/// null (empty) list.  The node must not be linked anywhere yet.
pub fn inlist_append(in_list: Option<EinaInlist>, in_item: usize) -> (r: EinaInlist)
    requires
        in_item != 0,
        in_list is Some ==> in_list->0.wf() && !in_list->0@.contains(in_item),
    ensures
        r.wf(),
        match in_list {
            Option::None => r@ == seq![in_item],
            Option::Some(l) => r@ == l@.push(in_item),
        },
{
    match in_list {
        None => {
            let mut nodes: Vec<usize> = Vec::new();
            nodes.push(in_item);
            proof {
                assert(nodes@ =~= seq![in_item]);
            }
            EinaInlist { nodes }
        },
        Some(mut l) => {
            l.nodes.push(in_item);
            l
        },
    }
}

/// Add a node to the beginning of an inline list; `None` stands for the
/// native null (empty) list.  The node must not be linked anywhere yet.
pub fn inlist_prepend(in_list: Option<EinaInlist>, in_item: usize) -> (r: EinaInlist)
    requires
        in_item != 0,
        in_list is Some ==> in_list->0.wf() && !in_list->0@.contains(in_item),
    ensures
        r.wf(),
        match in_list {
            Option::None => r@ == seq![in_item],
            Option::Some(l) => r@ == seq![in_item] + l@,
        },
{
    match in_list {
        None => {
            let mut nodes: Vec<usize> = Vec::new();
            nodes.push(in_item);
            proof {
                assert(nodes@ =~= seq![in_item]);
            }
            EinaInlist { nodes }
        },
        Some(mut l) => {
            l.nodes.insert(0, in_item);
            proof {
                assert(l.nodes@ =~= seq![in_item] + l.nodes@.subrange(1, l.nodes@.len() as int));
            }
            l
        },
    }
}

/// Move a linked node to the beginning of its list.
pub fn inlist_promote(in_list: EinaInlist, in_item: usize) -> (r: EinaInlist)
    requires
        in_list.wf(),
        in_list@.contains(in_item),
    ensures
        r.wf(),
        r@ == seq![in_item] + in_list@.remove(in_list@.index_of(in_item)),
{
    let mut l = in_list;
    let found = inlist_find(&l.nodes, in_item);
    proof {
        lemma_index_of_agrees(in_list@, in_item, found->0 as int);
    }
    match found {
        Some(i) => {
            let node = l.nodes.remove(i);
            proof {
                lemma_remove_no_duplicates(in_list@, i as int);
                lemma_remove_not_contains(in_list@, i as int);
            }
            l.nodes.insert(0, node);
            proof {
                assert(l.nodes@ =~= seq![in_item] + in_list@.remove(i as int));
            }
            l
        },
        None => unreached(),
    }
}

/// Move a linked node to the end of its list.
pub fn inlist_demote(in_list: EinaInlist, in_item: usize) -> (r: EinaInlist)
    requires
        in_list.wf(),
        in_list@.contains(in_item),
    ensures
        r.wf(),
        r@ == in_list@.remove(in_list@.index_of(in_item)).push(in_item),
{
    let mut l = in_list;
    let found = inlist_find(&l.nodes, in_item);
    proof {
        lemma_index_of_agrees(in_list@, in_item, found->0 as int);
    }
    match found {
        Some(i) => {
            let node = l.nodes.remove(i);
            proof {
                lemma_remove_no_duplicates(in_list@, i as int);
                lemma_remove_not_contains(in_list@, i as int);
            }
            l.nodes.push(node);
            l
        },
        None => unreached(),
    }
}

/// Unlink a node from its list.
pub fn inlist_remove(in_list: EinaInlist, in_item: usize) -> (r: EinaInlist)
    requires
        in_list.wf(),
        in_list@.contains(in_item),
    ensures
        r.wf(),
        r@ == in_list@.remove(in_list@.index_of(in_item)),
{
    let mut l = in_list;
    let found = inlist_find(&l.nodes, in_item);
    proof {
        lemma_index_of_agrees(in_list@, in_item, found->0 as int);
    }
    match found {
        Some(i) => {
            let _ = l.nodes.remove(i);
            proof {
                lemma_remove_no_duplicates(in_list@, i as int);
            }
            l
        },
        None => unreached(),
    }
}

/// In a list without duplicates, any index holding the item is the one
/// `index_of` denotes.
proof fn lemma_index_of_agrees(s: Seq<usize>, item: usize, i: int)
    requires
        s.no_duplicates(),
        0 <= i < s.len(),
        s[i] == item,
    ensures
        s.index_of(item) == i,
{
    assert(s.contains(item));
    let j = s.index_of(item);
    assert(0 <= j < s.len() && s[j] == item);
}

/// A node of the red-black trees the native base library builds its hash
/// buckets from: two children and a colour, all native-owned.
pub struct EinaRbtree {
    /// The two child nodes, by address; null for none.
    pub son: [usize; 2],
    /// The node's colour, as the native library encodes it.
    pub color: u32,
}

/// A string-keyed hash table bridged from the native side: the model is the
/// sequence of entries in insertion order, with keys distinct.
pub struct EinaHash<T> {
    entries: Vec<(String, T)>,
}

impl<T> EinaHash<T> {
    /// The entries, in insertion order.
    pub closed spec fn view(self) -> Seq<(String, T)> {
        self.entries@
    }

    /// Keys are distinct.
    pub open spec fn wf(self) -> bool {
        forall|i: int, j: int|
            0 <= i < j < self@.len() ==> (#[trigger] self@[i]).0@ != (#[trigger] self@[j]).0@
    }

    /// Whether some entry carries the given key.
    pub open spec fn spec_has_key(self, key: Seq<char>) -> bool {
        exists|i: int| 0 <= i < self@.len() && (#[trigger] self@[i]).0@ == key
    }
}

/// A new, empty hash table whose keys are shared strings.
pub fn hash_stringshared_new<T>() -> (h: EinaHash<T>)
    ensures
        h@ == Seq::<(String, T)>::empty(),
        h.wf(),
{
    EinaHash { entries: Vec::new() }
}

/// A new, empty hash table for plain string keys.
pub fn hash_string_superfast_new<T>() -> (h: EinaHash<T>)
    ensures
        h@ == Seq::<(String, T)>::empty(),
        h.wf(),
{
    EinaHash { entries: Vec::new() }
}

/// Find the entry with the given key, if any.
fn hash_find_index<T>(hash: &EinaHash<T>, key: &String) -> (r: Option<usize>)
    ensures
        r is Some ==> 0 <= r->0 < hash@.len() && hash@[r->0 as int].0@ == key@,
        r is None ==> !hash.spec_has_key(key@),
{
    let mut i: usize = 0;
    let n = hash.entries.len();
    while i < n
        invariant
            i <= n,
            n == hash@.len(),
            forall|j: int| 0 <= j < i ==> (#[trigger] hash@[j]).0@ != key@,
        decreases n - i,
    {
        if hash.entries[i].0 == *key {
            return Some(i);
        }
        i = i + 1;
    }
    None
}

/// Add an entry to the hash table.  The native call refuses a key that is
/// already present and reports success as a truth value.
pub fn hash_add<T>(hash: &mut EinaHash<T>, key: String, data: T) -> (b: bool)
    requires
        old(hash).wf(),
    ensures
        final(hash).wf(),
        b == !old(hash).spec_has_key(key@),
        b ==> final(hash)@ == old(hash)@.push((key, data)),
        !b ==> final(hash)@ == old(hash)@,
{
    match hash_find_index(hash, &key) {
        Some(_) => false,
        None => {
            hash.entries.push((key, data));
            proof {
                let pushed = hash@;
                assert forall|i: int, j: int| 0 <= i < j < pushed.len() implies (
                #[trigger] pushed[i]).0@ != (#[trigger] pushed[j]).0@ by {
                    assert(pushed[i] == old(hash)@[i]);
                    if j == pushed.len() - 1 {
                        assert(pushed[j] == (key, data));
                        assert(old(hash)@[i].0@ != key@);
                    } else {
                        assert(pushed[j] == old(hash)@[j]);
                    }
                }
            }
            true
        },
    }
}

/// Look an entry up by key; a missing key is reported as an absent value,
/// never as a null to dereference.
pub fn hash_find<'a, T>(hash: &'a EinaHash<T>, key: &String) -> (r: Option<&'a T>)
    ensures
        r is Some <==> hash.spec_has_key(key@),
        r is Some ==> exists|i: int|
            0 <= i < hash@.len() && (#[trigger] hash@[i]).0@ == key@ && *r->0 == hash@[i].1,
{
    match hash_find_index(hash, key) {
        Some(i) => Some(&hash.entries[i].1),
        None => None,
    }
}

/// The number of entries in the table.
pub fn hash_population<T>(hash: &EinaHash<T>) -> (n: usize)
    ensures
        n == hash@.len(),
{
    hash.entries.len()
}

/// Free the table; the entries' own data is dropped with it.
pub fn hash_free<T>(hash: EinaHash<T>) {
    let _ = hash;
}

} // verus!
