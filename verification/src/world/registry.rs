//! Stable-ID registry for game objects.
//!
//! When the game clones an object (for example while installing it in a
//! rack) it gets a new handle, which would break multiplayer sync. The
//! registry keeps a stable string identifier for every tracked object, with a
//! forward table (identifier to entry) and a reverse table (handle to
//! identifier).

use vstd::prelude::*;

use super::ObjectHandle;
use crate::assoc::{assoc_map, has_key, keys_distinct, lemma_assoc_empty, lemma_assoc_len, lemma_assoc_lookup, lemma_assoc_push, lemma_assoc_remove, lemma_assoc_update};
use crate::text::{is_digit, lemma_zero_padded_digits, lemma_zero_padded_value, push_zero_padded, zero_padded};

verus! {

/// One tracked object: its current handle and its object type code.
#[derive(Debug, Clone, Copy, PartialEq, Eq, Structural)]
pub struct RegistryEntry {
    pub handle: ObjectHandle,
    pub object_type: u8,
}

/// Maps stable string identifiers to objects and handles back to identifiers.
#[derive(Debug)]
pub struct ObjectIdRegistry {
    by_id: Vec<(String, RegistryEntry)>,
    by_handle: Vec<(ObjectHandle, String)>,
    next_generated: u32,
}

/// The forward table's pairs, keys taken by their text.
pub open spec fn id_pairs(s: Seq<(String, RegistryEntry)>) -> Seq<(Seq<char>, RegistryEntry)> {
    s.map_values(|p: (String, RegistryEntry)| (p.0@, p.1))
}

/// The reverse table's pairs, values taken by their text.
pub open spec fn handle_pairs(s: Seq<(ObjectHandle, String)>) -> Seq<(ObjectHandle, Seq<char>)> {
    s.map_values(|p: (ObjectHandle, String)| (p.0, p.1@))
}

/// The forward and reverse tables after `register(id, handle, object_type)`:
/// the handle's previous identifier (if another) is dropped, the identifier's
/// previous handle is unlinked, and both directions are set.
pub open spec fn register_tables(
    ids: Map<Seq<char>, RegistryEntry>,
    handles: Map<ObjectHandle, Seq<char>>,
    id: Seq<char>,
    handle: ObjectHandle,
    object_type: u8,
) -> (Map<Seq<char>, RegistryEntry>, Map<ObjectHandle, Seq<char>>) {
    let (ids1, handles1) = if handles.contains_key(handle) {
        let old_id = handles[handle];
        (if old_id != id { ids.remove(old_id) } else { ids }, handles.remove(handle))
    } else {
        (ids, handles)
    };
    let handles2 = if ids1.contains_key(id) {
        handles1.remove(ids1[id].handle)
    } else {
        handles1
    };
    (
        ids1.insert(id, RegistryEntry { handle, object_type }),
        handles2.insert(handle, id),
    )
}

/// A generated identifier: the prefix, `"__g"`, and the counter padded to four digits.
pub open spec fn generated_id(prefix: Seq<char>, n: nat) -> Seq<char> {
    prefix + seq!['_', '_', 'g'] + zero_padded(n, 4)
}

/// The registry tables, generator counter and identifiers handed out after
/// registering `objs` (handle and in-game identifier) in order: an object
/// with an empty identifier gets a generated one, which is also returned
/// for writing back to the game.
pub open spec fn populate_tables(
    ids: Map<Seq<char>, RegistryEntry>,
    handles: Map<ObjectHandle, Seq<char>>,
    next: nat,
    objs: Seq<(ObjectHandle, Seq<char>)>,
    object_type: u8,
    prefix: Seq<char>,
) -> (Map<Seq<char>, RegistryEntry>, Map<ObjectHandle, Seq<char>>, nat, Seq<(ObjectHandle, Seq<char>)>)
    decreases objs.len(),
{
    if objs.len() == 0 {
        (ids, handles, next, Seq::empty())
    } else {
        let (ids0, handles0, next0, assigned0) = populate_tables(
            ids,
            handles,
            next,
            objs.drop_last(),
            object_type,
            prefix,
        );
        let (h, game_id) = objs.last();
        let stable = if game_id.len() == 0 { generated_id(prefix, next0) } else { game_id };
        let (ids1, handles1) = register_tables(ids0, handles0, stable, h, object_type);
        if game_id.len() == 0 {
            (ids1, handles1, next0 + 1, assigned0.push((h, stable)))
        } else {
            (ids1, handles1, next0, assigned0)
        }
    }
}

/// How many of `objs` have an empty identifier.
pub open spec fn count_unnamed(objs: Seq<(ObjectHandle, Seq<char>)>) -> nat
    decreases objs.len(),
{
    if objs.len() == 0 {
        0
    } else {
        count_unnamed(objs.drop_last()) + if objs.last().1.len() == 0 { 1nat } else { 0nat }
    }
}

proof fn lemma_count_unnamed_prefix(objs: Seq<(ObjectHandle, Seq<char>)>, i: int)
    requires
        0 <= i <= objs.len(),
    ensures
        count_unnamed(objs.take(i)) <= count_unnamed(objs),
    decreases objs.len() - i,
{
    if i < objs.len() {
        lemma_count_unnamed_prefix(objs, i + 1);
        assert(objs.take(i + 1).drop_last() =~= objs.take(i));
    } else {
        assert(objs.take(i) =~= objs);
    }
}

proof fn lemma_populate_next(
    ids: Map<Seq<char>, RegistryEntry>,
    handles: Map<ObjectHandle, Seq<char>>,
    next: nat,
    objs: Seq<(ObjectHandle, Seq<char>)>,
    object_type: u8,
    prefix: Seq<char>,
)
    ensures
        populate_tables(ids, handles, next, objs, object_type, prefix).2 == next + count_unnamed(objs),
    decreases objs.len(),
{
    if objs.len() > 0 {
        lemma_populate_next(ids, handles, next, objs.drop_last(), object_type, prefix);
    }
}

/// The two tables describe the same links: every handle names an
/// identifier whose entry holds that handle, and every identifier's handle
/// names that identifier back.
pub open spec fn tables_consistent(
    ids: Map<Seq<char>, RegistryEntry>,
    handles: Map<ObjectHandle, Seq<char>>,
) -> bool {
    &&& forall|h: ObjectHandle| #[trigger]
        handles.contains_key(h) ==> ids.contains_key(handles[h]) && ids[handles[h]].handle == h
    &&& forall|id: Seq<char>| #[trigger]
        ids.contains_key(id) ==> handles.contains_key(ids[id].handle) && handles[ids[id].handle] == id
}

/// Tables that describe the same links have as many identifiers as handles.
pub proof fn lemma_consistent_tables_same_size(
    ids: Map<Seq<char>, RegistryEntry>,
    handles: Map<ObjectHandle, Seq<char>>,
)
    requires
        tables_consistent(ids, handles),
        ids.dom().finite(),
    ensures
        handles.dom().finite(),
        ids.len() == handles.len(),
{
    let f = |id: Seq<char>| ids[id].handle;
    assert(vstd::relations::injective_on(f, ids.dom())) by {
        assert forall|a: Seq<char>, b: Seq<char>|
            ids.dom().contains(a) && ids.dom().contains(b) && #[trigger] f(a) == #[trigger] f(b) implies a == b by {
            assert(handles[ids[a].handle] == a);
            assert(handles[ids[b].handle] == b);
        }
    }
    assert(ids.dom().map(f) =~= handles.dom()) by {
        assert forall|h: ObjectHandle| handles.dom().contains(h) implies ids.dom().map(f).contains(h) by {
            let id = handles[h];
            assert(ids.dom().contains(id) && f(id) == h);
        }
        assert forall|h: ObjectHandle| ids.dom().map(f).contains(h) implies handles.dom().contains(h) by {
            let id = choose|id: Seq<char>| ids.dom().contains(id) && f(id) == h;
            assert(handles.contains_key(ids[id].handle));
        }
    }
    vstd::set_lib::lemma_map_size(ids.dom(), handles.dom(), f);
}

/// Registering keeps the two tables describing the same links, whatever was
/// registered before under the identifier or the handle.
pub proof fn lemma_register_keeps_tables_consistent(
    ids: Map<Seq<char>, RegistryEntry>,
    handles: Map<ObjectHandle, Seq<char>>,
    id: Seq<char>,
    handle: ObjectHandle,
    object_type: u8,
)
    requires
        tables_consistent(ids, handles),
    ensures
        tables_consistent(
            register_tables(ids, handles, id, handle, object_type).0,
            register_tables(ids, handles, id, handle, object_type).1,
        ),
{
    let (ids1, handles1) = if handles.contains_key(handle) {
        let old_id = handles[handle];
        (if old_id != id { ids.remove(old_id) } else { ids }, handles.remove(handle))
    } else {
        (ids, handles)
    };
    let handles2 = if ids1.contains_key(id) {
        handles1.remove(ids1[id].handle)
    } else {
        handles1
    };
    let fi = ids1.insert(id, RegistryEntry { handle, object_type });
    let fh = handles2.insert(handle, id);
    assert(register_tables(ids, handles, id, handle, object_type) == (fi, fh));
    assert forall|k: ObjectHandle| #[trigger] fh.contains_key(k) implies fi.contains_key(fh[k])
        && fi[fh[k]].handle == k by {
        if k != handle {
            let idk = handles[k];
            assert(ids.contains_key(idk) && ids[idk].handle == k);
            if idk == id {
                assert(ids1.contains_key(id));
            }
            if handles.contains_key(handle) {
                assert(ids[handles[handle]].handle == handle);
            }
        }
    }
    assert forall|i: Seq<char>| #[trigger] fi.contains_key(i) implies fh.contains_key(fi[i].handle)
        && fh[fi[i].handle] == i by {
        if i != id {
            let k = ids[i].handle;
            assert(handles.contains_key(k) && handles[k] == i);
            if ids1.contains_key(id) {
                assert(handles[ids[id].handle] == id);
            }
        }
    }
}

/// Removing an identifier keeps the tables describing the same links.
pub proof fn lemma_remove_keeps_tables_consistent(
    ids: Map<Seq<char>, RegistryEntry>,
    handles: Map<ObjectHandle, Seq<char>>,
    id: Seq<char>,
)
    requires
        tables_consistent(ids, handles),
        ids.contains_key(id),
    ensures
        tables_consistent(ids.remove(id), handles.remove(ids[id].handle)),
{
    let fi = ids.remove(id);
    let fh = handles.remove(ids[id].handle);
    assert forall|k: ObjectHandle| #[trigger] fh.contains_key(k) implies fi.contains_key(fh[k])
        && fi[fh[k]].handle == k by {
        assert(ids[handles[k]].handle == k);
    }
    assert forall|i: Seq<char>| #[trigger] fi.contains_key(i) implies fh.contains_key(fi[i].handle)
        && fh[fi[i].handle] == i by {
        assert(handles[ids[i].handle] == i);
    }
}

/// Moving an identifier to a new handle keeps the tables describing the same
/// links, provided the new handle is free or already the identifier's own.
/// (Moving it onto a handle another identifier holds leaves that other
/// identifier's entry pointing at a handle that no longer names it.)
pub proof fn lemma_update_handle_keeps_tables_consistent(
    ids: Map<Seq<char>, RegistryEntry>,
    handles: Map<ObjectHandle, Seq<char>>,
    id: Seq<char>,
    new_handle: ObjectHandle,
)
    requires
        tables_consistent(ids, handles),
        ids.contains_key(id),
        handles.contains_key(new_handle) ==> handles[new_handle] == id,
    ensures
        tables_consistent(
            ids.insert(id, RegistryEntry { handle: new_handle, ..ids[id] }),
            handles.remove(ids[id].handle).insert(new_handle, id),
        ),
{
    let fi = ids.insert(id, RegistryEntry { handle: new_handle, ..ids[id] });
    let fh = handles.remove(ids[id].handle).insert(new_handle, id);
    assert forall|k: ObjectHandle| #[trigger] fh.contains_key(k) implies fi.contains_key(fh[k])
        && fi[fh[k]].handle == k by {
        if k != new_handle {
            assert(ids[handles[k]].handle == k);
        }
    }
    assert forall|i: Seq<char>| #[trigger] fi.contains_key(i) implies fh.contains_key(fi[i].handle)
        && fh[fi[i].handle] == i by {
        if i != id {
            assert(handles[ids[i].handle] == i);
        }
    }
}

/// Registering the objects found in the game keeps the tables describing
/// the same links.
pub proof fn lemma_populate_keeps_tables_consistent(
    ids: Map<Seq<char>, RegistryEntry>,
    handles: Map<ObjectHandle, Seq<char>>,
    next: nat,
    objs: Seq<(ObjectHandle, Seq<char>)>,
    object_type: u8,
    prefix: Seq<char>,
)
    requires
        tables_consistent(ids, handles),
    ensures
        tables_consistent(
            populate_tables(ids, handles, next, objs, object_type, prefix).0,
            populate_tables(ids, handles, next, objs, object_type, prefix).1,
        ),
    decreases objs.len(),
{
    if objs.len() > 0 {
        lemma_populate_keeps_tables_consistent(ids, handles, next, objs.drop_last(), object_type, prefix);
        let r0 = populate_tables(ids, handles, next, objs.drop_last(), object_type, prefix);
        let (h, game_id) = objs.last();
        let stable = if game_id.len() == 0 { generated_id(prefix, r0.2) } else { game_id };
        lemma_register_keeps_tables_consistent(r0.0, r0.1, stable, h, object_type);
    }
}

/// A registry whose tables describe the same links tracks as many objects
/// (`len()`) as there are handles that name an identifier; a fresh registry's
/// tables do, and `register`, `remove` and `populate_objects` keep it so
/// (see the `lemma_*_keeps_tables_consistent` laws).
pub proof fn lemma_len_counts_handles(r: ObjectIdRegistry)
    requires
        r.wf(),
        tables_consistent(r.ids(), r.handles()),
    ensures
        r.ids().len() == r.handles().len(),
{
    r.lemma_tables_finite();
    lemma_consistent_tables_same_size(r.ids(), r.handles());
}

/// A fresh registry's tables describe the same (no) links.
pub proof fn lemma_empty_tables_consistent()
    ensures
        tables_consistent(Map::<Seq<char>, RegistryEntry>::empty(), Map::<ObjectHandle, Seq<char>>::empty()),
{
}

/// Identifiers generated under different counters differ, whatever their
/// prefixes: the counter's digits follow the last `"__g"`, so the counter is
/// read back from the identifier. As a registry's counter goes up by one on
/// each `generate_id` (and no other operation changes it), a registry never
/// hands out the same generated identifier twice.
pub proof fn lemma_generated_ids_distinct(prefix1: Seq<char>, n: nat, prefix2: Seq<char>, m: nat)
    requires
        n != m,
    ensures
        generated_id(prefix1, n) != generated_id(prefix2, m),
{
    let a = generated_id(prefix1, n);
    let b = generated_id(prefix2, m);
    let d1 = zero_padded(n, 4);
    let d2 = zero_padded(m, 4);
    if a == b {
        lemma_zero_padded_digits(n, 4);
        lemma_zero_padded_digits(m, 4);
        let len = a.len() as int;
        assert(a == prefix1 + seq!['_', '_', 'g'] + d1);
        assert(b == prefix2 + seq!['_', '_', 'g'] + d2);
        if d1.len() == d2.len() {
            assert(a.subrange(len - d1.len(), len) =~= d1);
            assert(b.subrange(len - d2.len(), len) =~= d2);
            lemma_zero_padded_value(n, 4);
            lemma_zero_padded_value(m, 4);
        } else if d1.len() < d2.len() {
            let q = len - d1.len() - 1;
            assert(a[q] == 'g');
            assert(b[q] == d2[q - (len - d2.len())]);
            assert(is_digit(d2[q - (len - d2.len())]));
        } else {
            let q = len - d2.len() - 1;
            assert(b[q] == 'g');
            assert(a[q] == d1[q - (len - d1.len())]);
            assert(is_digit(d1[q - (len - d1.len())]));
        }
    }
}

/// How many of `steps` are `true`.
pub open spec fn count_true(steps: Seq<bool>) -> nat
    decreases steps.len(),
{
    if steps.len() == 0 {
        0
    } else {
        count_true(steps.drop_last()) + if steps.last() {
            1nat
        } else {
            0nat
        }
    }
}

/// One step of a registry's life, as the operations' contracts state it:
/// when `generated`, a `generate_id` call that hands out `id` under `prefix`
/// and advances the counter; otherwise an operation that keeps the counter
/// (`register`, `update_handle`, `remove`, `clear`).
pub open spec fn counter_step(
    before: ObjectIdRegistry,
    after: ObjectIdRegistry,
    generated: bool,
    prefix: Seq<char>,
    id: Seq<char>,
) -> bool {
    if generated {
        &&& id == generated_id(prefix, before.next_generated() as nat)
        &&& after.next_generated() == before.next_generated() + 1
    } else {
        after.next_generated() == before.next_generated()
    }
}

proof fn lemma_count_true_grows(s: Seq<bool>, i: int, j: int)
    requires
        0 <= i < j <= s.len(),
        s[i],
    ensures
        count_true(s.take(i)) < count_true(s.take(j)),
    decreases j - i,
{
    assert(s.take(j).drop_last() =~= s.take(j - 1));
    if j - 1 > i {
        lemma_count_true_grows(s, i, j - 1);
    }
}

proof fn lemma_counter_at(
    states: Seq<ObjectIdRegistry>,
    generated: Seq<bool>,
    prefixes: Seq<Seq<char>>,
    ids: Seq<Seq<char>>,
    j: int,
)
    requires
        states.len() == generated.len() + 1,
        prefixes.len() == generated.len(),
        ids.len() == generated.len(),
        states[0].next_generated() == 1,
        forall|k: int|
            #![trigger generated[k]]
            0 <= k < generated.len() ==> counter_step(states[k], states[k + 1], generated[k], prefixes[k], ids[k]),
        0 <= j <= generated.len(),
    ensures
        states[j].next_generated() == count_true(generated.take(j)) + 1,
    decreases j,
{
    if j > 0 {
        lemma_counter_at(states, generated, prefixes, ids, j - 1);
        assert(generated.take(j).drop_last() =~= generated.take(j - 1));
        assert(counter_step(states[j - 1], states[j], generated[j - 1], prefixes[j - 1], ids[j - 1]));
    } else {
        assert(generated.take(0) =~= Seq::<bool>::empty());
    }
}

/// Numbering: over a registry's life from `new()` (counter 1), the `k`-th
/// `generate_id` call hands out `"{prefix}__g{k:04}"` whatever operations
/// that keep the counter come in between, so no two generated identifiers
/// are equal, and the counter ends one past the number of calls.
pub proof fn lemma_generated_numbering(
    states: Seq<ObjectIdRegistry>,
    generated: Seq<bool>,
    prefixes: Seq<Seq<char>>,
    ids: Seq<Seq<char>>,
)
    requires
        states.len() == generated.len() + 1,
        prefixes.len() == generated.len(),
        ids.len() == generated.len(),
        states[0].next_generated() == 1,
        forall|k: int|
            #![trigger generated[k]]
            0 <= k < generated.len() ==> counter_step(states[k], states[k + 1], generated[k], prefixes[k], ids[k]),
    ensures
        forall|j: int|
            0 <= j < generated.len() && generated[j] ==> #[trigger] ids[j] == generated_id(
                prefixes[j],
                count_true(generated.take(j)) + 1,
            ),
        forall|i: int, j: int|
            0 <= i < j < generated.len() && generated[i] && generated[j] ==> #[trigger] ids[i]
                != #[trigger] ids[j],
        states.last().next_generated() == count_true(generated) + 1,
{
    assert forall|j: int| 0 <= j < generated.len() && generated[j] implies #[trigger] ids[j]
        == generated_id(prefixes[j], count_true(generated.take(j)) + 1) by {
        lemma_counter_at(states, generated, prefixes, ids, j);
        assert(counter_step(states[j], states[j + 1], generated[j], prefixes[j], ids[j]));
    }
    assert forall|i: int, j: int|
        0 <= i < j < generated.len() && generated[i] && generated[j] implies #[trigger] ids[i]
        != #[trigger] ids[j] by {
        lemma_count_true_grows(generated, i, j);
        lemma_generated_ids_distinct(
            prefixes[i],
            count_true(generated.take(i)) + 1,
            prefixes[j],
            count_true(generated.take(j)) + 1,
        );
    }
    lemma_counter_at(states, generated, prefixes, ids, generated.len() as int);
    assert(generated.take(generated.len() as int) =~= generated);
}

impl ObjectIdRegistry {
    /// Identifier to entry.
    pub closed spec fn ids(&self) -> Map<Seq<char>, RegistryEntry> {
        assoc_map(id_pairs(self.by_id@))
    }

    /// Handle to identifier.
    pub closed spec fn handles(&self) -> Map<ObjectHandle, Seq<char>> {
        assoc_map(handle_pairs(self.by_handle@))
    }

    /// The counter the next generated identifier will carry.
    pub closed spec fn next_generated(&self) -> u32 {
        self.next_generated
    }

    /// Well-formedness: both tables have distinct keys, and every handle in
    /// the reverse table names an identifier whose entry holds that handle.
    pub closed spec fn wf(&self) -> bool {
        &&& keys_distinct(id_pairs(self.by_id@))
        &&& keys_distinct(handle_pairs(self.by_handle@))
        &&& forall|h: ObjectHandle| #[trigger]
            self.handles().contains_key(h) ==> self.ids().contains_key(self.handles()[h])
                && self.ids()[self.handles()[h]].handle == h
    }

    /// An empty registry whose generated identifiers start at 1.
    pub fn new() -> (r: ObjectIdRegistry)
        ensures
            r.wf(),
            r.ids() == Map::<Seq<char>, RegistryEntry>::empty(),
            r.handles() == Map::<ObjectHandle, Seq<char>>::empty(),
            r.next_generated() == 1,
    {
        let r = ObjectIdRegistry { by_id: Vec::new(), by_handle: Vec::new(), next_generated: 1 };
        proof {
            lemma_assoc_empty(id_pairs(r.by_id@));
            lemma_assoc_empty(handle_pairs(r.by_handle@));
        }
        r
    }

    /// Position of `id` in the forward table.
    fn index_of_id(&self, id: &String) -> (r: Option<usize>)
        ensures
            r matches Some(i) ==> i < self.by_id@.len() && self.by_id@[i as int].0@ == id@,
            r is None ==> !has_key(id_pairs(self.by_id@), id@),
    {
        let mut i: usize = 0;
        while i < self.by_id.len()
            invariant
                i <= self.by_id@.len(),
                forall|j: int| 0 <= j < i ==> self.by_id@[j].0@ != id@,
            decreases self.by_id@.len() - i,
        {
            if self.by_id[i].0 == *id {
                return Some(i);
            }
            i = i + 1;
        }
        proof {
            if has_key(id_pairs(self.by_id@), id@) {
                let j = choose|j: int|
                    0 <= j < id_pairs(self.by_id@).len() && id_pairs(self.by_id@)[j].0 == id@;
                assert(self.by_id@[j].0@ == id@);
            }
        }
        None
    }

    /// Position of `handle` in the reverse table.
    fn index_of_handle(&self, handle: ObjectHandle) -> (r: Option<usize>)
        ensures
            r matches Some(i) ==> i < self.by_handle@.len() && self.by_handle@[i as int].0 == handle,
            r is None ==> !has_key(handle_pairs(self.by_handle@), handle),
    {
        let mut i: usize = 0;
        while i < self.by_handle.len()
            invariant
                i <= self.by_handle@.len(),
                forall|j: int| 0 <= j < i ==> self.by_handle@[j].0 != handle,
            decreases self.by_handle@.len() - i,
        {
            if self.by_handle[i].0 == handle {
                return Some(i);
            }
            i = i + 1;
        }
        proof {
            if has_key(handle_pairs(self.by_handle@), handle) {
                let j = choose|j: int|
                    0 <= j < handle_pairs(self.by_handle@).len() && handle_pairs(
                        self.by_handle@,
                    )[j].0 == handle;
                assert(self.by_handle@[j].0 == handle);
            }
        }
        None
    }

    /// Removes `id` from the forward table, giving back its entry.
    fn take_id(&mut self, id: &String) -> (r: Option<RegistryEntry>)
        requires
            keys_distinct(id_pairs(old(self).by_id@)),
        ensures
            keys_distinct(id_pairs(final(self).by_id@)),
            final(self).ids() == old(self).ids().remove(id@),
            final(self).by_handle == old(self).by_handle,
            final(self).next_generated == old(self).next_generated,
            r matches Some(e) ==> old(self).ids().contains_key(id@) && e == old(self).ids()[id@],
            r is None ==> !old(self).ids().contains_key(id@),
    {
        match self.index_of_id(id) {
            Some(i) => {
                let ghost s = id_pairs(self.by_id@);
                proof {
                    lemma_assoc_lookup(s, i as int);
                    lemma_assoc_remove(s, i as int);
                }
                let (_, e) = self.by_id.remove(i);
                proof {
                    assert(id_pairs(self.by_id@) =~= s.remove(i as int));
                }
                Some(e)
            },
            None => {
                proof {
                    assert(self.ids().remove(id@) =~= self.ids());
                }
                None
            },
        }
    }

    /// Sets the forward entry of `id`, overwriting any previous one.
    fn put_id(&mut self, id: String, e: RegistryEntry)
        requires
            keys_distinct(id_pairs(old(self).by_id@)),
        ensures
            keys_distinct(id_pairs(final(self).by_id@)),
            final(self).ids() == old(self).ids().insert(id@, e),
            final(self).by_handle == old(self).by_handle,
            final(self).next_generated == old(self).next_generated,
    {
        let ghost s = id_pairs(self.by_id@);
        match self.index_of_id(&id) {
            Some(i) => {
                proof {
                    lemma_assoc_update(s, i as int, e);
                }
                self.by_id.set(i, (id, e));
                proof {
                    assert(id_pairs(self.by_id@) =~= s.update(i as int, (s[i as int].0, e)));
                }
            },
            None => {
                let ghost k = id@;
                proof {
                    lemma_assoc_push(s, k, e);
                }
                self.by_id.push((id, e));
                proof {
                    assert(id_pairs(self.by_id@) =~= s.push((k, e)));
                }
            },
        }
    }

    /// Removes `handle` from the reverse table, giving back its identifier.
    fn take_handle(&mut self, handle: ObjectHandle) -> (r: Option<String>)
        requires
            keys_distinct(handle_pairs(old(self).by_handle@)),
        ensures
            keys_distinct(handle_pairs(final(self).by_handle@)),
            final(self).handles() == old(self).handles().remove(handle),
            final(self).by_id == old(self).by_id,
            final(self).next_generated == old(self).next_generated,
            r matches Some(id) ==> old(self).handles().contains_key(handle) && id@ == old(
                self,
            ).handles()[handle],
            r is None ==> !old(self).handles().contains_key(handle),
    {
        match self.index_of_handle(handle) {
            Some(i) => {
                let ghost s = handle_pairs(self.by_handle@);
                proof {
                    lemma_assoc_lookup(s, i as int);
                    lemma_assoc_remove(s, i as int);
                }
                let (_, id) = self.by_handle.remove(i);
                proof {
                    assert(handle_pairs(self.by_handle@) =~= s.remove(i as int));
                }
                Some(id)
            },
            None => {
                proof {
                    assert(self.handles().remove(handle) =~= self.handles());
                }
                None
            },
        }
    }

    /// Sets the reverse entry of `handle`, overwriting any previous one.
    fn put_handle(&mut self, handle: ObjectHandle, id: String)
        requires
            keys_distinct(handle_pairs(old(self).by_handle@)),
        ensures
            keys_distinct(handle_pairs(final(self).by_handle@)),
            final(self).handles() == old(self).handles().insert(handle, id@),
            final(self).by_id == old(self).by_id,
            final(self).next_generated == old(self).next_generated,
    {
        let ghost s = handle_pairs(self.by_handle@);
        let ghost v = id@;
        match self.index_of_handle(handle) {
            Some(i) => {
                proof {
                    lemma_assoc_update(s, i as int, v);
                }
                self.by_handle.set(i, (handle, id));
                proof {
                    assert(handle_pairs(self.by_handle@) =~= s.update(i as int, (handle, v)));
                }
            },
            None => {
                proof {
                    lemma_assoc_push(s, handle, v);
                }
                self.by_handle.push((handle, id));
                proof {
                    assert(handle_pairs(self.by_handle@) =~= s.push((handle, v)));
                }
            },
        }
    }
}

impl ObjectIdRegistry {
    /// The entry registered under `stable_id`, if any.
    pub fn find_by_id(&self, stable_id: &str) -> (r: Option<&RegistryEntry>)
        requires
            self.wf(),
        ensures
            r matches Some(e) ==> self.ids().contains_key(stable_id@) && *e == self.ids()[stable_id@],
            r is None ==> !self.ids().contains_key(stable_id@),
    {
        let id = stable_id.to_owned();
        match self.index_of_id(&id) {
            Some(i) => {
                proof {
                    lemma_assoc_lookup(id_pairs(self.by_id@), i as int);
                }
                Some(&self.by_id[i].1)
            },
            None => None,
        }
    }

    /// The identifier the reverse table records for `handle`, if any.
    pub fn find_id_by_handle(&self, handle: ObjectHandle) -> (r: Option<&str>)
        requires
            self.wf(),
        ensures
            r matches Some(s) ==> self.handles().contains_key(handle) && s@ == self.handles()[handle],
            r is None ==> !self.handles().contains_key(handle),
    {
        match self.index_of_handle(handle) {
            Some(i) => {
                proof {
                    lemma_assoc_lookup(handle_pairs(self.by_handle@), i as int);
                }
                Some(self.by_handle[i].1.as_str())
            },
            None => None,
        }
    }

    /// Number of tracked objects.
    pub fn len(&self) -> (n: usize)
        requires
            self.wf(),
        ensures
            n == self.ids().len(),
    {
        proof {
            lemma_assoc_len(id_pairs(self.by_id@));
        }
        self.by_id.len()
    }

    /// Whether no object is tracked.
    pub fn is_empty(&self) -> (b: bool)
        requires
            self.wf(),
        ensures
            b == (self.ids().len() == 0),
    {
        proof {
            lemma_assoc_len(id_pairs(self.by_id@));
        }
        self.by_id.len() == 0
    }

    /// Every `(identifier, entry)` pair, each identifier once, in no particular order.
    pub fn iter(&self) -> (v: Vec<(String, RegistryEntry)>)
        requires
            self.wf(),
        ensures
            v@.len() == self.ids().len(),
            forall|i: int|
                0 <= i < v@.len() ==> self.ids().contains_key(#[trigger] v@[i].0@) && self.ids()[v@[i].0@]
                    == v@[i].1,
            forall|i: int, j: int|
                0 <= i < v@.len() && 0 <= j < v@.len() && i != j ==> v@[i].0@ != v@[j].0@,
            forall|k: Seq<char>|
                #[trigger] self.ids().contains_key(k) ==> exists|i: int| 0 <= i < v@.len() && v@[i].0@ == k,
    {
        proof {
            lemma_assoc_len(id_pairs(self.by_id@));
        }
        let mut v: Vec<(String, RegistryEntry)> = Vec::new();
        let mut i: usize = 0;
        while i < self.by_id.len()
            invariant
                i <= self.by_id@.len(),
                v@.len() == i,
                forall|j: int| 0 <= j < i ==> (#[trigger] v@[j]).0@ == self.by_id@[j].0@ && v@[j].1
                    == self.by_id@[j].1,
            decreases self.by_id@.len() - i,
        {
            let id = self.by_id[i].0.clone();
            let e = self.by_id[i].1;
            v.push((id, e));
            i = i + 1;
        }
        proof {
            let s = id_pairs(self.by_id@);
            assert forall|i: int| 0 <= i < v@.len() implies self.ids().contains_key(
                #[trigger] v@[i].0@,
            ) && self.ids()[v@[i].0@] == v@[i].1 by {
                assert(s[i] == (self.by_id@[i].0@, self.by_id@[i].1));
                lemma_assoc_lookup(s, i);
            }
            assert forall|i: int, j: int|
                0 <= i < v@.len() && 0 <= j < v@.len() && i != j implies v@[i].0@ != v@[j].0@ by {
                assert(s[i].0 == v@[i].0@ && s[j].0 == v@[j].0@);
            }
            assert forall|k: Seq<char>| #[trigger] self.ids().contains_key(k) implies exists|i: int|
                0 <= i < v@.len() && v@[i].0@ == k by {
                let i = choose|i: int| 0 <= i < s.len() && s[i].0 == k;
                assert(v@[i].0@ == k);
            }
        }
        v
    }

    /// Registers `stable_id` for `handle`, or moves it there. If the handle
    /// was registered under another identifier, that identifier is dropped;
    /// the identifier's previous handle is unlinked.
    pub fn register(&mut self, stable_id: &str, handle: ObjectHandle, object_type: u8)
        requires
            old(self).wf(),
        ensures
            final(self).wf(),
            (final(self).ids(), final(self).handles()) == register_tables(
                old(self).ids(),
                old(self).handles(),
                stable_id@,
                handle,
                object_type,
            ),
            final(self).ids()[stable_id@] == (RegistryEntry { handle, object_type }),
            final(self).handles()[handle] == stable_id@,
            final(self).next_generated() == old(self).next_generated(),
            tables_consistent(old(self).ids(), old(self).handles()) ==> tables_consistent(
                final(self).ids(),
                final(self).handles(),
            ) && final(self).ids().len() == final(self).handles().len(),
    {
        let ghost ids0 = self.ids();
        let ghost handles0 = self.handles();
        let stable = stable_id.to_owned();
        if let Some(old_id) = self.take_handle(handle) {
            if old_id != stable {
                let _ = self.take_id(&old_id);
            }
        }
        let ghost ids1 = self.ids();
        let ghost handles1 = self.handles();
        if let Some(ii) = self.index_of_id(&stable) {
            let old_handle = self.by_id[ii].1.handle;
            proof {
                lemma_assoc_lookup(id_pairs(self.by_id@), ii as int);
            }
            let _ = self.take_handle(old_handle);
        }
        let ghost handles2 = self.handles();
        self.put_handle(handle, stable.clone());
        self.put_id(stable, RegistryEntry { handle, object_type });
        proof {
            let (i3, h3) = register_tables(ids0, handles0, stable_id@, handle, object_type);
            assert(self.ids() =~= i3);
            assert(self.handles() =~= h3);
            assert forall|h: ObjectHandle| #[trigger] self.handles().contains_key(h) implies self.ids().contains_key(
                self.handles()[h],
            ) && self.ids()[self.handles()[h]].handle == h by {
                if h != handle {
                    let x = handles0[h];
                    assert(handles2.contains_key(h));
                    assert(ids0.contains_key(x) && ids0[x].handle == h);
                    if handles0.contains_key(handle) {
                        assert(ids0[handles0[handle]].handle == handle);
                    }
                }
            }
            if tables_consistent(ids0, handles0) {
                lemma_register_keeps_tables_consistent(ids0, handles0, stable_id@, handle, object_type);
                lemma_len_counts_handles(*self);
            }
        }
    }

    /// Points `stable_id` at `new_handle`, keeping its object type. Returns
    /// `false`, changing nothing, when the identifier is not registered.
    pub fn update_handle(&mut self, stable_id: &str, new_handle: ObjectHandle) -> (b: bool)
        requires
            old(self).wf(),
        ensures
            final(self).wf(),
            b == old(self).ids().contains_key(stable_id@),
            b ==> final(self).ids() == old(self).ids().insert(
                stable_id@,
                RegistryEntry { handle: new_handle, ..old(self).ids()[stable_id@] },
            ),
            b ==> final(self).handles() == old(self).handles().remove(
                old(self).ids()[stable_id@].handle,
            ).insert(new_handle, stable_id@),
            !b ==> final(self).ids() == old(self).ids() && final(self).handles() == old(
                self,
            ).handles(),
            final(self).next_generated() == old(self).next_generated(),
            tables_consistent(old(self).ids(), old(self).handles()) && (old(self).handles().contains_key(
                new_handle,
            ) ==> old(self).handles()[new_handle] == stable_id@) ==> tables_consistent(
                final(self).ids(),
                final(self).handles(),
            ) && final(self).ids().len() == final(self).handles().len(),
    {
        let ghost ids0 = self.ids();
        let ghost handles0 = self.handles();
        let id = stable_id.to_owned();
        match self.index_of_id(&id) {
            Some(i) => {
                proof {
                    lemma_assoc_lookup(id_pairs(self.by_id@), i as int);
                }
                let old_entry = self.by_id[i].1;
                let _ = self.take_handle(old_entry.handle);
                self.put_handle(new_handle, id.clone());
                self.put_id(id, RegistryEntry { handle: new_handle, object_type: old_entry.object_type });
                proof {
                    assert forall|h: ObjectHandle| #[trigger] self.handles().contains_key(h) implies self.ids().contains_key(
                        self.handles()[h],
                    ) && self.ids()[self.handles()[h]].handle == h by {
                        if h != new_handle {
                            let x = handles0[h];
                            assert(ids0.contains_key(x) && ids0[x].handle == h);
                        }
                    }
                    if tables_consistent(ids0, handles0) && (handles0.contains_key(new_handle)
                        ==> handles0[new_handle] == stable_id@) {
                        lemma_update_handle_keeps_tables_consistent(ids0, handles0, stable_id@, new_handle);
                        lemma_len_counts_handles(*self);
                    }
                }
                true
            },
            None => {
                proof {
                    if tables_consistent(ids0, handles0) {
                        lemma_len_counts_handles(*self);
                    }
                }
                false
            },
        }
    }

    /// Removes `stable_id` and the reverse entry of its handle, giving back
    /// its entry; `None`, changing nothing, when it is not registered.
    pub fn remove(&mut self, stable_id: &str) -> (r: Option<RegistryEntry>)
        requires
            old(self).wf(),
        ensures
            final(self).wf(),
            r matches Some(e) ==> old(self).ids().contains_key(stable_id@) && e == old(self).ids()[stable_id@]
                && final(self).ids() == old(self).ids().remove(stable_id@)
                && final(self).handles() == old(self).handles().remove(e.handle),
            r is None ==> !old(self).ids().contains_key(stable_id@) && final(self).ids() == old(
                self,
            ).ids() && final(self).handles() == old(self).handles(),
            final(self).next_generated() == old(self).next_generated(),
            tables_consistent(old(self).ids(), old(self).handles()) ==> tables_consistent(
                final(self).ids(),
                final(self).handles(),
            ) && final(self).ids().len() == final(self).handles().len(),
    {
        let ghost ids0 = self.ids();
        let ghost handles0 = self.handles();
        let id = stable_id.to_owned();
        match self.take_id(&id) {
            Some(e) => {
                let _ = self.take_handle(e.handle);
                proof {
                    assert forall|h: ObjectHandle| #[trigger] self.handles().contains_key(h) implies self.ids().contains_key(
                        self.handles()[h],
                    ) && self.ids()[self.handles()[h]].handle == h by {
                        let x = handles0[h];
                        assert(ids0.contains_key(x) && ids0[x].handle == h);
                    }
                    if tables_consistent(ids0, handles0) {
                        lemma_remove_keeps_tables_consistent(ids0, handles0, stable_id@);
                        lemma_len_counts_handles(*self);
                    }
                }
                Some(e)
            },
            None => {
                proof {
                    if tables_consistent(ids0, handles0) {
                        lemma_len_counts_handles(*self);
                    }
                }
                None
            },
        }
    }

    /// Removes every entry; the generated-identifier counter is kept.
    pub fn clear(&mut self)
        requires
            old(self).wf(),
        ensures
            final(self).wf(),
            final(self).ids() == Map::<Seq<char>, RegistryEntry>::empty(),
            final(self).handles() == Map::<ObjectHandle, Seq<char>>::empty(),
            final(self).next_generated() == old(self).next_generated(),
            tables_consistent(final(self).ids(), final(self).handles()),
            final(self).ids().len() == final(self).handles().len(),
    {
        self.by_id.clear();
        self.by_handle.clear();
        proof {
            lemma_assoc_empty(id_pairs(self.by_id@));
            lemma_assoc_empty(handle_pairs(self.by_handle@));
        }
    }

    /// A well-formed registry's identifier table is finite.
    pub proof fn lemma_tables_finite(&self)
        requires
            self.wf(),
        ensures
            self.ids().dom().finite(),
    {
        lemma_assoc_len(id_pairs(self.by_id@));
    }

    /// Registers every object found in the game, in order, under its
    /// in-game identifier; an object whose identifier is empty gets a
    /// generated one with `prefix`. Returns the generated identifiers with
    /// their handles, to be written back to the game.
    pub fn populate_objects(
        &mut self,
        objects: &[(ObjectHandle, String)],
        object_type: u8,
        prefix: &str,
    ) -> (assigned: Vec<(ObjectHandle, String)>)
        requires
            old(self).wf(),
            old(self).next_generated() + count_unnamed(objects@.map_values(|o: (ObjectHandle, String)| (o.0, o.1@))) < u32::MAX,
        ensures
            final(self).wf(),
            ({
                let r = populate_tables(
                    old(self).ids(),
                    old(self).handles(),
                    old(self).next_generated() as nat,
                    objects@.map_values(|o: (ObjectHandle, String)| (o.0, o.1@)),
                    object_type,
                    prefix@,
                );
                &&& final(self).ids() == r.0
                &&& final(self).handles() == r.1
                &&& final(self).next_generated() == r.2
                &&& assigned@.map_values(|o: (ObjectHandle, String)| (o.0, o.1@)) == r.3
            }),
            tables_consistent(old(self).ids(), old(self).handles()) ==> tables_consistent(
                final(self).ids(),
                final(self).handles(),
            ) && final(self).ids().len() == final(self).handles().len(),
    {
        let ghost objs = objects@.map_values(|o: (ObjectHandle, String)| (o.0, o.1@));
        let ghost ids0 = self.ids();
        let ghost handles0 = self.handles();
        let ghost next0 = self.next_generated() as nat;
        let mut assigned: Vec<(ObjectHandle, String)> = Vec::new();
        let mut i: usize = 0;
        while i < objects.len()
            invariant
                i <= objects@.len(),
                objs == objects@.map_values(|o: (ObjectHandle, String)| (o.0, o.1@)),
                self.wf(),
                next0 + count_unnamed(objs) < u32::MAX,
                ({
                    let r = populate_tables(ids0, handles0, next0, objs.take(i as int), object_type, prefix@);
                    &&& self.ids() == r.0
                    &&& self.handles() == r.1
                    &&& self.next_generated() == r.2
                    &&& assigned@.map_values(|o: (ObjectHandle, String)| (o.0, o.1@)) == r.3
                }),
            decreases objects@.len() - i,
        {
            proof {
                assert(objs.take(i as int + 1).drop_last() =~= objs.take(i as int));
                assert(objs.take(i as int + 1).last() == objs[i as int]);
                lemma_populate_next(ids0, handles0, next0, objs.take(i as int), object_type, prefix@);
                lemma_count_unnamed_prefix(objs, i as int + 1);
                assert(count_unnamed(objs.take(i as int + 1)) == count_unnamed(objs.take(i as int)) + if objs[i as int].1.len() == 0 { 1nat } else { 0nat });
            }
            let handle = objects[i].0;
            if objects[i].1.as_str().is_empty() {
                let generated = self.generate_id(prefix);
                self.register(generated.as_str(), handle, object_type);
                let ghost before = assigned@.map_values(|o: (ObjectHandle, String)| (o.0, o.1@));
                assigned.push((handle, generated));
                proof {
                    assert(assigned@.map_values(|o: (ObjectHandle, String)| (o.0, o.1@)) =~= before.push(
                        (handle, assigned@[assigned@.len() - 1].1@),
                    ));
                }
            } else {
                self.register(objects[i].1.as_str(), handle, object_type);
            }
            i = i + 1;
        }
        proof {
            assert(objs.take(objects@.len() as int) =~= objs);
            if tables_consistent(ids0, handles0) {
                lemma_populate_keeps_tables_consistent(ids0, handles0, next0, objs, object_type, prefix@);
                lemma_len_counts_handles(*self);
            }
        }
        assigned
    }

    /// A new identifier `"{prefix}__g{n:04}"`, where `n` is the counter,
    /// which then advances.
    pub fn generate_id(&mut self, prefix: &str) -> (id: String)
        requires
            old(self).next_generated() < u32::MAX,
        ensures
            id@ == generated_id(prefix@, old(self).next_generated() as nat),
            final(self).next_generated() == old(self).next_generated() + 1,
            final(self).ids() == old(self).ids(),
            final(self).handles() == old(self).handles(),
            old(self).wf() ==> final(self).wf(),
    {
        let mut id = prefix.to_owned();
        proof {
            reveal_strlit("__g");
        }
        id.append("__g");
        push_zero_padded(&mut id, self.next_generated, 4);
        self.next_generated = self.next_generated + 1;
        proof {
            assert(id@ =~= generated_id(prefix@, old(self).next_generated() as nat));
        }
        id
    }
}

} // verus!
verus! {

/// Runs `f` with shared access to the registry held in `slot`; `None`, without
/// calling `f`, when the slot is empty.
pub fn with_registry<F, R>(slot: &Option<ObjectIdRegistry>, f: F) -> (r: Option<R>) where
    F: FnOnce(&ObjectIdRegistry) -> R,
    requires
        slot matches Some(reg) ==> f.requires((&reg,)),
    ensures
        slot is None ==> r is None,
        slot matches Some(reg) ==> (r matches Some(x) && f.ensures((&reg,), x)),
{
    match slot {
        Some(reg) => Some(f(reg)),
        None => None,
    }
}

/// Runs `f` with exclusive access to the registry held in `slot`, first
/// filling an empty slot with a new registry. Always `Some`: `f`'s result,
/// with the registry as `f` left it in the slot.
pub fn with_registry_mut<F, R>(slot: &mut Option<ObjectIdRegistry>, f: F) -> (r: Option<R>) where
    F: FnOnce(&mut ObjectIdRegistry) -> R,
    requires
        (*old(slot)) is Some ==> old(slot).unwrap().wf(),
        forall|reg: &mut ObjectIdRegistry| reg.wf() ==> f.requires((reg,)),
    ensures
        r is Some,
        (*final(slot)) is Some,
        (*old(slot)) is Some ==> exists|m: &mut ObjectIdRegistry|
            *m == old(slot).unwrap() && *final(m) == final(slot).unwrap() && f.ensures((m,), r.unwrap()),
        (*old(slot)) is None ==> exists|m: &mut ObjectIdRegistry|
            m.wf() && m.ids() == Map::<Seq<char>, RegistryEntry>::empty()
                && m.handles() == Map::<ObjectHandle, Seq<char>>::empty() && m.next_generated() == 1
                && *final(m) == final(slot).unwrap() && f.ensures((m,), r.unwrap()),
{
    if slot.is_none() {
        *slot = Some(ObjectIdRegistry::new());
    }
    match slot {
        Some(reg) => Some(f(reg)),
        None => None,
    }
}

/// Empties the slot that holds the registry.
pub fn reset_registry(slot: &mut Option<ObjectIdRegistry>)
    ensures
        (*final(slot)) is None,
{
    *slot = None;
}

} // verus!
verus! {

impl Default for ObjectIdRegistry {
    fn default() -> (r: ObjectIdRegistry)
        ensures
            r.wf(),
            r.ids() == Map::<Seq<char>, RegistryEntry>::empty(),
            r.handles() == Map::<ObjectHandle, Seq<char>>::empty(),
            r.next_generated() == 1,
    {
        ObjectIdRegistry::new()
    }
}

} // verus!
