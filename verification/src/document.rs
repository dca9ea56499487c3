//! The document: an ordered collection of element ids (front to back)
//! backed by an insertion-ordered hash map of the `indexmap` crate.

use indexmap::IndexMap;
use rustc_hash::FxBuildHasher;
use vstd::prelude::*;

verus! {

/// Identifier of an element of a [`Document`].
pub type ElementId = u64;

/// The key under which the caller keeps the data of an element.
pub type ElementSlot = u64;

#[verifier::external_type_specification]
#[verifier::external_body]
pub struct ExFxBuildHasher(FxBuildHasher);

#[verifier::external_type_specification]
#[verifier::external_body]
#[verifier::reject_recursive_types(K)]
#[verifier::reject_recursive_types(V)]
#[verifier::reject_recursive_types(S)]
pub struct ExIndexMap<K, V, S>(IndexMap<K, V, S>);

/// What an id map holds: its (key, value) entries, in the map's order.
pub uninterp spec fn id_map_entries(m: IndexMap<u64, u64, FxBuildHasher>) -> Seq<(u64, u64)>;

/// Some entry has the key `key`.
pub open spec fn has_key(s: Seq<(u64, u64)>, key: u64) -> bool {
    exists|i: int| 0 <= i < s.len() && #[trigger] s[i].0 == key
}

/// The index of an entry with key `key` (the only one when keys are distinct).
pub open spec fn key_index(s: Seq<(u64, u64)>, key: u64) -> int {
    choose|i: int| 0 <= i < s.len() && #[trigger] s[i].0 == key
}

/// The value stored under `key`, if any.
pub open spec fn value_of(s: Seq<(u64, u64)>, key: u64) -> Option<u64> {
    if has_key(s, key) {
        Some(s[key_index(s, key)].1)
    } else {
        None
    }
}

/// The entries with the entry at `from` moved to index `to`, the entries
/// in between shifting by one.
pub open spec fn move_entry(s: Seq<(u64, u64)>, from: int, to: int) -> Seq<(u64, u64)> {
    s.remove(from).insert(to, s[from])
}

/// The entries with those at `a` and `b` traded.
pub open spec fn swap_entries(s: Seq<(u64, u64)>, a: int, b: int) -> Seq<(u64, u64)> {
    s.update(a, s[b]).update(b, s[a])
}

/// No key occurs twice among the entries.
pub open spec fn distinct_keys(s: Seq<(u64, u64)>) -> bool {
    forall|i: int, j: int| 0 <= i < s.len() && 0 <= j < s.len() && i != j ==> s[i].0 != s[j].0
}

/// `IndexMap::default`: an empty map.
#[verifier::external_body]
fn id_map_new() -> (m: IndexMap<u64, u64, FxBuildHasher>)
    ensures
        id_map_entries(m) == Seq::<(u64, u64)>::empty(),
{
    IndexMap::default()
}

/// `IndexMap::len`: the number of entries.
#[verifier::external_body]
fn id_map_len(m: &IndexMap<u64, u64, FxBuildHasher>) -> (n: usize)
    ensures
        n == id_map_entries(*m).len(),
{
    m.len()
}

/// `IndexMap::get_index_of`: the index of the entry with key `key`, if any.
#[verifier::external_body]
fn id_map_index_of(m: &IndexMap<u64, u64, FxBuildHasher>, key: u64) -> (r: Option<usize>)
    ensures
        match r {
            Some(i) => i < id_map_entries(*m).len() && id_map_entries(*m)[i as int].0 == key,
            None => !has_key(id_map_entries(*m), key),
        },
{
    m.get_index_of(&key)
}

/// `IndexMap::get`: the value stored under `key`, if any, copied out.
#[verifier::external_body]
fn id_map_get(m: &IndexMap<u64, u64, FxBuildHasher>, key: u64) -> (r: Option<u64>)
    ensures
        match r {
            Some(v) => exists|i: int|
                0 <= i < id_map_entries(*m).len() && #[trigger] id_map_entries(*m)[i] == (key, v),
            None => !has_key(id_map_entries(*m), key),
        },
{
    m.get(&key).copied()
}

/// `IndexMap::get_index`: the entry at index `index`, if any, copied out.
#[verifier::external_body]
fn id_map_get_index(m: &IndexMap<u64, u64, FxBuildHasher>, index: usize) -> (r: Option<(u64, u64)>)
    ensures
        r == (if index < id_map_entries(*m).len() {
            Some(id_map_entries(*m)[index as int])
        } else {
            None
        }),
{
    m.get_index(index).map(|(k, v)| (*k, *v))
}

/// `IndexMap::insert`: a new key goes last; an existing key keeps its
/// place, takes the new value and the old value is returned.
#[verifier::external_body]
fn id_map_insert(m: &mut IndexMap<u64, u64, FxBuildHasher>, key: u64, value: u64) -> (r: Option<u64>)
    requires
        distinct_keys(id_map_entries(*old(m))),
    ensures
        has_key(id_map_entries(*old(m)), key) ==> {
            let i = key_index(id_map_entries(*old(m)), key);
            &&& r == Some(id_map_entries(*old(m))[i].1)
            &&& id_map_entries(*final(m)) == id_map_entries(*old(m)).update(i, (key, value))
        },
        !has_key(id_map_entries(*old(m)), key) ==> {
            &&& r is None
            &&& id_map_entries(*final(m)) == id_map_entries(*old(m)).push((key, value))
        },
{
    m.insert(key, value)
}

/// `IndexMap::shift_remove`: removes the entry with key `key`, if any,
/// keeping the order of the others, and returns its value.
#[verifier::external_body]
fn id_map_shift_remove(m: &mut IndexMap<u64, u64, FxBuildHasher>, key: u64) -> (r: Option<u64>)
    requires
        distinct_keys(id_map_entries(*old(m))),
    ensures
        has_key(id_map_entries(*old(m)), key) ==> {
            let i = key_index(id_map_entries(*old(m)), key);
            &&& r == Some(id_map_entries(*old(m))[i].1)
            &&& id_map_entries(*final(m)) == id_map_entries(*old(m)).remove(i)
        },
        !has_key(id_map_entries(*old(m)), key) ==> {
            &&& r is None
            &&& id_map_entries(*final(m)) == id_map_entries(*old(m))
        },
{
    m.shift_remove(&key)
}

/// `IndexMap::move_index`: moves the entry at `from` to `to`, shifting the
/// entries in between. It panics on an index out of bounds.
#[verifier::external_body]
fn id_map_move_index(m: &mut IndexMap<u64, u64, FxBuildHasher>, from: usize, to: usize)
    requires
        from < id_map_entries(*old(m)).len(),
        to < id_map_entries(*old(m)).len(),
    ensures
        id_map_entries(*final(m)) == move_entry(id_map_entries(*old(m)), from as int, to as int),
{
    m.move_index(from, to)
}

/// `IndexMap::swap_indices`: the entries at `a` and `b` trade places.
/// It panics on an index out of bounds.
#[verifier::external_body]
fn id_map_swap_indices(m: &mut IndexMap<u64, u64, FxBuildHasher>, a: usize, b: usize)
    requires
        a < id_map_entries(*old(m)).len(),
        b < id_map_entries(*old(m)).len(),
    ensures
        id_map_entries(*final(m)) == swap_entries(id_map_entries(*old(m)), a as int, b as int),
{
    m.swap_indices(a, b)
}

/// `IndexMap::clear`: removes every entry.
#[verifier::external_body]
fn id_map_clear(m: &mut IndexMap<u64, u64, FxBuildHasher>)
    ensures
        id_map_entries(*final(m)) == Seq::<(u64, u64)>::empty(),
{
    m.clear()
}

/// The entries with the entry of key `id`, if any, moved to index 0, where
/// it is drawn first.
pub open spec fn moved_to_front(s: Seq<(u64, u64)>, id: u64) -> Seq<(u64, u64)> {
    if has_key(s, id) {
        move_entry(s, key_index(s, id), 0)
    } else {
        s
    }
}

/// The entries with the entry of key `id`, if any, moved to the last index,
/// where it is drawn last.
pub open spec fn moved_to_back(s: Seq<(u64, u64)>, id: u64) -> Seq<(u64, u64)> {
    if has_key(s, id) {
        move_entry(s, key_index(s, id), s.len() - 1)
    } else {
        s
    }
}

/// The entries with the entry of key `id` and the one after it traded,
/// when there is one after it.
pub open spec fn moved_up(s: Seq<(u64, u64)>, id: u64) -> Seq<(u64, u64)> {
    if has_key(s, id) && key_index(s, id) + 1 < s.len() {
        swap_entries(s, key_index(s, id), key_index(s, id) + 1)
    } else {
        s
    }
}

/// The entries with the entry of key `id` and the one before it traded,
/// when there is one before it.
pub open spec fn moved_down(s: Seq<(u64, u64)>, id: u64) -> Seq<(u64, u64)> {
    if has_key(s, id) && key_index(s, id) > 0 {
        swap_entries(s, key_index(s, id), key_index(s, id) - 1)
    } else {
        s
    }
}

/// The entries without the entry of key `id`, if there is one.
pub open spec fn removed(s: Seq<(u64, u64)>, id: u64) -> Seq<(u64, u64)> {
    if has_key(s, id) {
        s.remove(key_index(s, id))
    } else {
        s
    }
}

/// A change of paint order or membership addressed to one element.
#[derive(Clone, Copy, Debug, PartialEq, Eq, Structural)]
pub enum OrderChange {
    ToFront,
    ToBack,
    Up,
    Down,
    Remove,
}

/// The entries once `change` is applied to the element with key `id`.
pub open spec fn changed(s: Seq<(u64, u64)>, change: OrderChange, id: u64) -> Seq<(u64, u64)> {
    match change {
        OrderChange::ToFront => moved_to_front(s, id),
        OrderChange::ToBack => moved_to_back(s, id),
        OrderChange::Up => moved_up(s, id),
        OrderChange::Down => moved_down(s, id),
        OrderChange::Remove => removed(s, id),
    }
}

/// The entries once `change` is applied to each id in turn.
pub open spec fn changed_each(s: Seq<(u64, u64)>, change: OrderChange, ids: Seq<u64>) -> Seq<
    (u64, u64),
>
    decreases ids.len(),
{
    if ids.len() == 0 {
        s
    } else {
        changed(changed_each(s, change, ids.drop_last()), change, ids.last())
    }
}

/// Removing an entry keeps the keys distinct and below the counter.
proof fn lemma_remove_keeps_wf(s: Seq<(u64, u64)>, next: u64, i: int)
    requires
        distinct_keys(s),
        ids_below(s, next),
        0 <= i < s.len(),
    ensures
        distinct_keys(s.remove(i)),
        ids_below(s.remove(i), next),
        !has_key(s.remove(i), s[i].0),
{
    s.remove_ensures(i);
    let r = s.remove(i);
    assert forall|a: int, b: int| 0 <= a < r.len() && 0 <= b < r.len() && a != b implies r[a].0
        != r[b].0 by {
        let a2 = if a < i { a } else { a + 1 };
        let b2 = if b < i { b } else { b + 1 };
        assert(r[a] == s[a2]);
        assert(r[b] == s[b2]);
    }
    assert forall|k: int| 0 <= k < r.len() implies #[trigger] r[k].0 < next by {
        let k2 = if k < i { k } else { k + 1 };
        assert(r[k] == s[k2]);
    }
    if has_key(r, s[i].0) {
        let k = choose|k: int| 0 <= k < r.len() && #[trigger] r[k].0 == s[i].0;
        let k2 = if k < i { k } else { k + 1 };
        assert(r[k] == s[k2]);
    }
}

/// Inserting an entry with a fresh key below the counter keeps the keys
/// distinct and below the counter.
proof fn lemma_insert_keeps_wf(s: Seq<(u64, u64)>, next: u64, pos: int, e: (u64, u64))
    requires
        distinct_keys(s),
        ids_below(s, next),
        0 <= pos <= s.len(),
        !has_key(s, e.0),
        e.0 < next,
    ensures
        distinct_keys(s.insert(pos, e)),
        ids_below(s.insert(pos, e), next),
{
    s.insert_ensures(pos, e);
    let r = s.insert(pos, e);
    assert forall|a: int, b: int| 0 <= a < r.len() && 0 <= b < r.len() && a != b implies r[a].0
        != r[b].0 by {
        if a != pos && b != pos {
            let a2 = if a < pos { a } else { a - 1 };
            let b2 = if b < pos { b } else { b - 1 };
            assert(r[a] == s[a2]);
            assert(r[b] == s[b2]);
        } else if a == pos {
            let b2 = if b < pos { b } else { b - 1 };
            assert(r[b] == s[b2]);
        } else {
            let a2 = if a < pos { a } else { a - 1 };
            assert(r[a] == s[a2]);
        }
    }
    assert forall|k: int| 0 <= k < r.len() implies #[trigger] r[k].0 < next by {
        if k != pos {
            let k2 = if k < pos { k } else { k - 1 };
            assert(r[k] == s[k2]);
        }
    }
}

/// Moving an entry keeps the keys distinct and below the counter.
proof fn lemma_move_keeps_wf(s: Seq<(u64, u64)>, next: u64, from: int, to: int)
    requires
        distinct_keys(s),
        ids_below(s, next),
        0 <= from < s.len(),
        0 <= to < s.len(),
    ensures
        distinct_keys(move_entry(s, from, to)),
        ids_below(move_entry(s, from, to), next),
        move_entry(s, from, to).len() == s.len(),
{
    lemma_remove_keeps_wf(s, next, from);
    lemma_insert_keeps_wf(s.remove(from), next, to, s[from]);
}

/// Moving an entry onto its own index changes nothing.
proof fn lemma_move_in_place(s: Seq<(u64, u64)>, i: int)
    requires
        0 <= i < s.len(),
    ensures
        move_entry(s, i, i) == s,
{
    s.remove_ensures(i);
    s.remove(i).insert_ensures(i, s[i]);
    assert(move_entry(s, i, i) =~= s);
}

/// Swapping two entries keeps the keys distinct and below the counter.
proof fn lemma_swap_keeps_wf(s: Seq<(u64, u64)>, next: u64, a: int, b: int)
    requires
        distinct_keys(s),
        ids_below(s, next),
        0 <= a < s.len(),
        0 <= b < s.len(),
    ensures
        distinct_keys(swap_entries(s, a, b)),
        ids_below(swap_entries(s, a, b), next),
        swap_entries(s, a, b).len() == s.len(),
{
    let r = swap_entries(s, a, b);
    assert forall|x: int, y: int| 0 <= x < r.len() && 0 <= y < r.len() && x != y implies r[x].0
        != r[y].0 by {
        let x2 = if x == b { a } else if x == a { b } else { x };
        let y2 = if y == b { a } else if y == a { b } else { y };
        assert(r[x] == s[x2]);
        assert(r[y] == s[y2]);
    }
    assert forall|k: int| 0 <= k < r.len() implies #[trigger] r[k].0 < next by {
        let k2 = if k == b { a } else if k == a { b } else { k };
        assert(r[k] == s[k2]);
    }
}

/// Commands addressed to a document.
pub enum DocummentCommand {
    Push {},
}

/// The elements of a drawing in paint order: the first entry is drawn
/// first (at the back), the last one is drawn last (in front). Each entry
/// pairs an element's id with the slot where its data is kept.
pub struct Document {
    elements: IndexMap<ElementId, ElementSlot, FxBuildHasher>,
    id_acc: ElementId,
}

impl View for Document {
    type V = Seq<(ElementId, ElementSlot)>;

    closed spec fn view(&self) -> Seq<(ElementId, ElementSlot)> {
        id_map_entries(self.elements)
    }
}

/// The key of the last entry whose flag in `hits` is set, if any; `hits`
/// flags the entries by position.
pub open spec fn topmost_hit(s: Seq<(u64, u64)>, hits: Seq<bool>) -> Option<u64>
    decreases s.len(),
{
    if s.len() == 0 || hits.len() == 0 {
        None
    } else if hits.last() {
        Some(s.last().0)
    } else {
        topmost_hit(s.drop_last(), hits.drop_last())
    }
}

/// Every id of the entries is below `next`.
pub open spec fn ids_below(s: Seq<(u64, u64)>, next: u64) -> bool {
    forall|i: int| 0 <= i < s.len() ==> #[trigger] s[i].0 < next
}

impl Default for Document {
    /// An empty document.
    fn default() -> (d: Self)
        ensures
            d.wf(),
            d@ == Seq::<(ElementId, ElementSlot)>::empty(),
            d.next_id() == 0,
    {
        Document::new()
    }
}

impl Document {
    /// The counter from which the next id is drawn.
    pub closed spec fn next_id(&self) -> ElementId {
        self.id_acc
    }

    /// Ids are distinct and all drawn from the counter.
    pub open spec fn wf(&self) -> bool {
        &&& distinct_keys(self@)
        &&& ids_below(self@, self.next_id())
    }

    /// An empty document.
    pub fn new() -> (d: Self)
        ensures
            d.wf(),
            d@ == Seq::<(ElementId, ElementSlot)>::empty(),
            d.next_id() == 0,
    {
        Document { elements: id_map_new(), id_acc: 0 }
    }

    /// Adds the element kept in `slot` in front of all others, under the
    /// id drawn from the counter, then advances the counter and returns
    /// its new value.
    pub fn push(&mut self, slot: ElementSlot) -> (r: ElementId)
        requires
            old(self).wf(),
            old(self).next_id() < u64::MAX,
        ensures
            final(self).wf(),
            final(self)@ == old(self)@.push((old(self).next_id(), slot)),
            final(self).next_id() == old(self).next_id() + 1,
            r == final(self).next_id(),
    {
        let _ = id_map_insert(&mut self.elements, self.id_acc, slot);
        self.id_acc = self.id_acc + 1;
        self.id_acc
    }

    /// The slot of the element with id `id`, if it is in the document.
    pub fn get(&self, id: ElementId) -> (r: Option<ElementSlot>)
        requires
            self.wf(),
        ensures
            r == value_of(self@, id),
    {
        let r = id_map_get(&self.elements, id);
        proof {
            if let Some(v) = r {
                let i = choose|i: int| 0 <= i < self@.len() && #[trigger] self@[i] == (id, v);
                assert(self@[i].0 == id);
                assert(i == key_index(self@, id));
            }
        }
        r
    }

    /// Whether the element with id `id` is in the document.
    pub fn contains(&self, id: ElementId) -> (r: bool)
        ensures
            r == has_key(self@, id),
    {
        id_map_index_of(&self.elements, id).is_some()
    }

    /// The position of the element with id `id` in paint order, if any.
    pub fn position_of(&self, id: ElementId) -> (r: Option<usize>)
        requires
            self.wf(),
        ensures
            match r {
                Some(p) => has_key(self@, id) && p == key_index(self@, id),
                None => !has_key(self@, id),
            },
    {
        id_map_index_of(&self.elements, id)
    }

    /// The id and slot at position `pos` in paint order, if any.
    pub fn get_by_position(&self, pos: usize) -> (r: Option<(ElementId, ElementSlot)>)
        ensures
            r == (if pos < self@.len() {
                Some(self@[pos as int])
            } else {
                None
            }),
    {
        id_map_get_index(&self.elements, pos)
    }

    /// Moves the element with id `id` to the start of the paint order, where
    /// it is drawn first, under all others.
    /// Returns whether the element is in the document.
    pub fn move_to_front(&mut self, id: ElementId) -> (r: bool)
        requires
            old(self).wf(),
        ensures
            final(self).wf(),
            final(self).next_id() == old(self).next_id(),
            r == has_key(old(self)@, id),
            final(self)@ == moved_to_front(old(self)@, id),
    {
        match id_map_index_of(&self.elements, id) {
            Some(pos) => {
                proof {
                    lemma_move_keeps_wf(self@, self.id_acc, pos as int, 0);
                }
                if pos > 0 {
                    id_map_move_index(&mut self.elements, pos, 0);
                } else {
                    proof {
                        lemma_move_in_place(self@, 0);
                    }
                }
                true
            },
            None => false,
        }
    }

    /// Moves the element with id `id` to the end of the paint order, where
    /// it is drawn last, over all others.
    /// Returns whether the element is in the document.
    pub fn move_to_back(&mut self, id: ElementId) -> (r: bool)
        requires
            old(self).wf(),
        ensures
            final(self).wf(),
            final(self).next_id() == old(self).next_id(),
            r == has_key(old(self)@, id),
            final(self)@ == moved_to_back(old(self)@, id),
    {
        let pos = match id_map_index_of(&self.elements, id) {
            Some(pos) => pos,
            None => {
                return false;
            },
        };
        let last = id_map_len(&self.elements) - 1;
        proof {
            lemma_move_keeps_wf(self@, self.id_acc, pos as int, last as int);
        }
        if pos < last {
            id_map_move_index(&mut self.elements, pos, last);
        } else {
            proof {
                lemma_move_in_place(self@, last as int);
            }
        }
        true
    }

    /// Swaps the element with id `id` with the one just after it in paint
    /// order (drawn one step later). Returns whether it moved: false when
    /// the element is absent or already last.
    pub fn move_up(&mut self, id: ElementId) -> (r: bool)
        requires
            old(self).wf(),
        ensures
            final(self).wf(),
            final(self).next_id() == old(self).next_id(),
            r == (has_key(old(self)@, id) && key_index(old(self)@, id) + 1 < old(self)@.len()),
            final(self)@ == moved_up(old(self)@, id),
    {
        let n = id_map_len(&self.elements);
        if let Some(pos) = id_map_index_of(&self.elements, id) {
            if pos + 1 < n {
                proof {
                    lemma_swap_keeps_wf(self@, self.id_acc, pos as int, pos + 1);
                }
                id_map_swap_indices(&mut self.elements, pos, pos + 1);
                return true;
            }
        }
        false
    }

    /// Swaps the element with id `id` with the one just before it in paint
    /// order (drawn one step earlier). Returns whether it moved: false when
    /// the element is absent or already first.
    pub fn move_down(&mut self, id: ElementId) -> (r: bool)
        requires
            old(self).wf(),
        ensures
            final(self).wf(),
            final(self).next_id() == old(self).next_id(),
            r == (has_key(old(self)@, id) && key_index(old(self)@, id) > 0),
            final(self)@ == moved_down(old(self)@, id),
    {
        if let Some(pos) = id_map_index_of(&self.elements, id) {
            if pos > 0 {
                proof {
                    lemma_swap_keeps_wf(self@, self.id_acc, pos as int, pos - 1);
                }
                id_map_swap_indices(&mut self.elements, pos, pos - 1);
                return true;
            }
        }
        false
    }

    /// Removes the element with id `id`, keeping the order of the others,
    /// and returns its slot, if it was in the document.
    pub fn remove(&mut self, id: ElementId) -> (r: Option<ElementSlot>)
        requires
            old(self).wf(),
        ensures
            final(self).wf(),
            final(self).next_id() == old(self).next_id(),
            r == value_of(old(self)@, id),
            final(self)@ == removed(old(self)@, id),
    {
        proof {
            if has_key(self@, id) {
                lemma_remove_keeps_wf(self@, self.id_acc, key_index(self@, id));
            }
        }
        id_map_shift_remove(&mut self.elements, id)
    }

    /// Applies `change` to the element with id `id`.
    pub(crate) fn apply_change(&mut self, change: OrderChange, id: ElementId)
        requires
            old(self).wf(),
        ensures
            final(self).wf(),
            final(self).next_id() == old(self).next_id(),
            final(self)@ == changed(old(self)@, change, id),
    {
        match change {
            OrderChange::ToFront => {
                self.move_to_front(id);
            },
            OrderChange::ToBack => {
                self.move_to_back(id);
            },
            OrderChange::Up => {
                self.move_up(id);
            },
            OrderChange::Down => {
                self.move_down(id);
            },
            OrderChange::Remove => {
                self.remove(id);
            },
        }
    }

    /// The topmost element that is hit: the one drawn last among those
    /// whose position `i` has `hits[i]`, if any.
    pub fn hit_test(&self, hits: &Vec<bool>) -> (r: Option<ElementId>)
        requires
            hits.len() == self@.len(),
        ensures
            r == topmost_hit(self@, hits@),
    {
        let mut i = id_map_len(&self.elements);
        assert(self@.take(i as int) =~= self@);
        assert(hits@.take(i as int) =~= hits@);
        while i > 0
            invariant
                i <= self@.len(),
                hits.len() == self@.len(),
                topmost_hit(self@, hits@) == topmost_hit(self@.take(i as int), hits@.take(i as int)),
            decreases i,
        {
            let j = i - 1;
            assert(self@.take(i as int).drop_last() =~= self@.take(j as int));
            assert(hits@.take(i as int).drop_last() =~= hits@.take(j as int));
            if hits[j] {
                if let Some((id, _)) = id_map_get_index(&self.elements, j) {
                    return Some(id);
                }
            }
            i = j;
        }
        None
    }

    /// The ids and slots of the elements, in paint order.
    pub fn iter(&self) -> (r: Vec<(ElementId, ElementSlot)>)
        ensures
            r@ == self@,
    {
        let n = id_map_len(&self.elements);
        let mut r: Vec<(ElementId, ElementSlot)> = Vec::new();
        let mut i: usize = 0;
        while i < n
            invariant
                i <= n,
                n == self@.len(),
                r@ == self@.take(i as int),
            decreases n - i,
        {
            if let Some(entry) = id_map_get_index(&self.elements, i) {
                r.push(entry);
            }
            assert(self@.take(i + 1) =~= self@.take(i as int).push(self@[i as int]));
            i = i + 1;
        }
        assert(self@.take(n as int) =~= self@);
        r
    }

    /// The slots of the elements, in paint order.
    pub fn values(&self) -> (r: Vec<ElementSlot>)
        ensures
            r@ == self@.map_values(|e: (ElementId, ElementSlot)| e.1),
    {
        let n = id_map_len(&self.elements);
        let mut r: Vec<ElementSlot> = Vec::new();
        let mut i: usize = 0;
        while i < n
            invariant
                i <= n,
                n == self@.len(),
                r@ == self@.take(i as int).map_values(|e: (ElementId, ElementSlot)| e.1),
            decreases n - i,
        {
            if let Some(entry) = id_map_get_index(&self.elements, i) {
                r.push(entry.1);
            }
            assert(self@.take(i + 1).map_values(|e: (ElementId, ElementSlot)| e.1) =~= self@.take(
                i as int,
            ).map_values(|e: (ElementId, ElementSlot)| e.1).push(self@[i as int].1));
            i = i + 1;
        }
        assert(self@.take(n as int) =~= self@);
        r
    }

    /// The number of elements.
    pub fn len(&self) -> (n: usize)
        ensures
            n == self@.len(),
    {
        id_map_len(&self.elements)
    }

    /// Whether the document holds no element.
    pub fn is_empty(&self) -> (r: bool)
        ensures
            r == (self@.len() == 0),
    {
        id_map_len(&self.elements) == 0
    }

    /// Removes every element; the id counter goes on from where it was.
    pub fn clear(&mut self)
        requires
            old(self).wf(),
        ensures
            final(self).wf(),
            final(self)@ == Seq::<(ElementId, ElementSlot)>::empty(),
            final(self).next_id() == old(self).next_id(),
    {
        id_map_clear(&mut self.elements)
    }
}

/// Pushing stores the slot under the id that the counter held before the
/// push; the id that `push` returns is the advanced counter, under which
/// nothing is stored yet.
pub proof fn law_push_then_get(d: Document, slot: ElementSlot)
    requires
        d.wf(),
        d.next_id() < u64::MAX,
    ensures
        value_of(d@.push((d.next_id(), slot)), d.next_id()) == Some(slot),
        !has_key(d@.push((d.next_id(), slot)), (d.next_id() + 1) as u64),
{
    let s = d@.push((d.next_id(), slot));
    let n = s.len() - 1;
    assert(s[n].0 == d.next_id());
    let k = key_index(s, d.next_id());
    if k != n {
        assert(d@[k].0 < d.next_id());
    }
    if has_key(s, (d.next_id() + 1) as u64) {
        let j = choose|j: int| 0 <= j < s.len() && #[trigger] s[j].0 == (d.next_id() + 1) as u64;
        if j < n {
            assert(d@[j].0 < d.next_id());
        }
    }
}

/// Reordering never adds, drops or changes an entry: the document holds
/// the same entries, each as often, before and after.
pub proof fn law_reorder_keeps_entries(d: Document, id: ElementId)
    requires
        d.wf(),
    ensures
        moved_to_front(d@, id).to_multiset() == d@.to_multiset(),
        moved_to_back(d@, id).to_multiset() == d@.to_multiset(),
        moved_up(d@, id).to_multiset() == d@.to_multiset(),
        moved_down(d@, id).to_multiset() == d@.to_multiset(),
{
    broadcast use vstd::multiset::group_multiset_axioms;

    let s = d@;
    if has_key(s, id) {
        let k = key_index(s, id);
        s.to_multiset_ensures();
        assert(s.to_multiset().count(s[k]) > 0) by {
            assert(s.contains(s[k]));
        }
        vstd::seq_lib::to_multiset_remove(s, k);
        vstd::seq_lib::to_multiset_insert(s.remove(k), 0, s[k]);
        vstd::seq_lib::to_multiset_insert(s.remove(k), s.len() - 1, s[k]);
        assert(move_entry(s, k, 0).to_multiset() =~= s.to_multiset());
        assert(move_entry(s, k, s.len() - 1).to_multiset() =~= s.to_multiset());
        if k + 1 < s.len() {
            lemma_swap_keeps_multiset(s, k, k + 1);
        }
        if k > 0 {
            lemma_swap_keeps_multiset(s, k, k - 1);
        }
    }
}

/// Swapping two entries keeps the multiset of entries.
proof fn lemma_swap_keeps_multiset(s: Seq<(u64, u64)>, a: int, b: int)
    requires
        0 <= a < s.len(),
        0 <= b < s.len(),
        a != b,
    ensures
        swap_entries(s, a, b).to_multiset() == s.to_multiset(),
{
    broadcast use vstd::multiset::group_multiset_axioms;

    let t = s.update(a, s[b]);
    vstd::seq_lib::to_multiset_update(s, a, s[b]);
    vstd::seq_lib::to_multiset_update(t, b, s[a]);
    assert(t[b] == s[b]);
    s.to_multiset_ensures();
    assert(s.to_multiset().count(s[a]) > 0) by {
        assert(s.contains(s[a]));
    }
    assert(s.to_multiset().insert(s[b]).remove(s[a]).count(s[b]) > 0);
    assert(swap_entries(s, a, b).to_multiset() =~= s.to_multiset());
}

/// `move_to_front` puts an element first in paint order (index 0) and
/// `move_to_back` puts it last.
pub proof fn law_move_to_front_and_back_positions(d: Document, id: ElementId)
    requires
        d.wf(),
        has_key(d@, id),
    ensures
        has_key(moved_to_front(d@, id), id),
        key_index(moved_to_front(d@, id), id) == 0,
        has_key(moved_to_back(d@, id), id),
        key_index(moved_to_back(d@, id), id) == d@.len() - 1,
{
    let s = d@;
    let k = key_index(s, id);
    lemma_move_keeps_wf(s, d.next_id(), k, 0);
    lemma_move_keeps_wf(s, d.next_id(), k, s.len() - 1);
    s.remove_ensures(k);
    s.remove(k).insert_ensures(0, s[k]);
    s.remove(k).insert_ensures(s.len() - 1, s[k]);
    let f = moved_to_front(s, id);
    let b = moved_to_back(s, id);
    assert(f[0].0 == id);
    assert(b[s.len() - 1].0 == id);
}

/// `move_up` followed by `move_down` gives back the order there was, and so
/// does the converse, whenever the first step moved.
pub proof fn law_move_up_then_down_restores(d: Document, id: ElementId)
    requires
        d.wf(),
        has_key(d@, id),
    ensures
        key_index(d@, id) + 1 < d@.len() ==> moved_down(moved_up(d@, id), id) == d@,
        key_index(d@, id) > 0 ==> moved_up(moved_down(d@, id), id) == d@,
{
    let s = d@;
    let k = key_index(s, id);
    if k + 1 < s.len() {
        lemma_swap_keeps_wf(s, d.next_id(), k, k + 1);
        let t = swap_entries(s, k, k + 1);
        assert(t[k + 1].0 == id);
        assert(key_index(t, id) == k + 1);
        assert(moved_down(t, id) =~= s);
    }
    if k > 0 {
        lemma_swap_keeps_wf(s, d.next_id(), k, k - 1);
        let t = swap_entries(s, k, k - 1);
        assert(t[k - 1].0 == id);
        assert(key_index(t, id) == k - 1);
        assert(moved_up(t, id) =~= s);
    }
}

/// After a removal the element is gone and the document is one entry
/// shorter when it was there.
pub proof fn law_remove_then_absent(d: Document, id: ElementId)
    requires
        d.wf(),
    ensures
        !has_key(removed(d@, id), id),
        removed(d@, id).len() == if has_key(d@, id) {
            d@.len() - 1
        } else {
            d@.len() as int
        },
{
    if has_key(d@, id) {
        lemma_remove_keeps_wf(d@, d.next_id(), key_index(d@, id));
    }
}

/// The hit test finds the element drawn last among those hit: it is hit,
/// and none after it is; when it finds none, no element is hit.
pub proof fn law_hit_is_topmost(s: Seq<(u64, u64)>, hits: Seq<bool>)
    requires
        hits.len() == s.len(),
    ensures
        topmost_hit(s, hits) is None <==> forall|j: int| 0 <= j < s.len() ==> !hits[j],
        topmost_hit(s, hits) matches Some(id) ==> exists|i: int|
            0 <= i < s.len() && s[i].0 == id && hits[i] && forall|j: int|
                i < j < s.len() ==> !hits[j],
    decreases s.len(),
{
    if s.len() > 0 {
        let n = s.len() - 1;
        if hits.last() {
            assert(s[n].0 == s.last().0 && hits[n]);
        } else {
            law_hit_is_topmost(s.drop_last(), hits.drop_last());
            assert forall|j: int| 0 <= j < n implies hits[j] == hits.drop_last()[j] by {}
            if let Some(id) = topmost_hit(s, hits) {
                let i = choose|i: int|
                    0 <= i < n && s.drop_last()[i].0 == id && hits.drop_last()[i] && forall|j: int|
                        i < j < n ==> !hits.drop_last()[j];
                assert(s[i].0 == id && hits[i]);
                assert forall|j: int| i < j < s.len() implies !hits[j] by {
                    if j < n {
                        assert(!hits.drop_last()[j]);
                    }
                }
            }
        }
    }
}

/// With distinct keys, the entry at `k` is the one `key_index` finds.
proof fn lemma_key_index_of(s: Seq<(u64, u64)>, k: int)
    requires
        distinct_keys(s),
        0 <= k < s.len(),
    ensures
        has_key(s, s[k].0),
        key_index(s, s[k].0) == k,
{
    assert(s[k].0 == s[k].0);
}

/// Removing the element at position `k` leaves every other element in the
/// order it had: those before `k` stay where they were, those after it
/// move one place down, and nothing else changes.
pub proof fn law_remove_keeps_others_in_order(s: Seq<(u64, u64)>, k: int)
    requires
        distinct_keys(s),
        0 <= k < s.len(),
    ensures
        removed(s, s[k].0).len() == s.len() - 1,
        forall|i: int| 0 <= i < k ==> #[trigger] removed(s, s[k].0)[i] == s[i],
        forall|i: int| k <= i < s.len() - 1 ==> #[trigger] removed(s, s[k].0)[i] == s[i + 1],
{
    lemma_key_index_of(s, k);
}

/// Removing `x` from entries with distinct keys keeps them distinct, drops
/// `x`, and keeps every other key that was there and no other.
proof fn lemma_removed_keys(t: Seq<(u64, u64)>, x: u64)
    requires
        distinct_keys(t),
    ensures
        distinct_keys(removed(t, x)),
        !has_key(removed(t, x), x),
        forall|y: u64| y != x ==> (has_key(removed(t, x), y) <==> has_key(t, y)),
{
    if has_key(t, x) {
        let i = key_index(t, x);
        let r = t.remove(i);
        t.remove_ensures(i);
        assert forall|a: int, b: int| 0 <= a < r.len() && 0 <= b < r.len() && a != b implies r[a].0
            != r[b].0 by {
            let a2 = if a < i { a } else { a + 1 };
            let b2 = if b < i { b } else { b + 1 };
            assert(r[a] == t[a2]);
            assert(r[b] == t[b2]);
        }
        if has_key(r, x) {
            let k = choose|k: int| 0 <= k < r.len() && #[trigger] r[k].0 == x;
            let k2 = if k < i { k } else { k + 1 };
            assert(r[k] == t[k2]);
        }
        assert forall|y: u64| y != x implies (has_key(r, y) <==> has_key(t, y)) by {
            if has_key(r, y) {
                let k = choose|k: int| 0 <= k < r.len() && #[trigger] r[k].0 == y;
                let k2 = if k < i { k } else { k + 1 };
                assert(r[k] == t[k2]);
            }
            if has_key(t, y) {
                let k = choose|k: int| 0 <= k < t.len() && #[trigger] t[k].0 == y;
                assert(k != i);
                let k2 = if k < i { k } else { k - 1 };
                assert(r[k2] == t[k]);
            }
        }
    }
}

/// Removing each id of `ids` in turn drops every one of them and keeps
/// every other element that was there.
pub proof fn law_remove_each_drops_exactly(s: Seq<(u64, u64)>, ids: Seq<u64>)
    requires
        distinct_keys(s),
    ensures
        distinct_keys(changed_each(s, OrderChange::Remove, ids)),
        forall|j: int| 0 <= j < ids.len() ==> !has_key(changed_each(s, OrderChange::Remove, ids), #[trigger] ids[j]),
        forall|y: u64| !ids.contains(y) ==> (has_key(changed_each(s, OrderChange::Remove, ids), y) <==> has_key(s, y)),
    decreases ids.len(),
{
    if ids.len() > 0 {
        let prev = ids.drop_last();
        law_remove_each_drops_exactly(s, prev);
        let t = changed_each(s, OrderChange::Remove, prev);
        lemma_removed_keys(t, ids.last());
        assert forall|j: int| 0 <= j < ids.len() implies !has_key(changed_each(s, OrderChange::Remove, ids), #[trigger] ids[j]) by {
            if j < ids.len() - 1 {
                assert(ids[j] == prev[j]);
            }
        }
        assert forall|y: u64| !ids.contains(y) implies (has_key(changed_each(s, OrderChange::Remove, ids), y) <==> has_key(s, y)) by {
            assert(y != ids[ids.len() - 1]);
            if prev.contains(y) {
                let j = choose|j: int| 0 <= j < prev.len() && prev[j] == y;
                assert(ids[j] == y);
            }
        }
    }
}

} // verus!
