//! Binding remap table.
//!
//! The immediate-mode backend has no notion of descriptor sets, so abstract
//! `(set, binding)` pairs are flattened to native binding slots, numbered
//! globally per resource class.  Shader translation and descriptor-binding
//! application both read from one table and therefore can never disagree on
//! slot assignment.

use vstd::prelude::*;

verus! {

/// Resource classes whose flat native slots are numbered independently.
#[derive(Clone, Copy, Debug, PartialEq, Eq, Structural, Hash)]
pub enum BindingTypes {
    Images,
    UniformBuffers,
}

/// Abstract key of one descriptor binding: resource class, set index,
/// set-relative binding number.
pub type RemapKey = (BindingTypes, u16, u32);

/// One recorded binding: the flat slots assigned to a `(class, set, binding)`
/// key.  A single descriptor binding may fan out to several flat slots
/// (an array of resources), hence a list.
struct BindingEntry {
    ty: BindingTypes,
    set: u16,
    binding: u32,
    slots: Vec<u32>,
}

/// Mathematical state of the table: recorded slot lists per key, and the
/// next free slot per resource class.
pub struct RemapModel {
    pub slots: Map<RemapKey, Seq<nat>>,
    pub next_images: nat,
    pub next_uniform_buffers: nat,
}

impl RemapModel {
    /// The next slot the given class would hand out.
    pub open spec fn next_slot(self, ty: BindingTypes) -> nat {
        match ty {
            BindingTypes::Images => self.next_images,
            BindingTypes::UniformBuffers => self.next_uniform_buffers,
        }
    }

    pub open spec fn with_next_slot(self, ty: BindingTypes, n: nat) -> RemapModel {
        match ty {
            BindingTypes::Images => RemapModel { next_images: n, ..self },
            BindingTypes::UniformBuffers => RemapModel { next_uniform_buffers: n, ..self },
        }
    }

    /// Slot list recorded for a key; empty if the key was never inserted.
    pub open spec fn slots_of(self, ty: BindingTypes, set: u16, binding: u32) -> Seq<nat> {
        if self.slots.dom().contains((ty, set, binding)) {
            self.slots[(ty, set, binding)]
        } else {
            Seq::empty()
        }
    }

    /// Effect of reserving one slot of a class: the counter advances, the
    /// recorded lists are untouched.
    pub open spec fn reserve_step(self, ty: BindingTypes) -> RemapModel {
        self.with_next_slot(ty, self.next_slot(ty) + 1)
    }

    /// Effect of appending slot `nb` to the list recorded for a key.
    pub open spec fn insert_step(self, nb: nat, ty: BindingTypes, set: u16, binding: u32) -> RemapModel {
        RemapModel {
            slots: self.slots.insert((ty, set, binding), self.slots_of(ty, set, binding).push(nb)),
            ..self
        }
    }

    /// Effect of reserve-then-insert: the freshly reserved slot is appended.
    pub open spec fn spare_step(self, ty: BindingTypes, set: u16, binding: u32) -> RemapModel {
        self.reserve_step(ty).insert_step(self.next_slot(ty), ty, set, binding)
    }
}

/// Stores where the descriptor bindings have been remapped to.
pub struct DescRemapData {
    bindings: Vec<BindingEntry>,
    next_images: u32,
    next_uniform_buffers: u32,
}

spec fn key_of(e: BindingEntry) -> RemapKey {
    (e.ty, e.set, e.binding)
}

/// A concrete slot list, read as mathematical numbers.
pub open spec fn nat_slots(v: Seq<u32>) -> Seq<nat> {
    v.map(|i: int, x: u32| x as nat)
}

/// The recorded lists of an entry sequence, as a map.  Later entries shadow
/// earlier ones with the same key; the table keeps keys distinct, so the
/// order never matters.
spec fn entries_map(s: Seq<BindingEntry>) -> Map<RemapKey, Seq<nat>>
    decreases s.len(),
{
    if s.len() == 0 {
        Map::empty()
    } else {
        entries_map(s.drop_last()).insert(key_of(s.last()), nat_slots(s.last().slots@))
    }
}

spec fn keys_distinct(s: Seq<BindingEntry>) -> bool {
    forall|i: int, j: int| 0 <= i < j < s.len() ==> key_of(s[i]) != key_of(s[j])
}

proof fn lemma_entries_map_dom(s: Seq<BindingEntry>)
    ensures
        forall|k: RemapKey|
            entries_map(s).dom().contains(k) <==> exists|i: int| 0 <= i < s.len() && key_of(#[trigger] s[i]) == k,
    decreases s.len(),
{
    if s.len() > 0 {
        lemma_entries_map_dom(s.drop_last());
        assert forall|k: RemapKey| entries_map(s).dom().contains(k)
            implies exists|i: int| 0 <= i < s.len() && key_of(#[trigger] s[i]) == k by {
            if k == key_of(s.last()) {
                assert(key_of(s[s.len() - 1]) == k);
            } else {
                assert(entries_map(s.drop_last()).dom().contains(k));
                let i = choose|i: int| 0 <= i < s.drop_last().len() && key_of(#[trigger] s.drop_last()[i]) == k;
                assert(0 <= i < s.drop_last().len());
                assert(s.drop_last()[i] == s[i]);
                assert(key_of(s[i]) == k);
            }
        }
        assert forall|k: RemapKey| (exists|i: int| 0 <= i < s.len() && key_of(#[trigger] s[i]) == k)
            implies entries_map(s).dom().contains(k) by {
            let i = choose|i: int| 0 <= i < s.len() && key_of(#[trigger] s[i]) == k;
            if i < s.len() - 1 {
                assert(s.drop_last()[i] == s[i]);
            }
        }
    }
}

proof fn lemma_entries_map_index(s: Seq<BindingEntry>, i: int)
    requires
        keys_distinct(s),
        0 <= i < s.len(),
    ensures
        entries_map(s).dom().contains(key_of(s[i])),
        entries_map(s)[key_of(s[i])] == nat_slots(s[i].slots@),
    decreases s.len(),
{
    if i == s.len() - 1 {
        assert(s.last() == s[i]);
    } else {
        assert(keys_distinct(s.drop_last()));
        assert(s.drop_last()[i] == s[i]);
        lemma_entries_map_index(s.drop_last(), i);
        assert(key_of(s.last()) != key_of(s[i]));
    }
}

proof fn lemma_entries_map_update(s: Seq<BindingEntry>, i: int, e: BindingEntry)
    requires
        keys_distinct(s),
        0 <= i < s.len(),
        key_of(e) == key_of(s[i]),
    ensures
        entries_map(s.update(i, e)) == entries_map(s).insert(key_of(e), nat_slots(e.slots@)),
    decreases s.len(),
{
    let s2 = s.update(i, e);
    if i == s.len() - 1 {
        assert(s2.drop_last() =~= s.drop_last());
        assert(s2.last() == e);
        assert(entries_map(s2) =~= entries_map(s).insert(key_of(e), nat_slots(e.slots@)));
    } else {
        assert(keys_distinct(s.drop_last()));
        assert(s.drop_last()[i] == s[i]);
        lemma_entries_map_update(s.drop_last(), i, e);
        assert(s2.drop_last() =~= s.drop_last().update(i, e));
        assert(s2.last() == s.last());
        assert(key_of(s.last()) != key_of(e));
        assert(entries_map(s2) =~= entries_map(s).insert(key_of(e), nat_slots(e.slots@)));
    }
}

proof fn lemma_entries_map_push(s: Seq<BindingEntry>, e: BindingEntry)
    ensures
        entries_map(s.push(e)) == entries_map(s).insert(key_of(e), nat_slots(e.slots@)),
{
    assert(s.push(e).drop_last() =~= s);
    assert(s.push(e).last() == e);
}

impl View for DescRemapData {
    type V = RemapModel;

    closed spec fn view(&self) -> RemapModel {
        RemapModel {
            slots: entries_map(self.bindings@),
            next_images: self.next_images as nat,
            next_uniform_buffers: self.next_uniform_buffers as nat,
        }
    }
}

impl DescRemapData {
    /// Internal consistency: one entry per key.
    pub closed spec fn wf(&self) -> bool {
        keys_distinct(self.bindings@)
    }

    /// A fresh table: nothing recorded, every class starts at slot `0`.
    pub fn new() -> (r: DescRemapData)
        ensures
            r.wf(),
            r@.slots == Map::<RemapKey, Seq<nat>>::empty(),
            r@.next_images == 0,
            r@.next_uniform_buffers == 0,
    {
        DescRemapData { bindings: Vec::new(), next_images: 0, next_uniform_buffers: 0 }
    }

    /// First index whose entry matches the key, if any.
    fn find_entry(&self, ty: BindingTypes, set: u16, binding: u32) -> (r: Option<usize>)
        requires
            self.wf(),
        ensures
            match r {
                Some(i) => i < self.bindings@.len() && key_of(self.bindings@[i as int]) == (ty, set, binding),
                None => forall|i: int| 0 <= i < self.bindings@.len() ==> key_of(#[trigger] self.bindings@[i]) != (ty, set, binding),
            },
    {
        let n = self.bindings.len();
        let mut i: usize = 0;
        while i < n
            invariant
                i <= n,
                n == self.bindings@.len(),
                forall|j: int| 0 <= j < i ==> key_of(#[trigger] self.bindings@[j]) != (ty, set, binding),
            decreases n - i,
        {
            let e = &self.bindings[i];
            if e.ty == ty && e.set == set && e.binding == binding {
                return Some(i);
            }
            i = i + 1;
        }
        None
    }

    /// Returns the next unused slot for the class and advances its counter.
    ///
    /// Slots are global per resource class, not per set: successive reserves
    /// of one class hand out strictly increasing, never reused numbers.
    pub fn reserve_binding(&mut self, btype: BindingTypes) -> (nb: u32)
        requires
            old(self).wf(),
            old(self)@.next_slot(btype) < u32::MAX,
        ensures
            final(self).wf(),
            nb as nat == old(self)@.next_slot(btype),
            final(self)@ == old(self)@.reserve_step(btype),
    {
        match btype {
            BindingTypes::Images => {
                let nb = self.next_images;
                self.next_images = nb + 1;
                nb
            },
            BindingTypes::UniformBuffers => {
                let nb = self.next_uniform_buffers;
                self.next_uniform_buffers = nb + 1;
                nb
            },
        }
    }

    /// Appends `nb` to the slot list recorded for `(btype, set, binding)` and
    /// returns the resulting list.  The class counters are untouched.
    pub fn insert_missing_binding(&mut self, nb: u32, btype: BindingTypes, set: u16, binding: u32) -> (r: Vec<u32>)
        requires
            old(self).wf(),
        ensures
            final(self).wf(),
            final(self)@ == old(self)@.insert_step(nb as nat, btype, set, binding),
            nat_slots(r@) == final(self)@.slots_of(btype, set, binding),
    {
        let found = self.find_entry(btype, set, binding);
        match found {
            Some(i) => {
                let entry = &mut self.bindings[i];
                entry.slots.push(nb);
                proof {
                    assert(self.bindings@ =~= old(self).bindings@.update(
                        i as int,
                        self.bindings@[i as int],
                    ));
                    lemma_entries_map_index(old(self).bindings@, i as int);
                    lemma_entries_map_update(old(self).bindings@, i as int, self.bindings@[i as int]);
                    assert(nat_slots(self.bindings@[i as int].slots@) =~= nat_slots(
                        old(self).bindings@[i as int].slots@,
                    ).push(nb as nat));
                    lemma_entries_map_index(self.bindings@, i as int);
                }
                copy_slots(&self.bindings[i].slots)
            },
            None => {
                let mut slots: Vec<u32> = Vec::new();
                slots.push(nb);
                let r = copy_slots(&slots);
                let entry = BindingEntry { ty: btype, set, binding, slots };
                proof {
                    lemma_entries_map_dom(old(self).bindings@);
                    lemma_entries_map_push(old(self).bindings@, entry);
                    assert(nat_slots(entry.slots@) =~= Seq::<nat>::empty().push(nb as nat));
                    assert(old(self)@.slots_of(btype, set, binding) =~= Seq::<nat>::empty());
                }
                self.bindings.push(entry);
                proof {
                    lemma_entries_map_index(self.bindings@, self.bindings@.len() - 1);
                    assert forall|i: int, j: int| 0 <= i < j < self.bindings@.len()
                        implies key_of(self.bindings@[i]) != key_of(self.bindings@[j]) by {
                        if j < self.bindings@.len() - 1 {
                            assert(self.bindings@[i] == old(self).bindings@[i]);
                            assert(self.bindings@[j] == old(self).bindings@[j]);
                        } else {
                            assert(self.bindings@[i] == old(self).bindings@[i]);
                        }
                    }
                }
                r
            },
        }
    }

    /// Reserves the next slot of the class and records it for the key in one
    /// step, returning the resulting slot list.
    pub fn insert_missing_binding_into_spare(&mut self, btype: BindingTypes, set: u16, binding: u32) -> (r: Vec<u32>)
        requires
            old(self).wf(),
            old(self)@.next_slot(btype) < u32::MAX,
        ensures
            final(self).wf(),
            final(self)@ == old(self)@.spare_step(btype, set, binding),
            nat_slots(r@) == final(self)@.slots_of(btype, set, binding),
    {
        let nb = self.reserve_binding(btype);
        self.insert_missing_binding(nb, btype, set, binding)
    }

    /// The slot list recorded for a key, or `None` if the key was never
    /// inserted.
    pub fn get_binding(&self, btype: BindingTypes, set: u16, binding: u32) -> (r: Option<&Vec<u32>>)
        requires
            self.wf(),
        ensures
            match r {
                Some(v) => self@.slots.dom().contains((btype, set, binding))
                    && nat_slots(v@) == self@.slots_of(btype, set, binding),
                None => !self@.slots.dom().contains((btype, set, binding)),
            },
    {
        proof {
            lemma_entries_map_dom(self.bindings@);
        }
        let found = self.find_entry(btype, set, binding);
        match found {
            Some(i) => {
                proof {
                    lemma_entries_map_index(self.bindings@, i as int);
                }
                Some(&self.bindings[i].slots)
            },
            None => None,
        }
    }
}

/// One operation on the table, for stating laws about whole call sequences.
pub enum RemapOp {
    Reserve(BindingTypes),
    InsertIntoSpare(BindingTypes, u16, u32),
    Insert(u32, BindingTypes, u16, u32),
}

/// Effect of one operation on the mathematical state.
pub open spec fn op_step(m: RemapModel, op: RemapOp) -> RemapModel {
    match op {
        RemapOp::Reserve(ty) => m.reserve_step(ty),
        RemapOp::InsertIntoSpare(ty, set, binding) => m.spare_step(ty, set, binding),
        RemapOp::Insert(nb, ty, set, binding) => m.insert_step(nb as nat, ty, set, binding),
    }
}

/// State after a whole sequence of operations.
pub open spec fn run_ops(m: RemapModel, ops: Seq<RemapOp>) -> RemapModel
    decreases ops.len(),
{
    if ops.len() == 0 {
        m
    } else {
        run_ops(op_step(m, ops[0]), ops.drop_first())
    }
}

/// Does this operation allocate a fresh slot of the given class?
pub open spec fn allocates(op: RemapOp, ty: BindingTypes) -> bool {
    match op {
        RemapOp::Reserve(t) => t == ty,
        RemapOp::InsertIntoSpare(t, _, _) => t == ty,
        RemapOp::Insert(_, _, _, _) => false,
    }
}

/// The slots handed out to callers by the allocating operations of one
/// class, in call order.
pub open spec fn slots_granted(m: RemapModel, ops: Seq<RemapOp>, ty: BindingTypes) -> Seq<nat>
    decreases ops.len(),
{
    if ops.len() == 0 {
        Seq::empty()
    } else {
        let rest = slots_granted(op_step(m, ops[0]), ops.drop_first(), ty);
        if allocates(ops[0], ty) {
            seq![m.next_slot(ty)] + rest
        } else {
            rest
        }
    }
}

proof fn lemma_op_step_next_monotone(m: RemapModel, op: RemapOp, ty: BindingTypes)
    ensures
        op_step(m, op).next_slot(ty) >= m.next_slot(ty),
        allocates(op, ty) ==> op_step(m, op).next_slot(ty) == m.next_slot(ty) + 1,
{
}

/// For any sequence of table operations, the slots handed out for one
/// resource class are strictly increasing — hence unique, and never
/// reused or renumbered once assigned.
pub proof fn lemma_granted_slots_strictly_increasing(m: RemapModel, ops: Seq<RemapOp>, ty: BindingTypes)
    ensures
        forall|i: int| 0 <= i < slots_granted(m, ops, ty).len()
            ==> #[trigger] slots_granted(m, ops, ty)[i] >= m.next_slot(ty),
        forall|i: int, j: int| 0 <= i < j < slots_granted(m, ops, ty).len()
            ==> #[trigger] slots_granted(m, ops, ty)[i] < #[trigger] slots_granted(m, ops, ty)[j],
    decreases ops.len(),
{
    if ops.len() > 0 {
        let m1 = op_step(m, ops[0]);
        let rest = slots_granted(m1, ops.drop_first(), ty);
        lemma_granted_slots_strictly_increasing(m1, ops.drop_first(), ty);
        lemma_op_step_next_monotone(m, ops[0], ty);
        let whole = slots_granted(m, ops, ty);
        if allocates(ops[0], ty) {
            assert(whole == seq![m.next_slot(ty)] + rest);
            assert(whole[0] == m.next_slot(ty));
            assert forall|i: int, j: int| 0 <= i < j < whole.len()
                implies #[trigger] whole[i] < #[trigger] whole[j] by {
                if i == 0 {
                    assert(whole[j] == rest[j - 1]);
                    assert(rest[j - 1] >= m1.next_slot(ty));
                } else {
                    assert(whole[i] == rest[i - 1]);
                    assert(whole[j] == rest[j - 1]);
                }
            }
        }
    }
}

/// The slots a class hands out are pairwise distinct.
pub proof fn lemma_granted_slots_unique(m: RemapModel, ops: Seq<RemapOp>, ty: BindingTypes)
    ensures
        forall|i: int, j: int|
            0 <= i < slots_granted(m, ops, ty).len() && 0 <= j < slots_granted(m, ops, ty).len() && i != j
                ==> #[trigger] slots_granted(m, ops, ty)[i] != #[trigger] slots_granted(m, ops, ty)[j],
{
    lemma_granted_slots_strictly_increasing(m, ops, ty);
}

/// After appending slot `nb` for a key, the list recorded for that key
/// includes `nb`.
pub proof fn lemma_insert_recorded(m: RemapModel, nb: nat, ty: BindingTypes, set: u16, binding: u32)
    ensures
        m.insert_step(nb, ty, set, binding).slots_of(ty, set, binding).contains(nb),
{
    let s = m.insert_step(nb, ty, set, binding).slots_of(ty, set, binding);
    assert(s == m.slots_of(ty, set, binding).push(nb));
    assert(s[s.len() - 1] == nb);
}

/// The class counter never runs backwards over a whole call sequence.
pub proof fn lemma_run_ops_next_monotone(m: RemapModel, ops: Seq<RemapOp>, ty: BindingTypes)
    ensures
        run_ops(m, ops).next_slot(ty) >= m.next_slot(ty),
    decreases ops.len(),
{
    if ops.len() > 0 {
        let m1 = op_step(m, ops[0]);
        lemma_op_step_next_monotone(m, ops[0], ty);
        lemma_run_ops_next_monotone(m1, ops.drop_first(), ty);
    }
}

/// Every slot a class handed out lies below the class counter left behind:
/// a later reserve can never hand one of them out again.
pub proof fn lemma_granted_slots_below_final(m: RemapModel, ops: Seq<RemapOp>, ty: BindingTypes)
    ensures
        forall|i: int| 0 <= i < slots_granted(m, ops, ty).len()
            ==> #[trigger] slots_granted(m, ops, ty)[i] < run_ops(m, ops).next_slot(ty),
    decreases ops.len(),
{
    if ops.len() > 0 {
        let m1 = op_step(m, ops[0]);
        lemma_granted_slots_below_final(m1, ops.drop_first(), ty);
        lemma_op_step_next_monotone(m, ops[0], ty);
        lemma_run_ops_next_monotone(m1, ops.drop_first(), ty);
        let whole = slots_granted(m, ops, ty);
        let rest = slots_granted(m1, ops.drop_first(), ty);
        assert forall|i: int| 0 <= i < whole.len()
            implies #[trigger] whole[i] < run_ops(m, ops).next_slot(ty) by {
            if allocates(ops[0], ty) {
                if i > 0 {
                    assert(whole[i] == rest[i - 1]);
                }
            } else {
                assert(whole[i] == rest[i]);
            }
        }
    }
}

/// Element-wise copy of a slot list.
fn copy_slots(v: &Vec<u32>) -> (r: Vec<u32>)
    ensures
        r@ == v@,
{
    let mut r: Vec<u32> = Vec::new();
    let n = v.len();
    let mut i: usize = 0;
    while i < n
        invariant
            i <= n,
            n == v@.len(),
            r@ =~= v@.subrange(0, i as int),
        decreases n - i,
    {
        r.push(v[i]);
        i = i + 1;
    }
    proof {
        assert(r@ =~= v@);
    }
    r
}

} // verus!
