//! Instance handles: a plugin's private state is type-erased behind an opaque
//! handle, with a liveness count of the instances that exist.
//!
//! Instead of a process-wide counter, the count belongs to an explicit
//! [`InstanceStore`], which owns every live instance. A handle is never
//! reused, so a destroyed handle can never reach another instance.

use vstd::prelude::*;

verus! {

/// An opaque handle to one plugin instance; the zero handle is null.
#[derive(Debug, Clone, Copy, PartialEq, Eq, Structural)]
pub struct CubeMelonPlugin {
    pub id: u64,
}

impl CubeMelonPlugin {
    /// The null handle.
    pub fn null() -> (r: Self)
        ensures
            r.id == 0,
    {
        CubeMelonPlugin { id: 0 }
    }

    pub fn is_null(&self) -> (r: bool)
        ensures
            r == (self.id == 0),
    {
        self.id == 0
    }
}

/// A plugin payload together with the type tag it was created with.
pub struct PluginBox<P> {
    kind: u64,
    plugin: P,
}

impl<P> PluginBox<P> {
    pub closed spec fn spec_kind(&self) -> u64 {
        self.kind
    }

    pub closed spec fn spec_plugin(&self) -> P {
        self.plugin
    }

    /// Boxes a payload under the type tag `kind`.
    pub fn new(kind: u64, plugin: P) -> (r: Self)
        ensures
            r.spec_kind() == kind,
            r.spec_plugin() == plugin,
    {
        PluginBox { kind, plugin }
    }

    /// The payload, when `kind` is the tag the box was created with.
    pub fn downcast(&self, kind: u64) -> (r: Option<&P>)
        ensures
            r is Some <==> kind == self.spec_kind(),
            r matches Some(p) ==> *p == self.spec_plugin(),
    {
        if self.kind == kind {
            Some(&self.plugin)
        } else {
            None
        }
    }

    /// Mutable access to the payload, when `kind` is the box's tag.
    pub fn downcast_mut(&mut self, kind: u64) -> (r: Option<&mut P>)
        ensures
            r is Some <==> kind == old(self).spec_kind(),
            r matches Some(p) ==> *p == old(self).spec_plugin() && final(self).spec_plugin() == *final(p),
            r is None ==> *final(self) == *old(self),
            final(self).spec_kind() == old(self).spec_kind(),
    {
        if self.kind == kind {
            Some(&mut self.plugin)
        } else {
            None
        }
    }

    /// Hands the box to `store`, which then owns it; returns its handle.
    pub fn into_raw(self, store: &mut InstanceStore<P>) -> (r: CubeMelonPlugin)
        requires
            old(store).wf(),
        ensures
            final(store).wf(),
            r.id == 0 <==> old(store).spec_next() == u64::MAX,
            r.id != 0 ==> final(store).ids() == old(store).ids().push(r.id) && r.id
                == old(store).spec_next() && final(store).spec_next() == r.id + 1,
            r.id == 0 ==> final(store).ids() == old(store).ids() && final(store).spec_next() == old(store).spec_next(),
    {
        store.insert(self)
    }
}

struct InstanceEntry<P> {
    id: u64,
    boxed: PluginBox<P>,
}

/// Owner of every live instance; its length is the liveness count.
pub struct InstanceStore<P> {
    entries: Vec<InstanceEntry<P>>,
    next_id: u64,
}

impl<P> InstanceStore<P> {
    /// Handles of the live instances, oldest first.
    pub closed spec fn ids(&self) -> Seq<u64> {
        self.entries@.map_values(|e: InstanceEntry<P>| e.id)
    }

    /// The handle the next creation will receive.
    pub closed spec fn spec_next(&self) -> u64 {
        self.next_id
    }

    /// The type tag of the live instance at position `i`.
    pub closed spec fn kind_at(&self, i: int) -> u64 {
        self.entries@[i].boxed.kind
    }

    /// The payload of the live instance at position `i`.
    pub closed spec fn plugin_at(&self, i: int) -> P {
        self.entries@[i].boxed.plugin
    }

    /// Handles are distinct, non-null, and below the next one to be given.
    pub closed spec fn wf(&self) -> bool {
        &&& self.next_id >= 1
        &&& forall|i: int, j: int|
            0 <= i < j < self.entries@.len() ==> self.entries@[i].id != self.entries@[j].id
        &&& forall|i: int|
            0 <= i < self.entries@.len() ==> 1 <= #[trigger] self.entries@[i].id
                < self.next_id
    }

    /// Position of the live instance with handle `id` (meaningful when live).
    pub open spec fn slot(&self, id: u64) -> int {
        choose|i: int| 0 <= i < self.ids().len() && self.ids()[i] == id
    }

    /// Whether `handle` names a live instance created with tag `kind`.
    pub open spec fn holds(&self, handle: CubeMelonPlugin, kind: u64) -> bool {
        exists|i: int| 0 <= i < self.ids().len() && self.ids()[i] == handle.id && self.kind_at(i) == kind
    }

    pub open spec fn live(&self, id: u64) -> bool {
        self.ids().contains(id)
    }

    pub fn new() -> (r: Self)
        ensures
            r.wf(),
            r.ids() == Seq::<u64>::empty(),
            r.spec_next() == 1,
    {
        let r = InstanceStore { entries: Vec::new(), next_id: 1 };
        assert(r.ids() =~= Seq::<u64>::empty());
        r
    }

    fn insert(&mut self, boxed: PluginBox<P>) -> (r: CubeMelonPlugin)
        requires
            old(self).wf(),
        ensures
            final(self).wf(),
            r.id == 0 <==> old(self).spec_next() == u64::MAX,
            r.id != 0 ==> final(self).ids() == old(self).ids().push(r.id) && r.id
                == old(self).spec_next() && final(self).spec_next() == r.id + 1,
            r.id == 0 ==> final(self).ids() == old(self).ids() && final(self).spec_next() == old(self).spec_next(),
    {
        if self.next_id == u64::MAX {
            return CubeMelonPlugin { id: 0 };
        }
        let id = self.next_id;
        self.entries.push(InstanceEntry { id, boxed });
        self.next_id = id + 1;
        assert(self.ids() =~= old(self).ids().push(id));
        CubeMelonPlugin { id }
    }

    /// Position of the live instance with handle `id`.
    fn find(&self, id: u64) -> (r: Option<usize>)
        requires
            self.wf(),
        ensures
            r is None <==> !self.live(id),
            r matches Some(i) ==> i < self.ids().len() && self.ids()[i as int] == id,
    {
        let mut i: usize = 0;
        while i < self.entries.len()
            invariant
                i <= self.entries@.len(),
                forall|j: int| 0 <= j < i ==> self.entries@[j].id != id,
            decreases self.entries@.len() - i,
        {
            if self.entries[i].id == id {
                assert(self.ids()[i as int] == id);
                return Some(i);
            }
            i = i + 1;
        }
        assert forall|j: int| 0 <= j < self.ids().len() implies self.ids()[j] != id by {
            assert(self.ids()[j] == self.entries@[j].id);
        }
        None
    }

    /// Destroys the instance behind `handle`. A null handle, or one that is
    /// not live, changes nothing.
    pub fn destroy(&mut self, handle: CubeMelonPlugin)
        requires
            old(self).wf(),
        ensures
            final(self).wf(),
            final(self).spec_next() == old(self).spec_next(),
            final(self).ids() == remove_id(old(self).ids(), handle.id),
    {
        match self.find(handle.id) {
            Some(i) => {
                let ghost before = self.ids();
                self.entries.remove(i);
                assert(self.ids() =~= before.remove(i as int));
                proof {
                    lemma_remove_id_at(before, handle.id, i as int);
                }
            },
            None => {
                proof {
                    lemma_remove_id_absent(self.ids(), handle.id);
                }
            },
        }
    }

    /// The payload behind `handle`, if it is live and was created with type
    /// tag `kind`.
    pub fn get(&self, handle: CubeMelonPlugin, kind: u64) -> (r: Option<&P>)
        requires
            self.wf(),
        ensures
            r is Some <==> exists|i: int|
                0 <= i < self.ids().len() && self.ids()[i] == handle.id && self.kind_at(i)
                    == kind,
            r matches Some(p) ==> exists|i: int|
                0 <= i < self.ids().len() && self.ids()[i] == handle.id && *p
                    == self.plugin_at(i),
            r matches Some(p) ==> *p == self.plugin_at(self.slot(handle.id)),
            r is Some ==> 0 <= self.slot(handle.id) < self.ids().len() && self.ids()[self.slot(
                handle.id,
            )] == handle.id && self.kind_at(self.slot(handle.id)) == kind,
    {
        match self.find(handle.id) {
            Some(i) => {
                let r = self.entries[i].boxed.downcast(kind);
                proof {
                    lemma_unique_position(self, handle.id, i as int);
                    assert(self.slot(handle.id) == i);
                    assert(self.kind_at(i as int) == self.entries@[i as int].boxed.kind);
                    assert(self.plugin_at(i as int) == self.entries@[i as int].boxed.plugin);
                }
                r
            },
            None => None,
        }
    }

    /// Mutable access to the payload behind `handle`, if it is live and was
    /// created with type tag `kind`.
    pub fn get_mut(&mut self, handle: CubeMelonPlugin, kind: u64) -> (r: Option<&mut P>)
        requires
            old(self).wf(),
        ensures
            final(self).wf(),
            final(self).ids() == old(self).ids(),
            final(self).spec_next() == old(self).spec_next(),
            r is Some <==> exists|i: int|
                0 <= i < old(self).ids().len() && old(self).ids()[i] == handle.id
                    && old(self).kind_at(i) == kind,
            r is Some ==> 0 <= old(self).slot(handle.id) < old(self).ids().len() && old(self).ids()[old(self).slot(handle.id)] == handle.id && old(self).kind_at(old(self).slot(handle.id)) == kind,
            r matches Some(p) ==> *p == old(self).plugin_at(old(self).slot(handle.id)) && final(self).plugin_at(old(self).slot(handle.id)) == *final(p),
            forall|j: int|
                0 <= j < old(self).ids().len() && (r is None || j != old(self).slot(handle.id))
                    ==> final(self).plugin_at(j) == old(self).plugin_at(j),
            forall|j: int| 0 <= j < old(self).ids().len() ==> final(self).kind_at(j) == old(self).kind_at(j),
    {
        match self.find(handle.id) {
            Some(i) => {
                proof {
                    lemma_unique_position(self, handle.id, i as int);
                    assert(self.kind_at(i as int) == self.entries@[i as int].boxed.kind);
                    assert(self.slot(handle.id) == i);
                }
                let entry = &mut self.entries[i];
                entry.boxed.downcast_mut(kind)
            },
            None => None,
        }
    }

    /// The number of live instances.
    pub fn count(&self) -> (r: usize)
        ensures
            r == self.ids().len(),
    {
        self.entries.len()
    }
}

proof fn lemma_unique_position<P>(s: &InstanceStore<P>, id: u64, i: int)
    requires
        s.wf(),
        0 <= i < s.ids().len(),
        s.ids()[i] == id,
    ensures
        forall|j: int| 0 <= j < s.ids().len() && s.ids()[j] == id ==> j == i,
{
    assert forall|j: int| 0 <= j < s.ids().len() && s.ids()[j] == id implies j == i by {
        assert(s.ids()[j] == s.entries@[j].id);
        assert(s.ids()[i] == s.entries@[i].id);
    }
}

/// The live handles after removing `id`, if present.
pub open spec fn remove_id(ids: Seq<u64>, id: u64) -> Seq<u64>
    decreases ids.len(),
{
    if ids.len() == 0 {
        ids
    } else if ids.last() == id {
        remove_id(ids.drop_last(), id)
    } else {
        remove_id(ids.drop_last(), id).push(ids.last())
    }
}

pub(crate) proof fn lemma_remove_id_absent(ids: Seq<u64>, id: u64)
    requires
        !ids.contains(id),
    ensures
        remove_id(ids, id) == ids,
    decreases ids.len(),
{
    if ids.len() > 0 {
        assert(!ids.drop_last().contains(id)) by {
            if ids.drop_last().contains(id) {
                let k = choose|k: int| 0 <= k < ids.drop_last().len() && ids.drop_last()[k] == id;
                assert(ids[k] == id);
            }
        }
        lemma_remove_id_absent(ids.drop_last(), id);
        assert(ids.drop_last().push(ids.last()) =~= ids);
    }
}

pub(crate) proof fn lemma_remove_id_at(ids: Seq<u64>, id: u64, i: int)
    requires
        0 <= i < ids.len(),
        ids[i] == id,
        forall|a: int, b: int| 0 <= a < b < ids.len() ==> ids[a] != ids[b],
    ensures
        remove_id(ids, id) == ids.remove(i),
    decreases ids.len(),
{
    let last = ids.len() - 1;
    if i == last {
        assert(!ids.drop_last().contains(id)) by {
            if ids.drop_last().contains(id) {
                let k = choose|k: int| 0 <= k < ids.drop_last().len() && ids.drop_last()[k] == id;
                assert(ids[k] == ids[i]);
            }
        }
        lemma_remove_id_absent(ids.drop_last(), id);
        assert(ids.remove(i) =~= ids.drop_last());
    } else {
        assert(ids[last] != ids[i]);
        lemma_remove_id_at(ids.drop_last(), id, i);
        assert(ids.remove(i) =~= ids.drop_last().remove(i).push(ids.last()));
    }
}

/// The liveness count of `store`.
pub fn get_plugin_ref_count<P>(store: &InstanceStore<P>) -> (r: usize)
    ensures
        r == store.ids().len(),
{
    store.count()
}

/// Whether no instance is live, so the module may be unmapped.
pub fn can_unload_now<P>(store: &InstanceStore<P>) -> (r: bool)
    ensures
        r == (store.ids().len() == 0),
{
    store.count() == 0
}

/// Creates an instance owning `plugin` under type tag `kind`; the null handle
/// comes back only when no handle is left to give.
pub fn create_plugin_instance<P>(store: &mut InstanceStore<P>, kind: u64, plugin: P) -> (r: CubeMelonPlugin)
    requires
        old(store).wf(),
    ensures
        final(store).wf(),
        (final(store).ids(), final(store).spec_next()) == step_ids(
            old(store).ids(),
            old(store).spec_next(),
            InstanceOp::Create,
        ),
        r.id == 0 <==> old(store).spec_next() == u64::MAX,
        r.id != 0 ==> final(store).ids() == old(store).ids().push(r.id) && r.id
            == old(store).spec_next() && final(store).spec_next() == r.id + 1,
        r.id == 0 ==> final(store).ids() == old(store).ids() && final(store).spec_next() == old(store).spec_next(),
{
    PluginBox::new(kind, plugin).into_raw(store)
}

/// Read access to an instance's payload, recovered under type tag `kind`;
/// `None` for a null handle, a dead one, or one created with another tag.
pub fn with_plugin<P>(store: &InstanceStore<P>, plugin: CubeMelonPlugin, kind: u64) -> (r: Option<&P>)
    requires
        store.wf(),
    ensures
        r is Some <==> exists|i: int|
            0 <= i < store.ids().len() && store.ids()[i] == plugin.id && store.kind_at(i) == kind,
        r matches Some(p) ==> exists|i: int|
            0 <= i < store.ids().len() && store.ids()[i] == plugin.id && *p == store.plugin_at(i),
        plugin.id == 0 ==> r is None,
{
    proof {
        lemma_store_ids_wf(store);
    }
    store.get(plugin, kind)
}

/// Exclusive access to an instance's payload, recovered under type tag
/// `kind`; `None` for a null handle, a dead one, or one created with
/// another tag.
pub fn with_plugin_mut<P>(store: &mut InstanceStore<P>, plugin: CubeMelonPlugin, kind: u64) -> (r: Option<&mut P>)
    requires
        old(store).wf(),
    ensures
        final(store).wf(),
        final(store).ids() == old(store).ids(),
        final(store).spec_next() == old(store).spec_next(),
        r is Some <==> old(store).holds(plugin, kind),
        r matches Some(p) ==> *p == old(store).plugin_at(old(store).slot(plugin.id)) && final(store).plugin_at(
            old(store).slot(plugin.id),
        ) == *final(p),
        forall|j: int|
            0 <= j < old(store).ids().len() && (r is None || j != old(store).slot(plugin.id))
                ==> final(store).plugin_at(j) == old(store).plugin_at(j),
        forall|j: int| 0 <= j < old(store).ids().len() ==> final(store).kind_at(j) == old(store).kind_at(j),
{
    store.get_mut(plugin, kind)
}

/// Destroys an instance; null and dead handles are ignored.
pub fn destroy_plugin_instance<P>(store: &mut InstanceStore<P>, plugin: CubeMelonPlugin)
    requires
        old(store).wf(),
    ensures
        final(store).wf(),
        (final(store).ids(), final(store).spec_next()) == step_ids(
            old(store).ids(),
            old(store).spec_next(),
            InstanceOp::Destroy(plugin.id),
        ),
        final(store).spec_next() == old(store).spec_next(),
        final(store).ids() == remove_id(old(store).ids(), plugin.id),
{
    store.destroy(plugin)
}

pub(crate) proof fn lemma_contains_push(s: Seq<u64>, v: u64, x: u64)
    ensures
        s.push(v).contains(x) <==> (s.contains(x) || v == x),
{
    if s.push(v).contains(x) {
        let k = choose|k: int| 0 <= k < s.push(v).len() && s.push(v)[k] == x;
        if k < s.len() {
            assert(s[k] == x);
        }
    }
    if s.contains(x) {
        let k = choose|k: int| 0 <= k < s.len() && s[k] == x;
        assert(s.push(v)[k] == x);
    }
    if v == x {
        assert(s.push(v)[s.len() as int] == x);
    }
}

/// What stays after removing `id`: exactly the other handles.
pub proof fn lemma_remove_id_contains(ids: Seq<u64>, id: u64, x: u64)
    ensures
        remove_id(ids, id).contains(x) <==> (ids.contains(x) && x != id),
    decreases ids.len(),
{
    if ids.len() > 0 {
        lemma_remove_id_contains(ids.drop_last(), id, x);
        assert(ids.drop_last().push(ids.last()) =~= ids);
        lemma_contains_push(ids.drop_last(), ids.last(), x);
        if ids.last() != id {
            lemma_contains_push(remove_id(ids.drop_last(), id), ids.last(), x);
        }
    }
}

/// One step of instance lifecycle traffic against a store.
#[derive(Debug, Clone, Copy, PartialEq, Eq, Structural)]
pub enum InstanceOp {
    Create,
    Destroy(u64),
}

/// Handles are distinct, non-null and below the next one to be given.
pub open spec fn ids_wf(ids: Seq<u64>, next: u64) -> bool {
    &&& next >= 1
    &&& forall|a: int, b: int| 0 <= a < b < ids.len() ==> ids[a] != ids[b]
    &&& forall|a: int| 0 <= a < ids.len() ==> 1 <= #[trigger] ids[a] < next
}

/// Live handles and next handle after one step, as the store's operations
/// state it.
pub open spec fn step_ids(ids: Seq<u64>, next: u64, op: InstanceOp) -> (Seq<u64>, u64) {
    match op {
        InstanceOp::Create => if next == u64::MAX {
            (ids, next)
        } else {
            (ids.push(next), (next + 1) as u64)
        },
        InstanceOp::Destroy(h) => (remove_id(ids, h), next),
    }
}

/// Live handles and next handle after a sequence of steps.
pub open spec fn run_ids(ids: Seq<u64>, next: u64, ops: Seq<InstanceOp>) -> (Seq<u64>, u64)
    decreases ops.len(),
{
    if ops.len() == 0 {
        (ids, next)
    } else {
        let (i2, n2) = step_ids(ids, next, ops[0]);
        run_ids(i2, n2, ops.drop_first())
    }
}

/// Every creation in `ops` gets a handle, and every destruction names a
/// handle live at that moment.
pub open spec fn well_paired(ids: Seq<u64>, next: u64, ops: Seq<InstanceOp>) -> bool
    decreases ops.len(),
{
    if ops.len() == 0 {
        true
    } else {
        let ok = match ops[0] {
            InstanceOp::Create => next < u64::MAX,
            InstanceOp::Destroy(h) => ids.contains(h),
        };
        let (i2, n2) = step_ids(ids, next, ops[0]);
        ok && well_paired(i2, n2, ops.drop_first())
    }
}

pub open spec fn count_creates(ops: Seq<InstanceOp>) -> nat
    decreases ops.len(),
{
    if ops.len() == 0 {
        0
    } else {
        (if ops[0] is Create { 1nat } else { 0nat }) + count_creates(ops.drop_first())
    }
}

pub open spec fn count_destroys(ops: Seq<InstanceOp>) -> nat
    decreases ops.len(),
{
    if ops.len() == 0 {
        0
    } else {
        (if ops[0] is Destroy { 1nat } else { 0nat }) + count_destroys(ops.drop_first())
    }
}

pub(crate) proof fn lemma_step_keeps_wf(ids: Seq<u64>, next: u64, op: InstanceOp)
    requires
        ids_wf(ids, next),
        match op {
            InstanceOp::Create => next < u64::MAX,
            InstanceOp::Destroy(h) => ids.contains(h),
        },
    ensures
        ids_wf(step_ids(ids, next, op).0, step_ids(ids, next, op).1),
        op is Create ==> step_ids(ids, next, op).0.len() == ids.len() + 1,
        op is Destroy ==> step_ids(ids, next, op).0.len() + 1 == ids.len(),
{
    match op {
        InstanceOp::Create => {
            let n = ids.push(next);
            assert forall|a: int| 0 <= a < n.len() implies 1 <= #[trigger] n[a] < next + 1 by {
                if a < ids.len() {
                    assert(n[a] == ids[a]);
                }
            }
        },
        InstanceOp::Destroy(h) => {
            let i = choose|i: int| 0 <= i < ids.len() && ids[i] == h;
            lemma_remove_id_at(ids, h, i);
            let r = ids.remove(i);
            assert forall|a: int| 0 <= a < r.len() implies 1 <= #[trigger] r[a] < next by {
                if a < i {
                    assert(r[a] == ids[a]);
                } else {
                    assert(r[a] == ids[a + 1]);
                }
            }
            assert forall|a: int, b: int| 0 <= a < b < r.len() implies r[a] != r[b] by {
                let a2 = if a < i { a } else { a + 1 };
                let b2 = if b < i { b } else { b + 1 };
                assert(r[a] == ids[a2]);
                assert(r[b] == ids[b2]);
            }
        },
    }
}

/// Liveness round trip: along any well-paired sequence of creations and
/// destructions, the live count changes by one per creation and by minus
/// one per destruction, so a sequence with as many of each, interleaved in
/// any order, leaves the count where it started.
pub proof fn lemma_refcount_round_trip(ids: Seq<u64>, next: u64, ops: Seq<InstanceOp>)
    requires
        ids_wf(ids, next),
        well_paired(ids, next, ops),
    ensures
        run_ids(ids, next, ops).0.len() + count_destroys(ops) == ids.len() + count_creates(ops),
        count_creates(ops) == count_destroys(ops) ==> run_ids(ids, next, ops).0.len()
            == ids.len(),
    decreases ops.len(),
{
    if ops.len() > 0 {
        lemma_step_keeps_wf(ids, next, ops[0]);
        let (i2, n2) = step_ids(ids, next, ops[0]);
        lemma_refcount_round_trip(i2, n2, ops.drop_first());
    }
}

/// The store's own state satisfies the model's well-formedness.
pub proof fn lemma_store_ids_wf<P>(store: &InstanceStore<P>)
    requires
        store.wf(),
    ensures
        ids_wf(store.ids(), store.spec_next()),
{
    assert forall|a: int| 0 <= a < store.ids().len() implies 1 <= #[trigger] store.ids()[a]
        < store.spec_next() by {
        assert(store.ids()[a] == store.entries@[a].id);
    }
    assert forall|a: int, b: int| 0 <= a < b < store.ids().len() implies store.ids()[a]
        != store.ids()[b] by {
        assert(store.ids()[a] == store.entries@[a].id);
        assert(store.ids()[b] == store.entries@[b].id);
    }
}

} // verus!
