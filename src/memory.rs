//! The cross-boundary value model: strings, tagged values and arrays, each
//! carrying an optional release callback.
//!
//! A release callback is an entry in an [`AllocationLedger`], the one table
//! that records which allocations are outstanding. A constructor that copies
//! or moves caller data into a new allocation registers it and attaches the
//! callback; a constructor over static data attaches none. Releasing consumes
//! the value, so a callback can run at most once.

use vstd::prelude::*;
use vstd::string::*;
use crate::instance::{ids_wf, remove_id, lemma_remove_id_absent, lemma_remove_id_contains, lemma_step_keeps_wf, InstanceOp};
use crate::types::CubeMelonUUID;
use crate::structs::CubeMelonPluginBasicInfo;

verus! {

/// The release callback attached to an owned allocation.
#[derive(Debug, PartialEq, Eq, Structural)]
pub struct ReleaseToken {
    allocation: u64,
}

impl ReleaseToken {
    pub closed spec fn spec_allocation(&self) -> u64 {
        self.allocation
    }
}

/// The table of outstanding allocations.
pub struct AllocationLedger {
    live: Vec<u64>,
    next: u64,
}

impl AllocationLedger {
    /// Outstanding allocations, oldest first.
    pub closed spec fn outstanding(&self) -> Seq<u64> {
        self.live@
    }

    pub closed spec fn spec_next(&self) -> u64 {
        self.next
    }

    pub closed spec fn wf(&self) -> bool {
        ids_wf(self.live@, self.next)
    }

    pub fn new() -> (r: Self)
        ensures
            r.wf(),
            r.outstanding() == Seq::<u64>::empty(),
    {
        AllocationLedger { live: Vec::new(), next: 1 }
    }

    /// The number of outstanding allocations.
    pub fn outstanding_count(&self) -> (r: usize)
        ensures
            r == self.outstanding().len(),
    {
        self.live.len()
    }

    /// Records a new allocation; `None` once the ledger has no fresh
    /// identifier left.
    pub fn register(&mut self) -> (r: Option<ReleaseToken>)
        requires
            old(self).wf(),
        ensures
            final(self).wf(),
            r is None <==> old(self).spec_next() == u64::MAX,
            r matches Some(t) ==> final(self).outstanding() == old(self).outstanding().push(
                t.spec_allocation(),
            ) && !old(self).outstanding().contains(t.spec_allocation()) && t.spec_allocation()
                == old(self).spec_next(),
            final(self).spec_next() >= old(self).spec_next(),
            r is None ==> final(self).outstanding() == old(self).outstanding(),
    {
        if self.next == u64::MAX {
            return None;
        }
        let id = self.next;
        self.live.push(id);
        self.next = id + 1;
        Some(ReleaseToken { allocation: id })
    }

    /// Runs a release callback: the allocation stops being outstanding.
    pub fn release(&mut self, token: ReleaseToken)
        requires
            old(self).wf(),
        ensures
            final(self).wf(),
            final(self).spec_next() == old(self).spec_next(),
            final(self).outstanding() == remove_id(old(self).outstanding(), token.spec_allocation()),
    {
        let id = token.allocation;
        let mut i: usize = 0;
        while i < self.live.len()
            invariant
                self.wf(),
                self.live@ == old(self).live@,
                self.next == old(self).next,
                id == token.allocation,
                i <= self.live@.len(),
                forall|j: int| 0 <= j < i ==> self.live@[j] != id,
            decreases self.live@.len() - i,
        {
            if self.live[i] == id {
                let ghost before = self.live@;
                proof {
                    assert(self.live@.contains(id));
                    lemma_step_keeps_wf(self.live@, self.next, InstanceOp::Destroy(id));
                    crate::instance::lemma_remove_id_at(self.live@, id, i as int);
                }
                self.live.remove(i);
                assert(self.live@ == before.remove(i as int));
                return;
            }
            i = i + 1;
        }
        proof {
            lemma_remove_id_absent(self.live@, id);
        }
    }
}

/// Releases an optional callback; an absent one is a no-op.
pub fn release_if_present(ledger: &mut AllocationLedger, token: Option<ReleaseToken>)
    requires
        old(ledger).wf(),
    ensures
        final(ledger).wf(),
        final(ledger).spec_next() == old(ledger).spec_next(),
        token is None ==> final(ledger).outstanding() == old(ledger).outstanding(),
        token matches Some(t) ==> final(ledger).outstanding() == remove_id(
            old(ledger).outstanding(),
            t.spec_allocation(),
        ),
{
    match token {
        Some(t) => ledger.release(t),
        None => {},
    }
}

/// Registers an allocation for data being moved into a new value; the
/// callback is absent only when the ledger has run out of identifiers.
fn register_owned(ledger: &mut AllocationLedger) -> (r: Option<ReleaseToken>)
    requires
        old(ledger).wf(),
    ensures
        final(ledger).wf(),
        r is None <==> old(ledger).spec_next() == u64::MAX,
        r matches Some(t) ==> final(ledger).outstanding() == old(ledger).outstanding().push(
            t.spec_allocation(),
        ) && !old(ledger).outstanding().contains(t.spec_allocation()) && t.spec_allocation()
            == old(ledger).spec_next(),
        r is None ==> final(ledger).outstanding() == old(ledger).outstanding(),
{
    ledger.register()
}

/// Text handed across the boundary; `text` is `None` for a null string.
#[derive(Debug)]
pub struct CubeMelonString {
    pub text: Option<String>,
    pub free_string: Option<ReleaseToken>,
}

impl CubeMelonString {
    /// Moves `s` into a new allocation owned by the receiver.
    pub fn from_string(s: String, ledger: &mut AllocationLedger) -> (r: Self)
        requires
            old(ledger).wf(),
        ensures
            final(ledger).wf(),
            r.text matches Some(t) && t@ == s@,
            r.free_string is Some <==> old(ledger).spec_next() != u64::MAX,
            r.free_string matches Some(t) ==> !old(ledger).outstanding().contains(t.spec_allocation()),
            r.free_string matches Some(t) ==> final(ledger).outstanding()
                == old(ledger).outstanding().push(t.spec_allocation()),
            r.free_string is None ==> final(ledger).outstanding() == old(ledger).outstanding(),
    {
        let free_string = register_owned(ledger);
        CubeMelonString { text: Some(s), free_string }
    }

    /// Wraps static text: nothing to release.
    pub fn from_static_str(s: &'static str) -> (r: Self)
        ensures
            r.text matches Some(t) && t@ == s@,
            r.free_string is None,
    {
        CubeMelonString { text: Some(String::from_str(s)), free_string: None }
    }

    /// The null string.
    pub fn empty() -> (r: Self)
        ensures
            r.text is None,
            r.free_string is None,
    {
        CubeMelonString { text: None, free_string: None }
    }

    /// The text; a null string reads as empty.
    pub fn as_str(&self) -> (r: &str)
        ensures
            self.text matches Some(t) ==> r@ == t@,
            self.text is None ==> r@ == Seq::<char>::empty(),
    {
        match &self.text {
            Some(t) => t.as_str(),
            None => {
                let e = "";
                proof {
                    reveal_strlit("");
                }
                e
            },
        }
    }

    /// Whether the string is null or has no characters.
    pub fn is_empty(&self) -> (r: bool)
        ensures
            r == (self.text is None || self.text->0@.len() == 0),
    {
        match &self.text {
            Some(t) => t.as_str().unicode_len() == 0,
            None => true,
        }
    }

    /// Whether a release callback is attached.
    pub fn needs_free(&self) -> (r: bool)
        ensures
            r == self.free_string is Some,
    {
        self.free_string.is_some()
    }

    /// An independent copy: a null string stays null, static text is
    /// shared without a callback, and owned text gets an allocation and a
    /// callback of its own, so each copy is released separately.
    pub fn duplicate(&self, ledger: &mut AllocationLedger) -> (r: Self)
        requires
            old(ledger).wf(),
        ensures
            final(ledger).wf(),
            self.text is None ==> r.text is None && r.free_string is None
                && final(ledger).outstanding() == old(ledger).outstanding(),
            self.text matches Some(t) ==> (r.text matches Some(u) && u@ == t@),
            self.text is Some && self.free_string is None ==> r.free_string is None
                && final(ledger).outstanding() == old(ledger).outstanding(),
            self.text is Some && self.free_string is Some ==> (r.free_string is Some
                <==> old(ledger).spec_next() != u64::MAX),
            r.free_string matches Some(t) ==> final(ledger).outstanding()
                == old(ledger).outstanding().push(t.spec_allocation()),
            r.free_string matches Some(t) ==> !old(ledger).outstanding().contains(t.spec_allocation()),
    {
        match &self.text {
            None => CubeMelonString::empty(),
            Some(t) => {
                if self.free_string.is_none() {
                    CubeMelonString { text: Some(t.clone()), free_string: None }
                } else {
                    CubeMelonString::from_string(t.clone(), ledger)
                }
            },
        }
    }

    /// Gives the string up, running its callback if one is attached.
    pub fn release(self, ledger: &mut AllocationLedger)
        requires
            old(ledger).wf(),
        ensures
            final(ledger).wf(),
            self.free_string is None ==> final(ledger).outstanding() == old(ledger).outstanding(),
            self.free_string matches Some(t) ==> final(ledger).outstanding() == remove_id(
                old(ledger).outstanding(),
                t.spec_allocation(),
            ),
    {
        release_if_present(ledger, self.free_string)
    }
}

/// Which payload a value holds.
#[derive(Debug, Clone, Copy, PartialEq, Eq, Structural)]
pub enum CubeMelonValueTag {
    Null,
    Bool,
    Int,
    UInt,
    Float,
    Pointer,
    String,
    Buffer,
    Array,
    Custom,
}

/// Text payload of a value.
#[derive(Debug)]
pub struct CubeMelonValueString {
    pub text: String,
}

/// The payload of a value. A float is carried as its IEEE-754 bit pattern
/// and a pointer as an opaque address.
#[derive(Debug)]
pub enum CubeMelonValueData {
    Null,
    Bool(bool),
    Int(isize),
    UInt(usize),
    Float(u64),
    Pointer(usize),
    String(CubeMelonValueString),
    Buffer(Vec<u8>),
    Array(Vec<CubeMelonValue>),
}

/// A tagged value with an optional release callback.
#[derive(Debug)]
pub struct CubeMelonValue {
    pub data: CubeMelonValueData,
    pub free_value: Option<ReleaseToken>,
}

pub open spec fn tag_of(d: CubeMelonValueData) -> CubeMelonValueTag {
    match d {
        CubeMelonValueData::Null => CubeMelonValueTag::Null,
        CubeMelonValueData::Bool(_) => CubeMelonValueTag::Bool,
        CubeMelonValueData::Int(_) => CubeMelonValueTag::Int,
        CubeMelonValueData::UInt(_) => CubeMelonValueTag::UInt,
        CubeMelonValueData::Float(_) => CubeMelonValueTag::Float,
        CubeMelonValueData::Pointer(_) => CubeMelonValueTag::Pointer,
        CubeMelonValueData::String(_) => CubeMelonValueTag::String,
        CubeMelonValueData::Buffer(_) => CubeMelonValueTag::Buffer,
        CubeMelonValueData::Array(_) => CubeMelonValueTag::Array,
    }
}

impl CubeMelonValue {
    pub fn null() -> (r: Self)
        ensures
            r.data is Null,
            r.free_value is None,
    {
        CubeMelonValue { data: CubeMelonValueData::Null, free_value: None }
    }

    pub fn bool(value: bool) -> (r: Self)
        ensures
            r.data == CubeMelonValueData::Bool(value),
            r.free_value is None,
    {
        CubeMelonValue { data: CubeMelonValueData::Bool(value), free_value: None }
    }

    pub fn int_value(value: isize) -> (r: Self)
        ensures
            r.data == CubeMelonValueData::Int(value),
            r.free_value is None,
    {
        CubeMelonValue { data: CubeMelonValueData::Int(value), free_value: None }
    }

    pub fn uint(value: usize) -> (r: Self)
        ensures
            r.data == CubeMelonValueData::UInt(value),
            r.free_value is None,
    {
        CubeMelonValue { data: CubeMelonValueData::UInt(value), free_value: None }
    }

    /// A float given by its IEEE-754 bit pattern.
    pub fn float_bits(bits: u64) -> (r: Self)
        ensures
            r.data == CubeMelonValueData::Float(bits),
            r.free_value is None,
    {
        CubeMelonValue { data: CubeMelonValueData::Float(bits), free_value: None }
    }

    /// An opaque address; the value never owns what it points to.
    pub fn pointer(address: usize) -> (r: Self)
        ensures
            r.data == CubeMelonValueData::Pointer(address),
            r.free_value is None,
    {
        CubeMelonValue { data: CubeMelonValueData::Pointer(address), free_value: None }
    }

    /// Moves `s` into a new owned string value.
    pub fn string(s: String, ledger: &mut AllocationLedger) -> (r: Self)
        requires
            old(ledger).wf(),
        ensures
            final(ledger).wf(),
            r.data matches CubeMelonValueData::String(v) && v.text@ == s@,
            r.free_value is Some <==> old(ledger).spec_next() != u64::MAX,
            r.free_value matches Some(t) ==> !old(ledger).outstanding().contains(t.spec_allocation()),
            r.free_value matches Some(t) ==> final(ledger).outstanding()
                == old(ledger).outstanding().push(t.spec_allocation()),
            r.free_value is None ==> final(ledger).outstanding() == old(ledger).outstanding(),
    {
        let free_value = register_owned(ledger);
        CubeMelonValue {
            data: CubeMelonValueData::String(CubeMelonValueString { text: s }),
            free_value,
        }
    }

    /// Copies `s` into a new owned string value.
    pub fn string_from_str(s: &str, ledger: &mut AllocationLedger) -> (r: Self)
        requires
            old(ledger).wf(),
        ensures
            final(ledger).wf(),
            r.data matches CubeMelonValueData::String(v) && v.text@ == s@,
            r.free_value is Some <==> old(ledger).spec_next() != u64::MAX,
            r.free_value matches Some(t) ==> !old(ledger).outstanding().contains(t.spec_allocation()),
            r.free_value matches Some(t) ==> final(ledger).outstanding()
                == old(ledger).outstanding().push(t.spec_allocation()),
            r.free_value is None ==> final(ledger).outstanding() == old(ledger).outstanding(),
    {
        Self::string(String::from_str(s), ledger)
    }

    /// A string value over static text: nothing to release.
    pub fn static_string(s: &'static str) -> (r: Self)
        ensures
            r.data matches CubeMelonValueData::String(v) && v.text@ == s@,
            r.free_value is None,
    {
        CubeMelonValue {
            data: CubeMelonValueData::String(CubeMelonValueString { text: String::from_str(s) }),
            free_value: None,
        }
    }

    /// Moves bytes into a new owned buffer value.
    pub fn buffer(data: Vec<u8>, ledger: &mut AllocationLedger) -> (r: Self)
        requires
            old(ledger).wf(),
        ensures
            final(ledger).wf(),
            r.data matches CubeMelonValueData::Buffer(b) && b@ == data@,
            r.free_value is Some <==> old(ledger).spec_next() != u64::MAX,
            r.free_value matches Some(t) ==> !old(ledger).outstanding().contains(t.spec_allocation()),
            r.free_value matches Some(t) ==> final(ledger).outstanding()
                == old(ledger).outstanding().push(t.spec_allocation()),
            r.free_value is None ==> final(ledger).outstanding() == old(ledger).outstanding(),
    {
        let free_value = register_owned(ledger);
        CubeMelonValue { data: CubeMelonValueData::Buffer(data), free_value }
    }

    /// Moves `values` into a new owned array value. The array takes over
    /// its items' allocations: their callbacks are run now, when the array
    /// is built, and the array's single callback then covers the whole, so
    /// releasing the array is one release rather than one per item.
    pub fn array(values: Vec<CubeMelonValue>, ledger: &mut AllocationLedger) -> (r: Self)
        requires
            old(ledger).wf(),
        ensures
            final(ledger).wf(),
            r.data matches CubeMelonValueData::Array(items) && items@.len() == values@.len()
                && forall|i: int| 0 <= i < items@.len() ==> (#[trigger] items@[i]).free_value is None,
            r.free_value is Some <==> old(ledger).spec_next() != u64::MAX,
            r.free_value matches Some(t) ==> !old(ledger).outstanding().contains(t.spec_allocation()),
            forall|x: u64|
                #[trigger] final(ledger).outstanding().contains(x) <==> ((old(ledger).outstanding().contains(x)
                    && !held_by_values(values@, x)) || token_is(r.free_value, x)),
    {
        let ghost all = values@;
        let mut rest = values;
        let mut reversed: Vec<CubeMelonValue> = Vec::new();
        let ghost n = rest@.len();
        while rest.len() > 0
            invariant
                ledger.wf(),
                ledger.spec_next() == old(ledger).spec_next(),
                rest@ == all.subrange(0, rest@.len() as int),
                rest@.len() <= all.len(),
                rest@.len() + reversed@.len() == n,
                n == all.len(),
                forall|i: int| 0 <= i < reversed@.len() ==> (#[trigger] reversed@[i]).free_value is None,
                forall|x: u64|
                    #[trigger] ledger.outstanding().contains(x) <==> (old(ledger).outstanding().contains(x)
                        && !held_by_values(all.subrange(rest@.len() as int, all.len() as int), x)),
            decreases rest@.len(),
        {
            let ghost k = rest@.len() - 1;
            let ghost before = ledger.outstanding();
            let item = rest.pop().unwrap();
            assert(item == all[k]);
            let ghost token = item.free_value;
            release_if_present(ledger, item.free_value);
            reversed.push(CubeMelonValue { data: item.data, free_value: None });
            assert forall|x: u64|
                #[trigger] ledger.outstanding().contains(x) <==> (old(ledger).outstanding().contains(x)
                    && !held_by_values(all.subrange(k, all.len() as int), x)) by {
                match token {
                    Some(t) => lemma_remove_id_contains(before, t.spec_allocation(), x),
                    None => {},
                }
                let tail = all.subrange(k, all.len() as int);
                let later = all.subrange(k + 1, all.len() as int);
                if held_by_values(tail, x) {
                    let i = choose|i: int| 0 <= i < tail.len() && token_is(#[trigger] tail[i].free_value, x);
                    if i > 0 {
                        assert(later[i - 1] == tail[i]);
                        assert(held_by_values(later, x));
                    } else {
                        assert(tail[0] == item);
                    }
                }
                if held_by_values(later, x) {
                    let i = choose|i: int| 0 <= i < later.len() && token_is(#[trigger] later[i].free_value, x);
                    assert(tail[i + 1] == later[i]);
                    assert(held_by_values(tail, x));
                }
                if token_is(token, x) {
                    assert(tail[0] == item);
                    assert(held_by_values(tail, x));
                }
            }
        }
        assert(all.subrange(0, all.len() as int) =~= all);
        let mut items: Vec<CubeMelonValue> = Vec::new();
        while reversed.len() > 0
            invariant
                items@.len() + reversed@.len() == n,
                forall|i: int| 0 <= i < reversed@.len() ==> (#[trigger] reversed@[i]).free_value is None,
                forall|i: int| 0 <= i < items@.len() ==> (#[trigger] items@[i]).free_value is None,
            decreases reversed@.len(),
        {
            let item = reversed.pop().unwrap();
            items.push(item);
        }
        let ghost before = ledger.outstanding();
        let free_value = register_owned(ledger);
        proof {
            assert forall|x: u64|
                #[trigger] ledger.outstanding().contains(x) <==> ((old(ledger).outstanding().contains(x)
                    && !held_by_values(all, x)) || token_is(free_value, x)) by {
                match free_value {
                    Some(t) => crate::instance::lemma_contains_push(before, t.spec_allocation(), x),
                    None => {},
                }
            }
        }
        CubeMelonValue { data: CubeMelonValueData::Array(items), free_value }
    }

    /// The tag of the payload.
    pub fn tag(&self) -> (r: CubeMelonValueTag)
        ensures
            r == tag_of(self.data),
    {
        match &self.data {
            CubeMelonValueData::Null => CubeMelonValueTag::Null,
            CubeMelonValueData::Bool(_) => CubeMelonValueTag::Bool,
            CubeMelonValueData::Int(_) => CubeMelonValueTag::Int,
            CubeMelonValueData::UInt(_) => CubeMelonValueTag::UInt,
            CubeMelonValueData::Float(_) => CubeMelonValueTag::Float,
            CubeMelonValueData::Pointer(_) => CubeMelonValueTag::Pointer,
            CubeMelonValueData::String(_) => CubeMelonValueTag::String,
            CubeMelonValueData::Buffer(_) => CubeMelonValueTag::Buffer,
            CubeMelonValueData::Array(_) => CubeMelonValueTag::Array,
        }
    }

    pub fn as_bool(&self) -> (r: Option<bool>)
        ensures
            r == (match self.data {
                CubeMelonValueData::Bool(b) => Some(b),
                _ => None,
            }),
    {
        match &self.data {
            CubeMelonValueData::Bool(b) => Some(*b),
            _ => None,
        }
    }

    pub fn as_int(&self) -> (r: Option<isize>)
        ensures
            r == (match self.data {
                CubeMelonValueData::Int(i) => Some(i),
                _ => None,
            }),
    {
        match &self.data {
            CubeMelonValueData::Int(i) => Some(*i),
            _ => None,
        }
    }

    pub fn as_uint(&self) -> (r: Option<usize>)
        ensures
            r == (match self.data {
                CubeMelonValueData::UInt(u) => Some(u),
                _ => None,
            }),
    {
        match &self.data {
            CubeMelonValueData::UInt(u) => Some(*u),
            _ => None,
        }
    }

    /// The text of a string value.
    pub fn as_str(&self) -> (r: Option<&str>)
        ensures
            r is Some <==> self.data is String,
            r matches Some(s) ==> s@ == self.data->String_0.text@,
    {
        match &self.data {
            CubeMelonValueData::String(v) => Some(v.text.as_str()),
            _ => None,
        }
    }

    /// The address of a pointer value.
    pub fn as_pointer(&self) -> (r: Option<usize>)
        ensures
            r == (match self.data {
                CubeMelonValueData::Pointer(p) => Some(p),
                _ => None,
            }),
    {
        match &self.data {
            CubeMelonValueData::Pointer(p) => Some(*p),
            _ => None,
        }
    }

    /// The IEEE-754 bit pattern of a float value.
    pub fn as_float_bits(&self) -> (r: Option<u64>)
        ensures
            r == (match self.data {
                CubeMelonValueData::Float(b) => Some(b),
                _ => None,
            }),
    {
        match &self.data {
            CubeMelonValueData::Float(b) => Some(*b),
            _ => None,
        }
    }

    /// The items of an array value.
    pub fn as_array(&self) -> (r: Option<&[CubeMelonValue]>)
        ensures
            r is Some <==> self.data is Array,
            r matches Some(items) ==> items@ == self.data->Array_0@,
    {
        match &self.data {
            CubeMelonValueData::Array(items) => Some(items.as_slice()),
            _ => None,
        }
    }

    /// The bytes of a buffer value.
    pub fn as_buffer(&self) -> (r: Option<&[u8]>)
        ensures
            r is Some <==> self.data is Buffer,
            r matches Some(b) ==> b@ == self.data->Buffer_0@,
    {
        match &self.data {
            CubeMelonValueData::Buffer(b) => Some(b.as_slice()),
            _ => None,
        }
    }

    /// Whether a release callback is attached.
    pub fn needs_free(&self) -> (r: bool)
        ensures
            r == self.free_value is Some,
    {
        self.free_value.is_some()
    }

    pub fn is_null(&self) -> (r: bool)
        ensures
            r == self.data is Null,
    {
        match &self.data {
            CubeMelonValueData::Null => true,
            _ => false,
        }
    }

    /// Gives the value up, running its callback if one is attached.
    pub fn release(self, ledger: &mut AllocationLedger)
        requires
            old(ledger).wf(),
        ensures
            final(ledger).wf(),
            self.free_value is None ==> final(ledger).outstanding() == old(ledger).outstanding(),
            self.free_value matches Some(t) ==> final(ledger).outstanding() == remove_id(
                old(ledger).outstanding(),
                t.spec_allocation(),
            ),
    {
        release_if_present(ledger, self.free_value)
    }
}

/// A sequence of identities handed across the boundary.
#[derive(Debug)]
pub struct CubeMelonUUIDArray {
    pub uuids: Vec<CubeMelonUUID>,
    pub free_uuid_array: Option<ReleaseToken>,
}

impl CubeMelonUUIDArray {
    /// Moves `uuids` into a new allocation owned by the receiver.
    pub fn from_vec(uuids: Vec<CubeMelonUUID>, ledger: &mut AllocationLedger) -> (r: Self)
        requires
            old(ledger).wf(),
        ensures
            final(ledger).wf(),
            r.uuids@ == uuids@,
            r.free_uuid_array is Some <==> old(ledger).spec_next() != u64::MAX,
            r.free_uuid_array matches Some(t) ==> !old(ledger).outstanding().contains(t.spec_allocation()),
            r.free_uuid_array matches Some(t) ==> final(ledger).outstanding()
                == old(ledger).outstanding().push(t.spec_allocation()),
            r.free_uuid_array is None ==> final(ledger).outstanding() == old(ledger).outstanding(),
    {
        let free_uuid_array = register_owned(ledger);
        CubeMelonUUIDArray { uuids, free_uuid_array }
    }

    /// The empty array: nothing to release.
    pub fn empty() -> (r: Self)
        ensures
            r.uuids@.len() == 0,
            r.free_uuid_array is None,
    {
        CubeMelonUUIDArray { uuids: Vec::new(), free_uuid_array: None }
    }

    pub fn as_slice(&self) -> (r: &[CubeMelonUUID])
        ensures
            r@ == self.uuids@,
    {
        self.uuids.as_slice()
    }

    /// Gives the array up, running its callback if one is attached.
    pub fn release(self, ledger: &mut AllocationLedger)
        requires
            old(ledger).wf(),
        ensures
            final(ledger).wf(),
            self.free_uuid_array is None ==> final(ledger).outstanding() == old(ledger).outstanding(),
            self.free_uuid_array matches Some(t) ==> final(ledger).outstanding() == remove_id(
                old(ledger).outstanding(),
                t.spec_allocation(),
            ),
    {
        release_if_present(ledger, self.free_uuid_array)
    }
}

/// Whether an optional callback is the one of allocation `x`.
pub open spec fn token_is(token: Option<ReleaseToken>, x: u64) -> bool {
    token matches Some(t) && t.spec_allocation() == x
}

/// Whether allocation `x` is the callback of one of `values`.
pub open spec fn held_by_values(values: Seq<CubeMelonValue>, x: u64) -> bool {
    exists|i: int| 0 <= i < values.len() && token_is(#[trigger] values[i].free_value, x)
}

/// Whether allocation `x` belongs to the strings of one of `infos`.
pub open spec fn held_by_infos(infos: Seq<CubeMelonPluginBasicInfo>, x: u64) -> bool {
    exists|i: int|
        0 <= i < infos.len() && (token_is(#[trigger] infos[i].name.free_string, x) || token_is(
            infos[i].description.free_string,
            x,
        ))
}

/// A sequence of catalogue entries handed across the boundary. The array
/// owns the entries' strings: releasing it releases theirs too.
#[derive(Debug)]
pub struct CubeMelonPluginBasicInfoArray {
    pub infos: Vec<CubeMelonPluginBasicInfo>,
    pub free_info_array: Option<ReleaseToken>,
}

impl CubeMelonPluginBasicInfoArray {
    /// Moves `infos` into a new allocation owned by the receiver.
    pub fn from_vec(infos: Vec<CubeMelonPluginBasicInfo>, ledger: &mut AllocationLedger) -> (r: Self)
        requires
            old(ledger).wf(),
        ensures
            final(ledger).wf(),
            r.infos@ == infos@,
            r.free_info_array is Some <==> old(ledger).spec_next() != u64::MAX,
            r.free_info_array matches Some(t) ==> !old(ledger).outstanding().contains(t.spec_allocation()),
            r.free_info_array matches Some(t) ==> final(ledger).outstanding()
                == old(ledger).outstanding().push(t.spec_allocation()),
            r.free_info_array is None ==> final(ledger).outstanding() == old(ledger).outstanding(),
    {
        let free_info_array = register_owned(ledger);
        CubeMelonPluginBasicInfoArray { infos, free_info_array }
    }

    /// The empty array: nothing to release.
    pub fn empty() -> (r: Self)
        ensures
            r.infos@.len() == 0,
            r.free_info_array is None,
    {
        CubeMelonPluginBasicInfoArray { infos: Vec::new(), free_info_array: None }
    }

    pub fn as_slice(&self) -> (r: &[CubeMelonPluginBasicInfo])
        ensures
            r@ == self.infos@,
    {
        self.infos.as_slice()
    }

    /// Gives the array up: the entries' strings are released first, then
    /// the array itself, each only if it carries a callback. Every other
    /// allocation stays outstanding.
    pub fn release(self, ledger: &mut AllocationLedger)
        requires
            old(ledger).wf(),
        ensures
            final(ledger).wf(),
            forall|x: u64|
                #[trigger] final(ledger).outstanding().contains(x) <==> (old(
                    ledger,
                ).outstanding().contains(x) && !held_by_infos(self.infos@, x) && !token_is(
                    self.free_info_array,
                    x,
                )),
    {
        let ghost all = self.infos@;
        let mut infos = self.infos;
        while infos.len() > 0
            invariant
                ledger.wf(),
                infos@ == all.subrange(0, infos@.len() as int),
                infos@.len() <= all.len(),
                forall|x: u64|
                    #[trigger] ledger.outstanding().contains(x) <==> (old(ledger).outstanding().contains(x)
                        && !held_by_infos(all.subrange(infos@.len() as int, all.len() as int), x)),
            decreases infos@.len(),
        {
            let ghost k = infos@.len() - 1;
            let ghost before = ledger.outstanding();
            let info = infos.pop().unwrap();
            assert(info == all[k]);
            let ghost name_token = info.name.free_string;
            let ghost description_token = info.description.free_string;
            info.name.release(ledger);
            let ghost middle = ledger.outstanding();
            info.description.release(ledger);
            assert forall|x: u64|
                #[trigger] ledger.outstanding().contains(x) <==> (old(ledger).outstanding().contains(x)
                    && !held_by_infos(all.subrange(k, all.len() as int), x)) by {
                match name_token {
                    Some(t) => lemma_remove_id_contains(before, t.spec_allocation(), x),
                    None => {},
                }
                match description_token {
                    Some(t) => lemma_remove_id_contains(middle, t.spec_allocation(), x),
                    None => {},
                }
                let tail = all.subrange(k, all.len() as int);
                let rest = all.subrange(k + 1, all.len() as int);
                if held_by_infos(tail, x) {
                    let i = choose|i: int|
                        0 <= i < tail.len() && (token_is(#[trigger] tail[i].name.free_string, x) || token_is(
                            tail[i].description.free_string,
                            x,
                        ));
                    if i > 0 {
                        assert(rest[i - 1] == tail[i]);
                        assert(held_by_infos(rest, x));
                    } else {
                        assert(tail[0] == info);
                    }
                }
                if held_by_infos(rest, x) {
                    let i = choose|i: int|
                        0 <= i < rest.len() && (token_is(#[trigger] rest[i].name.free_string, x) || token_is(
                            rest[i].description.free_string,
                            x,
                        ));
                    assert(tail[i + 1] == rest[i]);
                    assert(held_by_infos(tail, x));
                }
                if token_is(name_token, x) || token_is(description_token, x) {
                    assert(tail[0] == info);
                    assert(held_by_infos(tail, x));
                }
            }
        }
        assert(all.subrange(0, all.len() as int) =~= all);
        let ghost before = ledger.outstanding();
        release_if_present(ledger, self.free_info_array);
        assert forall|x: u64|
            #[trigger] ledger.outstanding().contains(x) <==> (old(ledger).outstanding().contains(x)
                && !held_by_infos(all, x) && !token_is(self.free_info_array, x)) by {
            match self.free_info_array {
                Some(t) => lemma_remove_id_contains(before, t.spec_allocation(), x),
                None => {},
            }
        }
    }
}

/// Prepares the value model for use; it keeps no global state.
pub fn initialize_memory_system() {
}

/// Tears the value model down; it keeps no global state.
pub fn cleanup_memory_system() {
}

/// Ownership round trip: an allocation an owning constructor registered
/// in `ledger` (fresh there), once its callback runs, leaves exactly the
/// allocations that were outstanding before; running an absent callback
/// changes nothing (see `release_if_present`).
pub proof fn lemma_ownership_round_trip(ledger: &AllocationLedger, allocation: u64)
    requires
        ledger.wf(),
        !ledger.outstanding().contains(allocation),
    ensures
        remove_id(ledger.outstanding().push(allocation), allocation) == ledger.outstanding(),
{
    let before = ledger.outstanding();
    let s = before.push(allocation);
    assert(s.drop_last() =~= before);
    lemma_remove_id_absent(before, allocation);
}

} // verus!
