//! The object table: a fixed-capacity array of resource records together
//! with slot allocation, freeing, and external-ID validation.
//!
//! An external ID packs an object-kind tag, a per-slot generation counter,
//! and a slot index into one 32-bit word. The generation counter of a slot
//! is bumped on every allocation and is never zero while the slot is in
//! use, so a valid ID is never the undefined sentinel (zero), and an ID
//! that survived a close of its slot is rejected on resolution even after
//! the slot has been reallocated.
use vstd::prelude::*;

use crate::error::{OS_ERR_INVALID_ID, OS_ERR_NO_FREE_IDS};
use crate::types::OsalId;

verus! {

/// Discriminant for which resource-type array a slot belongs to.
/// This slice of the layer has exactly one kind.
#[derive(Debug, Clone, Copy, PartialEq, Eq, Hash, Structural)]
pub enum ObjectType {
    Stream,
}

/// Number of slots an external ID can address: the index field is 12 bits.
pub const MAX_TABLE_CAPACITY: usize = 0x1000;

/// Largest value of the 12-bit generation field.
pub const MAX_GENERATION: u32 = 0xFFF;

/// Tag stored in the kind field of an external ID.
pub open spec fn kind_tag(obj_type: ObjectType) -> u32 {
    match obj_type {
        ObjectType::Stream => 0u32,
    }
}

/// External-ID layout: bits 31..24 kind tag, bits 23..12 generation,
/// bits 11..0 slot index.
pub open spec fn spec_encode_id(kind: u32, generation: u32, idx: u32) -> u32 {
    (kind << 24) | (generation << 12) | idx
}

pub open spec fn id_kind(id: u32) -> u32 {
    id >> 24
}

pub open spec fn id_generation(id: u32) -> u32 {
    (id >> 12) & 0xFFF
}

pub open spec fn id_index(id: u32) -> u32 {
    id & 0xFFF
}

/// The three fields of an ID are recovered exactly from the packed word,
/// and the word is nonzero whenever the generation field is nonzero.
pub proof fn lemma_encode_decode(kind: u32, generation: u32, idx: u32)
    requires
        kind < 256,
        generation <= 0xFFF,
        idx < 0x1000,
    ensures
        id_kind(spec_encode_id(kind, generation, idx)) == kind,
        id_generation(spec_encode_id(kind, generation, idx)) == generation,
        id_index(spec_encode_id(kind, generation, idx)) == idx,
        generation >= 1 ==> spec_encode_id(kind, generation, idx) != 0,
{
    let k = kind;
    let g = generation;
    let i = idx;
    assert((k < 256 && g <= 0xFFF && i < 0x1000) ==> ((k << 24) | (g << 12) | i) >> 24 == k)
        by (bit_vector);
    assert((k < 256 && g <= 0xFFF && i < 0x1000) ==> (((k << 24) | (g << 12) | i) >> 12) & 0xFFF
        == g) by (bit_vector);
    assert((k < 256 && g <= 0xFFF && i < 0x1000) ==> ((k << 24) | (g << 12) | i) & 0xFFF == i)
        by (bit_vector);
    assert((k < 256 && g <= 0xFFF && i < 0x1000 && g >= 1) ==> ((k << 24) | (g << 12) | i) != 0)
        by (bit_vector);
}

/// Per-slot state for one open resource.
pub struct StreamRecord {
    /// Logical path of the currently allocated resource; empty while free.
    pub name: String,
    /// True exactly while the slot is allocated.
    pub in_use: bool,
    /// Bumped on every allocation of this slot; nonzero once the slot has
    /// ever been allocated.
    pub generation: u32,
    /// The native handle owned by this slot, as the plain value the native
    /// layer produced; present only after a successful native open.
    pub native_handle: Option<u64>,
}

/// Mathematical model of one slot.
#[verifier::ext_equal]
pub struct RecordModel {
    pub name: Seq<char>,
    pub in_use: bool,
    pub generation: u32,
    pub native_handle: Option<u64>,
}

impl View for StreamRecord {
    type V = RecordModel;

    open spec fn view(&self) -> RecordModel {
        RecordModel {
            name: self.name@,
            in_use: self.in_use,
            generation: self.generation,
            native_handle: self.native_handle,
        }
    }
}

/// A slot that is free: fully reset, keeping only its generation counter.
pub open spec fn free_record(generation: u32) -> RecordModel {
    RecordModel { name: Seq::empty(), in_use: false, generation, native_handle: None }
}

/// A slot right after allocation: in use with an empty name and no handle.
pub open spec fn allocated_record(generation: u32) -> RecordModel {
    RecordModel { name: Seq::empty(), in_use: true, generation, native_handle: None }
}

/// Well-formedness of one slot: the generation fits its 12-bit field and is
/// nonzero while the slot is allocated; a native handle is only ever owned
/// by an allocated slot; a free slot is fully reset.
pub open spec fn rec_wf(r: RecordModel) -> bool {
    &&& r.generation <= MAX_GENERATION
    &&& (r.in_use ==> r.generation >= 1)
    &&& (!r.in_use ==> r.native_handle is None && r.name.len() == 0)
}

/// Well-formedness of a whole table: bounded capacity, every slot well
/// formed.
pub open spec fn table_wf(s: Seq<RecordModel>) -> bool {
    &&& s.len() <= MAX_TABLE_CAPACITY
    &&& forall|i: int| 0 <= i < s.len() ==> rec_wf(#[trigger] s[i])
}

/// Some slot is free.
pub open spec fn has_free(s: Seq<RecordModel>) -> bool {
    exists|i: int| 0 <= i < s.len() && !(#[trigger] s[i]).in_use
}

/// `i` is the lowest free index.
pub open spec fn is_first_free(s: Seq<RecordModel>, i: int) -> bool {
    &&& 0 <= i < s.len()
    &&& !s[i].in_use
    &&& forall|j: int| 0 <= j < i ==> (#[trigger] s[j]).in_use
}

/// The lowest free index, where one exists.
pub open spec fn first_free(s: Seq<RecordModel>) -> int
    decreases s.len(),
{
    if s.len() == 0 {
        0
    } else if !s[0].in_use {
        0
    } else {
        1 + first_free(s.drop_first())
    }
}

/// On a table with a free slot, `first_free` is the lowest free index.
pub proof fn lemma_first_free(s: Seq<RecordModel>)
    requires
        has_free(s),
    ensures
        is_first_free(s, first_free(s)),
    decreases s.len(),
{
    if s.len() == 0 {
    } else if !s[0].in_use {
    } else {
        let w = choose|i: int| 0 <= i < s.len() && !(#[trigger] s[i]).in_use;
        assert(!s.drop_first()[w - 1].in_use);
        lemma_first_free(s.drop_first());
        let f = first_free(s.drop_first());
        assert(forall|j: int| 0 <= j < f ==> (#[trigger] s.drop_first()[j]).in_use);
        assert forall|j: int| 0 <= j < 1 + f implies (#[trigger] s[j]).in_use by {
            if j > 0 {
                assert(s[j] == s.drop_first()[j - 1]);
            }
        }
    }
}

/// There is only one lowest free index.
pub proof fn lemma_first_free_unique(s: Seq<RecordModel>, i: int, j: int)
    requires
        is_first_free(s, i),
        is_first_free(s, j),
    ensures
        i == j,
{
}

/// The successor of a generation value: wraps within the 12-bit field,
/// skipping zero so that an allocated slot always has a nonzero generation.
pub open spec fn next_generation(g: u32) -> u32 {
    if g >= MAX_GENERATION {
        1u32
    } else {
        (g + 1) as u32
    }
}

/// A short-lived capability pairing an object kind with a slot index and
/// the slot's generation; produced only by a successful allocation or by
/// validating an external ID, and never outliving the operation that
/// obtained it.
pub struct ObjectToken {
    pub obj_type: ObjectType,
    pub obj_idx: usize,
    pub obj_gen: u32,
}

impl ObjectToken {
    pub open spec fn wf(self) -> bool {
        &&& self.obj_idx < MAX_TABLE_CAPACITY
        &&& 1 <= self.obj_gen <= MAX_GENERATION
    }

    /// The external ID this token encodes to.
    pub open spec fn spec_id(self) -> u32 {
        spec_encode_id(kind_tag(self.obj_type), self.obj_gen, self.obj_idx as u32)
    }

    /// Derive the stable external ID from this token. A well-formed token
    /// never encodes to the undefined sentinel.
    pub fn to_osal_id(&self) -> (id: OsalId)
        requires
            self.wf(),
        ensures
            id == self.spec_id(),
            id != 0,
    {
        let kind: u32 = match self.obj_type {
            ObjectType::Stream => 0,
        };
        proof {
            lemma_encode_decode(kind, self.obj_gen, self.obj_idx as u32);
        }
        (kind << 24u32) | (self.obj_gen << 12u32) | (self.obj_idx as u32)
    }
}

/// An external ID is valid for a table exactly when its kind tag is the
/// stream tag, its index addresses a slot that is in use, and its
/// generation matches the slot's current generation.
pub open spec fn id_valid(s: Seq<RecordModel>, id: u32) -> bool {
    &&& id_kind(id) == 0
    &&& (id_index(id) as int) < s.len()
    &&& s[id_index(id) as int].in_use
    &&& s[id_index(id) as int].generation == id_generation(id)
}

/// Fixed-capacity array of stream records. Capacity is set at construction
/// and never changes.
pub struct ObjectTable {
    streams: Vec<StreamRecord>,
}

impl View for ObjectTable {
    type V = Seq<RecordModel>;

    closed spec fn view(&self) -> Seq<RecordModel> {
        Seq::new(self.streams@.len(), |i: int| self.streams@[i]@)
    }
}

impl StreamRecord {
    /// A fresh, never-allocated record.
    pub fn new() -> (r: StreamRecord)
        ensures
            r@ == free_record(0),
    {
        let r = StreamRecord { name: String::new(), in_use: false, generation: 0, native_handle: None };
        proof {
            assert(r@ =~= free_record(0));
        }
        r
    }
}

impl ObjectTable {
    pub open spec fn wf(&self) -> bool {
        table_wf(self@)
    }

    /// A table of `max_streams` free slots.
    pub fn new(max_streams: usize) -> (t: ObjectTable)
        requires
            max_streams <= MAX_TABLE_CAPACITY,
        ensures
            t@.len() == max_streams,
            forall|i: int| 0 <= i < max_streams ==> t@[i] == free_record(0),
            t.wf(),
    {
        let mut streams: Vec<StreamRecord> = Vec::new();
        let mut k: usize = 0;
        while k < max_streams
            invariant
                k <= max_streams,
                streams@.len() == k,
                forall|i: int| 0 <= i < k ==> streams@[i]@ == free_record(0),
            decreases max_streams - k,
        {
            streams.push(StreamRecord::new());
            k = k + 1;
        }
        ObjectTable { streams }
    }

    /// Number of slots; fixed for the lifetime of the table.
    pub fn capacity(&self) -> (n: usize)
        ensures
            n == self@.len(),
    {
        self.streams.len()
    }

    /// Whether some slot is free, so that the next allocation will succeed.
    pub fn has_free_slot(&self) -> (b: bool)
        ensures
            b == has_free(self@),
    {
        let n = self.streams.len();
        let mut idx: usize = 0;
        while idx < n
            invariant
                n == self@.len(),
                idx <= n,
                forall|j: int| 0 <= j < idx ==> (#[trigger] self@[j]).in_use,
            decreases n - idx,
        {
            if !self.streams[idx].in_use {
                proof {
                    assert(!self@[idx as int].in_use);
                }
                return true;
            }
            idx = idx + 1;
        }
        false
    }

    /// Allocate the lowest-index free slot for `obj_type`, marking it in
    /// use with an empty name and a freshly bumped generation. On a full
    /// table, fails with `OS_ERR_NO_FREE_IDS` and mutates nothing.
    pub fn allocate_id(&mut self, obj_type: ObjectType, _name: Option<&str>) -> (r: Result<
        ObjectToken,
        i32,
    >)
        ensures
            final(self)@.len() == old(self)@.len(),
            r is Ok <==> has_free(old(self)@),
            match r {
                Ok(token) => {
                    &&& token.obj_type == obj_type
                    &&& is_first_free(old(self)@, token.obj_idx as int)
                    &&& token.obj_gen == next_generation(
                        old(self)@[token.obj_idx as int].generation,
                    )
                    &&& final(self)@ == old(self)@.update(
                        token.obj_idx as int,
                        allocated_record(token.obj_gen),
                    )
                    &&& old(self).wf() ==> token.wf()
                },
                Err(e) => {
                    &&& e == OS_ERR_NO_FREE_IDS
                    &&& final(self)@ == old(self)@
                },
            },
            old(self).wf() ==> final(self).wf(),
    {
        let n = self.streams.len();
        let mut idx: usize = 0;
        while idx < n
            invariant
                *self == *old(self),
                n == self@.len(),
                idx <= n,
                forall|j: int| 0 <= j < idx ==> (#[trigger] self@[j]).in_use,
            decreases n - idx,
        {
            if !self.streams[idx].in_use {
                proof {
                    assert(!self@[idx as int].in_use);
                }
                let g0 = self.streams[idx].generation;
                let g: u32 = if g0 >= MAX_GENERATION {
                    1
                } else {
                    g0 + 1
                };
                self.streams[idx] = StreamRecord {
                    name: String::new(),
                    in_use: true,
                    generation: g,
                    native_handle: None,
                };
                proof {
                    assert(self@ =~= old(self)@.update(idx as int, allocated_record(g)));
                }
                return Ok(ObjectToken { obj_type, obj_idx: idx, obj_gen: g });
            }
            idx = idx + 1;
        }
        Err(OS_ERR_NO_FREE_IDS)
    }

    /// Reset the slot a token addresses: not in use, name cleared, native
    /// handle dropped. The generation counter is kept, so IDs issued for
    /// the closed resource stay invalid after reallocation. A token of a
    /// foreign kind or out of range mutates nothing.
    pub fn free_id(&mut self, token: &ObjectToken)
        ensures
            final(self)@.len() == old(self)@.len(),
            token.obj_type == ObjectType::Stream && (token.obj_idx as int) < old(self)@.len()
                ==> final(self)@ == old(self)@.update(
                token.obj_idx as int,
                free_record(old(self)@[token.obj_idx as int].generation),
            ),
            !(token.obj_type == ObjectType::Stream && (token.obj_idx as int) < old(self)@.len())
                ==> final(self)@ == old(self)@,
            old(self).wf() ==> final(self).wf(),
    {
        if token.obj_type == ObjectType::Stream && token.obj_idx < self.streams.len() {
            let g = self.streams[token.obj_idx].generation;
            self.streams[token.obj_idx] = StreamRecord {
                name: String::new(),
                in_use: false,
                generation: g,
                native_handle: None,
            };
            proof {
                assert(self@ =~= old(self)@.update(token.obj_idx as int, free_record(g)));
            }
        }
    }

    /// Read access to the record a token addresses.
    pub fn get_stream(&self, token: &ObjectToken) -> (r: &StreamRecord)
        requires
            (token.obj_idx as int) < self@.len(),
        ensures
            r@ == self@[token.obj_idx as int],
    {
        &self.streams[token.obj_idx]
    }

    /// Record the logical name into the slot a token addresses.
    pub fn set_stream_name(&mut self, token: &ObjectToken, name: &str)
        requires
            (token.obj_idx as int) < old(self)@.len(),
        ensures
            final(self)@ == old(self)@.update(
                token.obj_idx as int,
                (RecordModel { name: name@, ..old(self)@[token.obj_idx as int] }),
            ),
            old(self).wf() && old(self)@[token.obj_idx as int].in_use ==> final(self).wf(),
    {
        self.streams[token.obj_idx].name = name.to_owned();
        proof {
            assert(self@ =~= old(self)@.update(
                token.obj_idx as int,
                RecordModel { name: name@, ..old(self)@[token.obj_idx as int] },
            ));
        }
    }

    /// Store the native handle produced by a successful native open into
    /// the slot a token addresses. The slot must be allocated: only an
    /// in-use slot may own a handle.
    pub fn set_stream_handle(&mut self, token: &ObjectToken, handle: u64)
        requires
            (token.obj_idx as int) < old(self)@.len(),
            old(self)@[token.obj_idx as int].in_use,
        ensures
            final(self)@ == old(self)@.update(
                token.obj_idx as int,
                (RecordModel { native_handle: Some(handle), ..old(self)@[token.obj_idx as int] }),
            ),
            old(self).wf() ==> final(self).wf(),
    {
        self.streams[token.obj_idx].native_handle = Some(handle);
        proof {
            assert(self@ =~= old(self)@.update(
                token.obj_idx as int,
                RecordModel {
                    native_handle: Some(handle),
                    ..old(self)@[token.obj_idx as int]
                },
            ));
        }
    }

    /// Decode and validate an external ID, the sole authority for
    /// rejecting stale, forged, or already-closed handles: the kind tag
    /// must be recognized, the index in range, the slot in use, and the
    /// embedded generation equal to the slot's current one.
    pub fn id_to_token(&self, id: OsalId) -> (r: Result<ObjectToken, i32>)
        ensures
            r is Ok <==> id_valid(self@, id),
            match r {
                Ok(token) => {
                    &&& token.obj_type == ObjectType::Stream
                    &&& token.obj_idx == id_index(id)
                    &&& token.obj_gen == id_generation(id)
                    &&& self.wf() ==> token.wf()
                },
                Err(e) => e == OS_ERR_INVALID_ID,
            },
    {
        let obj_type_num = id >> 24;
        let obj_gen = (id >> 12) & 0xFFF;
        let obj_idx = (id & 0xFFF) as usize;

        if obj_type_num != 0 {
            return Err(OS_ERR_INVALID_ID);
        }
        if obj_idx >= self.streams.len() {
            return Err(OS_ERR_INVALID_ID);
        }
        if !self.streams[obj_idx].in_use {
            return Err(OS_ERR_INVALID_ID);
        }
        if self.streams[obj_idx].generation != obj_gen {
            return Err(OS_ERR_INVALID_ID);
        }
        Ok(ObjectToken { obj_type: ObjectType::Stream, obj_idx, obj_gen })
    }
}

} // verus!
