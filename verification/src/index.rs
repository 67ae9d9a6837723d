use vstd::prelude::*;

use crate::devices::Device;
use crate::devices::duplicate_devices;
use std::sync::OnceLock;

verus! {

// ---------------------------------------------------------------------------
// The IEEE-754 total order on binary64 bit patterns.
//
// Coordinates are carried as bit patterns (see the crate documentation), so
// the index orders them by the IEEE-754 total order, which this layer can
// state and compute exactly on the patterns themselves: non-negative values
// keep the order of their patterns above every negative value, and the order
// of the negative patterns is reversed.
// ---------------------------------------------------------------------------

/// The rank of a binary64 bit pattern in the IEEE-754 total order.
pub open spec fn spec_total_order_key(b: u64) -> int {
    if b < 0x8000_0000_0000_0000 {
        b + 0x8000_0000_0000_0000
    } else {
        0xffff_ffff_ffff_ffffu64 - b
    }
}

/// `a` comes no later than `b` in the IEEE-754 total order.
pub open spec fn bits_le(a: u64, b: u64) -> bool {
    spec_total_order_key(a) <= spec_total_order_key(b)
}

/// The earlier of two bit patterns under the total order.
pub open spec fn spec_bits_min(a: u64, b: u64) -> u64 {
    if bits_le(a, b) {
        a
    } else {
        b
    }
}

/// The later of two bit patterns under the total order.
pub open spec fn spec_bits_max(a: u64, b: u64) -> u64 {
    if bits_le(a, b) {
        b
    } else {
        a
    }
}

fn total_order_key(b: u64) -> (k: u64)
    ensures
        k == spec_total_order_key(b),
{
    if b < 0x8000_0000_0000_0000 {
        b + 0x8000_0000_0000_0000
    } else {
        0xffff_ffff_ffff_ffff - b
    }
}

pub fn bits_min(a: u64, b: u64) -> (r: u64)
    ensures
        r == spec_bits_min(a, b),
{
    if total_order_key(a) <= total_order_key(b) {
        a
    } else {
        b
    }
}

pub fn bits_max(a: u64, b: u64) -> (r: u64)
    ensures
        r == spec_bits_max(a, b),
{
    if total_order_key(a) <= total_order_key(b) {
        b
    } else {
        a
    }
}

/// The least element of a non-empty sequence of bit patterns under the
/// total order, folded left to right.
pub open spec fn seq_bits_min(s: Seq<u64>) -> u64
    recommends
        s.len() > 0,
    decreases s.len(),
{
    if s.len() <= 1 {
        s[0]
    } else {
        spec_bits_min(seq_bits_min(s.drop_last()), s.last())
    }
}

/// The greatest element of a non-empty sequence of bit patterns under the
/// total order, folded left to right.
pub open spec fn seq_bits_max(s: Seq<u64>) -> u64
    recommends
        s.len() > 0,
    decreases s.len(),
{
    if s.len() <= 1 {
        s[0]
    } else {
        spec_bits_max(seq_bits_max(s.drop_last()), s.last())
    }
}

proof fn lemma_fold_step(s: Seq<u64>, x: u64)
    requires
        s.len() >= 1,
    ensures
        seq_bits_min(s.push(x)) == spec_bits_min(seq_bits_min(s), x),
        seq_bits_max(s.push(x)) == spec_bits_max(seq_bits_max(s), x),
{
    assert(s.push(x).drop_last() =~= s);
    assert(s.push(x).last() == x);
}

/// Every element of a non-empty sequence lies between the sequence's
/// folded min and folded max in the total order.
pub proof fn lemma_fold_bounds(s: Seq<u64>, i: int)
    requires
        0 <= i < s.len(),
    ensures
        bits_le(seq_bits_min(s), s[i]),
        bits_le(s[i], seq_bits_max(s)),
    decreases s.len(),
{
    if s.len() > 1 && i < s.len() - 1 {
        lemma_fold_bounds(s.drop_last(), i);
    }
}

// ---------------------------------------------------------------------------
// The spatial index.
// ---------------------------------------------------------------------------

/// The enclosing region of a leaf set: for each axis, the least of the
/// leaves' min coordinates and the greatest of their max coordinates,
/// under the IEEE-754 total order.
#[derive(Clone, Copy, PartialEq, Eq, Structural, Debug)]
pub struct IndexBounds {
    pub min_x: u64,
    pub min_y: u64,
    pub min_z: u64,
    pub max_x: u64,
    pub max_y: u64,
    pub max_z: u64,
}

/// The bounds that enclose a non-empty device sequence.
pub open spec fn spec_enclosing_bounds(s: Seq<Device>) -> IndexBounds
    recommends
        s.len() > 0,
{
    IndexBounds {
        min_x: seq_bits_min(s.map_values(|d: Device| d.min_x)),
        min_y: seq_bits_min(s.map_values(|d: Device| d.min_y)),
        min_z: seq_bits_min(s.map_values(|d: Device| d.min_z)),
        max_x: seq_bits_max(s.map_values(|d: Device| d.max_x)),
        max_y: seq_bits_max(s.map_values(|d: Device| d.max_y)),
        max_z: seq_bits_max(s.map_values(|d: Device| d.max_z)),
    }
}

/// A bounding-volume index over a device list: one leaf per device, in
/// input order, under the enclosing bounds of the whole set. Immutable
/// once built; its membership is exactly the device sequence it was built
/// from. For the low device cardinality this layer expects, a single
/// partition level under one root region is the accepted shape; the query
/// algorithms that walk it belong to external consumers.
#[derive(Debug)]
pub struct SpatialIndex {
    leaves: Vec<Device>,
    bounds: Option<IndexBounds>,
}

impl View for SpatialIndex {
    type V = Seq<Device>;

    closed spec fn view(&self) -> Seq<Device> {
        self.leaves@
    }
}

impl SpatialIndex {
    pub closed spec fn spec_bounds(&self) -> Option<IndexBounds> {
        self.bounds
    }

    /// The bounds are absent exactly for an empty leaf set, and otherwise
    /// enclose every leaf.
    pub open spec fn wf(&self) -> bool {
        &&& (self@.len() == 0 <==> self.spec_bounds() is None)
        &&& self@.len() > 0 ==> self.spec_bounds() == Some(spec_enclosing_bounds(self@))
    }

    /// Builds the index from a snapshot of the device list: leaf count equal
    /// to device count, leaves in input order, construction deterministic in
    /// that order. An empty device set yields a valid, empty index.
    pub fn build(devices: &Vec<Device>) -> (r: SpatialIndex)
        ensures
            r@ == devices@,
            r.wf(),
    {
        let leaves = duplicate_devices(devices);
        let bounds = enclosing_bounds(&leaves);
        SpatialIndex { leaves, bounds }
    }

    /// How many leaves the index holds: exactly one per device.
    pub fn len(&self) -> (n: usize)
        ensures
            n == self@.len(),
    {
        self.leaves.len()
    }

    /// The leaf at position `i`: the device at the same position of the
    /// list the index was built from.
    pub fn leaf(&self, i: usize) -> (d: &Device)
        requires
            i < self@.len(),
        ensures
            *d == self@[i as int],
    {
        &self.leaves[i]
    }

    /// The root region of the index, absent only for an empty index.
    pub fn bounds(&self) -> (b: Option<IndexBounds>)
        ensures
            b == self.spec_bounds(),
    {
        self.bounds
    }

    /// Whether some leaf carries this name.
    pub fn contains_name(&self, name: &String) -> (r: bool)
        ensures
            r == exists|i: int| 0 <= i < self@.len() && self@[i].name@ == name@,
    {
        let mut i: usize = 0;
        while i < self.leaves.len()
            invariant
                i <= self@.len(),
                forall|j: int| 0 <= j < i ==> self@[j].name@ != name@,
            decreases self@.len() - i,
        {
            if self.leaves[i].name == *name {
                assert(self@[i as int].name@ == name@);
                return true;
            }
            i = i + 1;
        }
        false
    }
}

/// The root region of a well-formed, non-empty index encloses every leaf:
/// on each axis, the region's min comes no later than the leaf's min, and
/// the leaf's max no later than the region's max, in the IEEE-754 total
/// order.
pub proof fn lemma_bounds_enclose_leaves(idx: SpatialIndex, i: int)
    requires
        idx.wf(),
        0 <= i < idx@.len(),
    ensures
        idx.spec_bounds() is Some,
        bits_le(idx.spec_bounds()->Some_0.min_x, idx@[i].min_x),
        bits_le(idx.spec_bounds()->Some_0.min_y, idx@[i].min_y),
        bits_le(idx.spec_bounds()->Some_0.min_z, idx@[i].min_z),
        bits_le(idx@[i].max_x, idx.spec_bounds()->Some_0.max_x),
        bits_le(idx@[i].max_y, idx.spec_bounds()->Some_0.max_y),
        bits_le(idx@[i].max_z, idx.spec_bounds()->Some_0.max_z),
{
    lemma_fold_bounds(idx@.map_values(|d: Device| d.min_x), i);
    lemma_fold_bounds(idx@.map_values(|d: Device| d.min_y), i);
    lemma_fold_bounds(idx@.map_values(|d: Device| d.min_z), i);
    lemma_fold_bounds(idx@.map_values(|d: Device| d.max_x), i);
    lemma_fold_bounds(idx@.map_values(|d: Device| d.max_y), i);
    lemma_fold_bounds(idx@.map_values(|d: Device| d.max_z), i);
}

fn enclosing_bounds(devices: &Vec<Device>) -> (r: Option<IndexBounds>)
    ensures
        (devices@.len() == 0 <==> r is None),
        devices@.len() > 0 ==> r == Some(spec_enclosing_bounds(devices@)),
{
    if devices.len() == 0 {
        return None;
    }
    let first = &devices[0];
    let mut b = IndexBounds {
        min_x: first.min_x,
        min_y: first.min_y,
        min_z: first.min_z,
        max_x: first.max_x,
        max_y: first.max_y,
        max_z: first.max_z,
    };
    assert(devices@.subrange(0, 1).map_values(|d: Device| d.min_x) =~=
        seq![devices@[0].min_x]);
    let mut i: usize = 1;
    while i < devices.len()
        invariant
            1 <= i <= devices@.len(),
            b == spec_enclosing_bounds(devices@.subrange(0, i as int)),
        decreases devices@.len() - i,
    {
        let d = &devices[i];
        proof {
            lemma_bounds_step(devices@, i as int);
        }
        b = IndexBounds {
            min_x: bits_min(b.min_x, d.min_x),
            min_y: bits_min(b.min_y, d.min_y),
            min_z: bits_min(b.min_z, d.min_z),
            max_x: bits_max(b.max_x, d.max_x),
            max_y: bits_max(b.max_y, d.max_y),
            max_z: bits_max(b.max_z, d.max_z),
        };
        i = i + 1;
    }
    assert(devices@.subrange(0, devices@.len() as int) =~= devices@);
    Some(b)
}

/// Extending the enclosed prefix by one device folds that device's corners
/// into the bounds, axis by axis.
proof fn lemma_bounds_step(s: Seq<Device>, i: int)
    requires
        1 <= i < s.len(),
    ensures
        spec_enclosing_bounds(s.subrange(0, i + 1)) == (IndexBounds {
            min_x: spec_bits_min(seq_bits_min(s.subrange(0, i).map_values(|d: Device| d.min_x)), s[i].min_x),
            min_y: spec_bits_min(seq_bits_min(s.subrange(0, i).map_values(|d: Device| d.min_y)), s[i].min_y),
            min_z: spec_bits_min(seq_bits_min(s.subrange(0, i).map_values(|d: Device| d.min_z)), s[i].min_z),
            max_x: spec_bits_max(seq_bits_max(s.subrange(0, i).map_values(|d: Device| d.max_x)), s[i].max_x),
            max_y: spec_bits_max(seq_bits_max(s.subrange(0, i).map_values(|d: Device| d.max_y)), s[i].max_y),
            max_z: spec_bits_max(seq_bits_max(s.subrange(0, i).map_values(|d: Device| d.max_z)), s[i].max_z),
        }),
{
    let pre = s.subrange(0, i);
    let ext = s.subrange(0, i + 1);
    assert(ext.map_values(|d: Device| d.min_x) =~= pre.map_values(|d: Device| d.min_x).push(s[i].min_x));
    assert(ext.map_values(|d: Device| d.min_y) =~= pre.map_values(|d: Device| d.min_y).push(s[i].min_y));
    assert(ext.map_values(|d: Device| d.min_z) =~= pre.map_values(|d: Device| d.min_z).push(s[i].min_z));
    assert(ext.map_values(|d: Device| d.max_x) =~= pre.map_values(|d: Device| d.max_x).push(s[i].max_x));
    assert(ext.map_values(|d: Device| d.max_y) =~= pre.map_values(|d: Device| d.max_y).push(s[i].max_y));
    assert(ext.map_values(|d: Device| d.max_z) =~= pre.map_values(|d: Device| d.max_z).push(s[i].max_z));
    lemma_fold_step(pre.map_values(|d: Device| d.min_x), s[i].min_x);
    lemma_fold_step(pre.map_values(|d: Device| d.min_y), s[i].min_y);
    lemma_fold_step(pre.map_values(|d: Device| d.min_z), s[i].min_z);
    lemma_fold_step(pre.map_values(|d: Device| d.max_x), s[i].max_x);
    lemma_fold_step(pre.map_values(|d: Device| d.max_y), s[i].max_y);
    lemma_fold_step(pre.map_values(|d: Device| d.max_z), s[i].max_z);
}

// ---------------------------------------------------------------------------
// The lazily-initialized, publish-once holder of the index.
// ---------------------------------------------------------------------------

#[verifier::external_type_specification]
#[verifier::external_body]
#[verifier::reject_recursive_types(T)]
pub struct ExOnceLock<T>(OnceLock<T>);

/// Relies on std::sync::OnceLock::new: it creates a cell with no stored
/// value, so the first `get_or_init` on it runs its closure. No clause is
/// stated; what the pairing of a fresh cell with its snapshot guarantees
/// is stated on `LazyIndex::get`.
#[verifier::external_body]
fn new_index_cell() -> OnceLock<SpatialIndex> {
    OnceLock::new()
}

/// The one-time, thread-safe home of the spatial index: it holds the device
/// snapshot the index is keyed on, and a publish-once cell that is filled at
/// most once, on the first demand, from whichever thread makes it.
#[derive(Debug)]
pub struct LazyIndex {
    devices: Vec<Device>,
    cell: OnceLock<SpatialIndex>,
}

impl View for LazyIndex {
    type V = Seq<Device>;

    closed spec fn view(&self) -> Seq<Device> {
        self.devices@
    }
}

impl LazyIndex {
    /// Takes the snapshot the index will be built from, with an empty cell.
    pub fn new(devices: Vec<Device>) -> (r: LazyIndex)
        ensures
            r@ == devices@,
    {
        LazyIndex {
            devices,
            cell: new_index_cell(),
        }
    }

    /// The single spatial index of this holder, built on the first call.
    ///
    /// Relies on std::sync::OnceLock::get_or_init: however many threads
    /// call concurrently, at most one initialization closure runs; callers
    /// that arrive during the run block until it completes rather than see
    /// a partial value; and every caller, early or late, is handed the one
    /// stored value. The closure builds from `self.devices`, which is
    /// written only by `new` — where it is paired with a fresh, empty cell —
    /// and mutated by no method, so the stored value is always
    /// `SpatialIndex::build` of that snapshot, whose contract the clauses
    /// below restate.
    #[verifier::external_body]
    pub fn get(&self) -> (r: &SpatialIndex)
        ensures
            r@ == self@,
            r.wf(),
    {
        self.cell.get_or_init(|| SpatialIndex::build(&self.devices))
    }
}

} // verus!
