use vstd::prelude::*;

verus! {

/// A named axis-aligned bounding region in world space, immutable after
/// load. The six corner coordinates are IEEE-754 binary64 bit patterns
/// (see the crate documentation). The conventional invariant that each
/// axis satisfies min <= max is not checked at load time: a malformed box
/// is carried through unchanged, a documented gap of this layer.
#[derive(Clone, Debug)]
pub struct Device {
    pub name: String,
    pub min_x: u64,
    pub min_y: u64,
    pub min_z: u64,
    pub max_x: u64,
    pub max_y: u64,
    pub max_z: u64,
}

impl Device {
    /// An exact copy. Unlike the derived `Clone`, its contract states that
    /// the copy equals the original, which the index snapshot relies on.
    pub fn duplicate(&self) -> (r: Device)
        ensures
            r == *self,
    {
        Device {
            name: self.name.clone(),
            min_x: self.min_x,
            min_y: self.min_y,
            min_z: self.min_z,
            max_x: self.max_x,
            max_y: self.max_y,
            max_z: self.max_z,
        }
    }
}

/// An element-for-element copy of a device list, equal to the input.
pub fn duplicate_devices(devices: &Vec<Device>) -> (r: Vec<Device>)
    ensures
        r@ == devices@,
{
    let mut out: Vec<Device> = Vec::new();
    let mut i: usize = 0;
    while i < devices.len()
        invariant
            i <= devices.len(),
            out@ =~= devices@.subrange(0, i as int),
        decreases devices.len() - i,
    {
        out.push(devices[i].duplicate());
        assert(out@ =~= devices@.subrange(0, i + 1));
        i = i + 1;
    }
    assert(out@ =~= devices@);
    out
}

} // verus!
