//! Storage volumes and the selection policy over a pool of them.
//!
//! A volume is a named storage location with finite capacity. New assets are
//! placed on the active volume with the smallest used space among those that
//! still have room; usage grows monotonically, only when an upload completes.

use vstd::prelude::*;

verus! {

/// One storage volume: a path with a capacity and a running usage count.
pub struct DiskStorage {
    pub id: u64,
    pub name: String,
    pub path: String,
    pub total_space: u64,
    pub used_space: u64,
    pub is_active: bool,
}

impl DiskStorage {
    /// Capacity is never exceeded: `used_space` stays within `total_space`.
    pub open spec fn wf(self) -> bool {
        self.used_space <= self.total_space
    }

    /// A volume is eligible for new allocations when it is active and not full.
    pub open spec fn eligible(self) -> bool {
        self.is_active && self.used_space < self.total_space
    }
}

/// The pool of storage volumes, with volume ids unique across the pool.
pub struct VolumeRegistry {
    pub volumes: Vec<DiskStorage>,
}

impl VolumeRegistry {
    pub open spec fn wf(self) -> bool {
        &&& forall|i: int| 0 <= i < self.volumes@.len() ==> (#[trigger] self.volumes@[i]).wf()
        &&& forall|i: int, j: int|
            0 <= i < j < self.volumes@.len() ==> self.volumes@[i].id != self.volumes@[j].id
    }

    pub open spec fn contains_disk(self, id: u64) -> bool {
        exists|i: int| 0 <= i < self.volumes@.len() && (#[trigger] self.volumes@[i]).id == id
    }

    /// The index of the volume with a given id; meaningful only when the id
    /// is present, and unique then because ids are unique.
    pub open spec fn disk_index(self, id: u64) -> int {
        choose|i: int| 0 <= i < self.volumes@.len() && (#[trigger] self.volumes@[i]).id == id
    }

    /// Some volume is active and not full.
    pub open spec fn has_eligible(self) -> bool {
        exists|j: int| 0 <= j < self.volumes@.len() && (#[trigger] self.volumes@[j]).eligible()
    }

    /// The volume at index `v` is eligible with the smallest used space
    /// among all eligible volumes: what the selection policy returns.
    pub open spec fn best_choice(self, v: int) -> bool {
        &&& 0 <= v < self.volumes@.len()
        &&& self.volumes@[v].eligible()
        &&& forall|j: int|
            0 <= j < self.volumes@.len() && (#[trigger] self.volumes@[j]).eligible()
                ==> self.volumes@[v].used_space <= self.volumes@[j].used_space
    }

    pub fn new() -> (r: VolumeRegistry)
        ensures
            r.wf(),
            r.volumes@.len() == 0,
    {
        VolumeRegistry { volumes: Vec::new() }
    }

    /// Adds a volume to the pool; refused when its id is already present or
    /// its usage exceeds its capacity.
    pub fn add_volume(&mut self, disk: DiskStorage) -> (r: bool)
        requires
            old(self).wf(),
        ensures
            final(self).wf(),
            r == (disk.wf() && !old(self).contains_disk(disk.id)),
            r ==> final(self).volumes@ == old(self).volumes@.push(disk),
            !r ==> final(self).volumes@ == old(self).volumes@,
    {
        if disk.used_space > disk.total_space {
            return false;
        }
        let mut i: usize = 0;
        while i < self.volumes.len()
            invariant
                old(self).wf(),
                0 <= i <= self.volumes@.len(),
                forall|j: int| 0 <= j < i ==> (#[trigger] self.volumes@[j]).id != disk.id,
                self.volumes@ == old(self).volumes@,
            decreases self.volumes@.len() - i,
        {
            if self.volumes[i].id == disk.id {
                return false;
            }
            i = i + 1;
        }
        self.volumes.push(disk);
        true
    }

    /// Selection policy: among volumes that are active and not full, pick the
    /// one with the smallest used space. Returns its index, or `None` when no
    /// volume is eligible (capacity exhaustion).
    pub fn get_available_disk(&self) -> (r: Option<usize>)
        ensures
            match r {
                Some(i) => {
                    &&& i < self.volumes@.len()
                    &&& self.volumes@[i as int].eligible()
                    &&& forall|j: int|
                        0 <= j < self.volumes@.len() && (#[trigger] self.volumes@[j]).eligible()
                            ==> self.volumes@[i as int].used_space <= self.volumes@[j].used_space
                },
                None => forall|j: int|
                    0 <= j < self.volumes@.len() ==> !(#[trigger] self.volumes@[j]).eligible(),
            },
    {
        let mut best: Option<usize> = None;
        let mut i: usize = 0;
        while i < self.volumes.len()
            invariant
                0 <= i <= self.volumes@.len(),
                match best {
                    Some(b) => {
                        &&& b < i
                        &&& self.volumes@[b as int].eligible()
                        &&& forall|j: int|
                            0 <= j < i && (#[trigger] self.volumes@[j]).eligible()
                                ==> self.volumes@[b as int].used_space <= self.volumes@[j].used_space
                    },
                    None => forall|j: int|
                        0 <= j < i ==> !(#[trigger] self.volumes@[j]).eligible(),
                },
            decreases self.volumes@.len() - i,
        {
            let v = &self.volumes[i];
            if v.is_active && v.used_space < v.total_space {
                match best {
                    Some(b) => {
                        if v.used_space < self.volumes[b].used_space {
                            best = Some(i);
                        }
                    },
                    None => {
                        best = Some(i);
                    },
                }
            }
            i = i + 1;
        }
        best
    }

    /// Adds `bytes` to the used space of the volume with id `disk_id`,
    /// capped at the volume's capacity so the capacity invariant holds even
    /// when the declared size of an upload overshoots the remaining room.
    /// Returns `false`, changing nothing, when the id is unknown.
    pub fn update_disk_usage(&mut self, disk_id: u64, bytes: u64) -> (r: bool)
        requires
            old(self).wf(),
        ensures
            final(self).wf(),
            r == old(self).contains_disk(disk_id),
            final(self).volumes@.len() == old(self).volumes@.len(),
            !r ==> final(self).volumes@ == old(self).volumes@,
            r ==> {
                let i = old(self).disk_index(disk_id);
                &&& 0 <= i < old(self).volumes@.len()
                &&& old(self).volumes@[i].id == disk_id
                &&& final(self).volumes@[i].used_space == vstd::math::min(
                    old(self).volumes@[i].used_space + bytes,
                    old(self).volumes@[i].total_space as int,
                )
                &&& final(self).volumes@[i].id == old(self).volumes@[i].id
                &&& final(self).volumes@[i].name == old(self).volumes@[i].name
                &&& final(self).volumes@[i].path == old(self).volumes@[i].path
                &&& final(self).volumes@[i].total_space == old(self).volumes@[i].total_space
                &&& final(self).volumes@[i].is_active == old(self).volumes@[i].is_active
                &&& forall|j: int|
                    0 <= j < final(self).volumes@.len() && j != i
                        ==> final(self).volumes@[j] == old(self).volumes@[j]
            },
    {
        let mut i: usize = 0;
        while i < self.volumes.len()
            invariant
                old(self).wf(),
                0 <= i <= self.volumes@.len(),
                self.volumes@ == old(self).volumes@,
                forall|j: int| 0 <= j < i ==> (#[trigger] self.volumes@[j]).id != disk_id,
            decreases self.volumes@.len() - i,
        {
            if self.volumes[i].id == disk_id {
                let mut v = self.volumes.remove(i);
                let room = v.total_space - v.used_space;
                if bytes <= room {
                    v.used_space = v.used_space + bytes;
                } else {
                    v.used_space = v.total_space;
                }
                self.volumes.insert(i, v);
                proof {
                    assert(old(self).volumes@[i as int].id == disk_id);
                    assert(old(self).contains_disk(disk_id));
                    let k = old(self).disk_index(disk_id);
                    assert(0 <= k < old(self).volumes@.len() && old(self).volumes@[k].id
                        == disk_id);
                    if k != i {
                        assert(old(self).volumes@[k].id != old(self).volumes@[i as int].id);
                        assert(false);
                    }
                    assert(self.volumes@ =~= old(self).volumes@.update(i as int, v));
                }
                return true;
            }
            i = i + 1;
        }
        proof {
            if old(self).contains_disk(disk_id) {
                let k = old(self).disk_index(disk_id);
                assert(old(self).volumes@[k].id == disk_id);
            }
        }
        false
    }
}

/// What an administrator supplies to register a volume.
pub struct CreateDiskStorage {
    pub name: String,
    pub path: String,
    pub total_space: u64,
    pub is_active: Option<bool>,
}

impl CreateDiskStorage {
    /// A new volume starts empty and, unless stated otherwise, active.
    pub fn into_disk(self, id: u64) -> (r: DiskStorage)
        ensures
            r.wf(),
            r.id == id,
            r.name@ == self.name@,
            r.path@ == self.path@,
            r.total_space == self.total_space,
            r.used_space == 0,
            r.is_active == match self.is_active {
                Some(b) => b,
                None => true,
            },
    {
        let is_active = match self.is_active {
            Some(b) => b,
            None => true,
        };
        DiskStorage {
            id,
            name: self.name,
            path: self.path,
            total_space: self.total_space,
            used_space: 0,
            is_active,
        }
    }
}

/// The measured space of one mounted filesystem.
pub struct DiskSpaceInfo {
    pub total: u64,
    pub available: u64,
}

/// A mounted filesystem as the system scan reports it.
pub struct SystemDiskInfo {
    pub name: String,
    pub path: String,
    pub total_space: u64,
    pub used_space: u64,
    pub available_space: u64,
    pub mount_point: String,
}

impl SystemDiskInfo {
    /// Derives the scan report for one mount from its measured space: used
    /// space is what the measurement does not report as available.
    pub fn from_space(name: String, path: String, mount_point: String, space: DiskSpaceInfo) -> (r:
        Option<SystemDiskInfo>)
        ensures
            match r {
                Some(info) => {
                    &&& space.available <= space.total
                    &&& info.name@ == name@
                    &&& info.path@ == path@
                    &&& info.mount_point@ == mount_point@
                    &&& info.total_space == space.total
                    &&& info.available_space == space.available
                    &&& info.used_space == space.total - space.available
                },
                None => space.available > space.total,
            },
    {
        if space.available > space.total {
            return None;
        }
        Some(SystemDiskInfo {
            name,
            path,
            total_space: space.total,
            used_space: space.total - space.available,
            available_space: space.available,
            mount_point,
        })
    }
}

} // verus!
