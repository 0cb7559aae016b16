use chunkstore::volume::{CreateDiskStorage, DiskSpaceInfo, DiskStorage, SystemDiskInfo, VolumeRegistry};

fn disk(id: u64, total: u64, used: u64, active: bool) -> DiskStorage {
    DiskStorage {
        id,
        name: format!("disk{}", id),
        path: format!("/mnt/disk{}", id),
        total_space: total,
        used_space: used,
        is_active: active,
    }
}

const MB: u64 = 1024 * 1024;

#[test]
fn selects_smallest_usage_even_when_not_first() {
    // Pool: first volume has 10MB free, second has 100MB free (smaller usage).
    let mut reg = VolumeRegistry::new();
    assert!(reg.add_volume(disk(1, 100 * MB, 90 * MB, true)));
    assert!(reg.add_volume(disk(2, 150 * MB, 50 * MB, true)));
    let chosen = reg.get_available_disk().expect("a volume must be eligible");
    assert_eq!(chosen, 1);
    assert_eq!(reg.volumes[chosen].id, 2);
    assert_eq!(reg.volumes[chosen].used_space, 50 * MB);
}

#[test]
fn empty_pool_is_capacity_exhausted() {
    let reg = VolumeRegistry::new();
    assert!(reg.get_available_disk().is_none());
}

#[test]
fn inactive_and_full_volumes_are_never_selected() {
    let mut reg = VolumeRegistry::new();
    assert!(reg.add_volume(disk(1, 100, 10, false)));
    assert!(reg.add_volume(disk(2, 100, 100, true)));
    assert!(reg.get_available_disk().is_none());
    assert!(reg.add_volume(disk(3, 100, 99, true)));
    let chosen = reg.get_available_disk().expect("the active non-full volume");
    assert_eq!(reg.volumes[chosen].id, 3);
}

#[test]
fn usage_is_added_exactly() {
    let mut reg = VolumeRegistry::new();
    assert!(reg.add_volume(disk(7, 1000, 100, true)));
    assert!(reg.update_disk_usage(7, 250));
    assert_eq!(reg.volumes[0].used_space, 350);
    assert_eq!(reg.volumes[0].total_space, 1000);
}

#[test]
fn usage_saturates_at_capacity() {
    let mut reg = VolumeRegistry::new();
    assert!(reg.add_volume(disk(7, 100, 90, true)));
    assert!(reg.update_disk_usage(7, 20));
    assert_eq!(reg.volumes[0].used_space, 100);
}

#[test]
fn usage_of_unknown_volume_changes_nothing() {
    let mut reg = VolumeRegistry::new();
    assert!(reg.add_volume(disk(7, 100, 10, true)));
    assert!(!reg.update_disk_usage(8, 20));
    assert_eq!(reg.volumes[0].used_space, 10);
}

#[test]
fn duplicate_volume_ids_are_refused() {
    let mut reg = VolumeRegistry::new();
    assert!(reg.add_volume(disk(1, 100, 0, true)));
    assert!(!reg.add_volume(disk(1, 200, 0, true)));
    assert_eq!(reg.volumes.len(), 1);
}

#[test]
fn overfull_volume_is_refused() {
    let mut reg = VolumeRegistry::new();
    assert!(!reg.add_volume(disk(1, 100, 101, true)));
    assert_eq!(reg.volumes.len(), 0);
}

#[test]
fn created_volume_starts_empty_and_active() {
    let req = CreateDiskStorage {
        name: "vault".to_string(),
        path: "/mnt/vault".to_string(),
        total_space: 5000,
        is_active: None,
    };
    let d = req.into_disk(42);
    assert_eq!(d.id, 42);
    assert_eq!(d.used_space, 0);
    assert_eq!(d.total_space, 5000);
    assert!(d.is_active);
    let req2 = CreateDiskStorage {
        name: "cold".to_string(),
        path: "/mnt/cold".to_string(),
        total_space: 5000,
        is_active: Some(false),
    };
    assert!(!req2.into_disk(43).is_active);
}

#[test]
fn system_disk_info_derives_used_space() {
    let info = SystemDiskInfo::from_space(
        "root".to_string(),
        "/".to_string(),
        "/".to_string(),
        DiskSpaceInfo { total: 1000, available: 400 },
    )
    .expect("available within total");
    assert_eq!(info.used_space, 600);
    assert_eq!(info.total_space, 1000);
    assert_eq!(info.available_space, 400);
    assert!(SystemDiskInfo::from_space(
        "bad".to_string(),
        "/bad".to_string(),
        "/bad".to_string(),
        DiskSpaceInfo { total: 10, available: 20 },
    )
    .is_none());
}
