//! Exactly-once assembly of a completed upload.
//!
//! Two callers can observe completion at nearly the same time, so assembly
//! is guarded by an explicit claim: `begin_finalize` grants the claim to one
//! caller and answers every later caller with `AlreadyFinalized`. The winner
//! gets a plan — the assembled bytes and their destination — writes it out,
//! and then either commits (the session is deleted and, for pool-placed
//! assets, the volume's usage grows by the declared size, exactly once) or
//! aborts (the claim is released with the chunks intact, so assembly can be
//! retried). Until the commit, no usage is recorded and nothing is deleted.

use vstd::prelude::*;
use crate::api::UploadError;
use crate::config::AssetClass;
use crate::naming::make_asset_name;
use crate::naming::spec_asset_name;
use crate::session::assembled_bytes;
use crate::store::SessionStore;
use crate::volume::VolumeRegistry;

verus! {

/// The volume an assembled asset was assigned to.
#[derive(Debug)]
pub struct DiskSelection {
    pub id: u64,
    pub name: String,
    pub path: String,
}

/// Everything the claim winner needs to write the assembled asset: its
/// bytes, its stored name, the declared size to account for, and the chosen
/// volume (`None` for assets that go to the fixed local directory).
#[derive(Debug)]
pub struct FinalizePlan {
    pub upload_id: String,
    pub file_name: String,
    pub data: Vec<u8>,
    pub total_size: u64,
    pub disk: Option<DiskSelection>,
}

/// `disk` names the volume the selection policy picks from `registry`.
pub open spec fn selected_from(disk: DiskSelection, registry: VolumeRegistry) -> bool {
    exists|v: int|
        #[trigger] registry.best_choice(v) && disk.id == registry.volumes@[v].id
            && disk.name@ == registry.volumes@[v].name@
            && disk.path@ == registry.volumes@[v].path@
}

/// Claims a completed upload for assembly and plans the assembly: the chunks
/// are concatenated in ascending order under a name built from the content
/// token. Exactly one call per upload can succeed; a later call finds the
/// claim taken. Capacity exhaustion changes nothing, so the staged chunks
/// survive for a retry.
pub fn begin_finalize(
    store: &mut SessionStore,
    registry: &VolumeRegistry,
    class: AssetClass,
    upload_id: &String,
    content_token: &str,
) -> (r: Result<FinalizePlan, UploadError>)
    requires
        old(store).wf(),
    ensures
        final(store).wf(),
        ({
            let pre = *old(store);
            let post = *final(store);
            if !pre.contains_id(upload_id@) {
                &&& r matches Err(e) && e == UploadError::NotFound
                &&& post.sessions@ == pre.sessions@
            } else {
                let i = pre.session_index(upload_id@);
                let s = pre.sessions@[i];
                if !s.complete() {
                    &&& r matches Err(e) && e == UploadError::Incomplete
                    &&& post.sessions@ == pre.sessions@
                } else if s.finalized {
                    &&& r matches Err(e) && e == UploadError::AlreadyFinalized
                    &&& post.sessions@ == pre.sessions@
                } else if class == AssetClass::Video && !registry.has_eligible() {
                    &&& r matches Err(e) && e == UploadError::CapacityExhausted
                    &&& post.sessions@ == pre.sessions@
                } else {
                    &&& r matches Ok(plan) && {
                        &&& plan.upload_id@ == upload_id@
                        &&& plan.total_size == s.total_size
                        &&& plan.data@ == assembled_bytes(s.chunks@, s.total_chunks as int)
                        &&& plan.file_name@ == spec_asset_name(content_token@, s.file_name@, class)
                        &&& (class == AssetClass::Video ==> (plan.disk matches Some(d)
                            && selected_from(d, *registry)))
                        &&& (class != AssetClass::Video ==> plan.disk is None)
                    }
                    &&& post.sessions@.len() == pre.sessions@.len()
                    &&& post.sessions@[i].same_metadata(s)
                    &&& post.sessions@[i].finalized
                    &&& post.sessions@[i].chunks@ == s.chunks@
                    &&& forall|j: int|
                        0 <= j < post.sessions@.len() && j != i
                            ==> post.sessions@[j] == pre.sessions@[j]
                }
            }
        }),
{
    let i = match store.find(upload_id) {
        None => {
            return Err(UploadError::NotFound);
        },
        Some(i) => i,
    };
    if !store.sessions[i].is_complete() {
        return Err(UploadError::Incomplete);
    }
    if store.sessions[i].finalized {
        return Err(UploadError::AlreadyFinalized);
    }
    let disk: Option<DiskSelection> = if class == AssetClass::Video {
        match registry.get_available_disk() {
            None => {
                return Err(UploadError::CapacityExhausted);
            },
            Some(v) => {
                let vol = &registry.volumes[v];
                let d = DiskSelection { id: vol.id, name: vol.name.clone(), path: vol.path.clone() };
                proof {
                    assert(registry.best_choice(v as int));
                    assert(selected_from(d, *registry));
                }
                Some(d)
            },
        }
    } else {
        None
    };
    let s = &store.sessions[i];
    let data = s.assemble();
    let file_name = make_asset_name(content_token, s.file_name.as_str(), class);
    let total_size = s.total_size;
    let plan_upload_id = upload_id.clone();
    store.claim_at(i);
    Ok(FinalizePlan { upload_id: plan_upload_id, file_name, data, total_size, disk })
}

/// Commits a claimed upload once its asset is durably written: the session
/// and all its chunks are deleted, and for a pool-placed asset the chosen
/// volume's used space grows by the declared total size — once, since the
/// session is gone afterwards.
pub fn commit_finalize(
    store: &mut SessionStore,
    registry: &mut VolumeRegistry,
    plan: &FinalizePlan,
) -> (r: Result<(), UploadError>)
    requires
        old(store).wf(),
        old(registry).wf(),
    ensures
        final(store).wf(),
        final(registry).wf(),
        ({
            let pre = *old(store);
            let post = *final(store);
            if !pre.contains_id(plan.upload_id@) {
                &&& r matches Err(e) && e == UploadError::NotFound
                &&& post.sessions@ == pre.sessions@
                &&& final(registry).volumes@ == old(registry).volumes@
            } else {
                let i = pre.session_index(plan.upload_id@);
                if !pre.sessions@[i].finalized {
                    &&& r matches Err(e) && e == UploadError::NotClaimed
                    &&& post.sessions@ == pre.sessions@
                    &&& final(registry).volumes@ == old(registry).volumes@
                } else if plan.disk matches Some(d) && !old(registry).contains_disk(d.id) {
                    &&& r matches Err(e) && e == UploadError::NotFound
                    &&& post.sessions@ == pre.sessions@
                    &&& final(registry).volumes@ == old(registry).volumes@
                } else {
                    &&& r matches Ok(u) && u == ()
                    &&& post.sessions@ == pre.sessions@.remove(i)
                    &&& !post.contains_id(plan.upload_id@)
                    &&& match plan.disk {
                        Some(d) => {
                            let v = old(registry).disk_index(d.id);
                            &&& 0 <= v < old(registry).volumes@.len()
                            &&& old(registry).volumes@[v].id == d.id
                            &&& final(registry).volumes@.len() == old(registry).volumes@.len()
                            &&& final(registry).volumes@[v].used_space == vstd::math::min(
                                old(registry).volumes@[v].used_space + plan.total_size,
                                old(registry).volumes@[v].total_space as int,
                            )
                            &&& final(registry).volumes@[v].id == old(registry).volumes@[v].id
                            &&& final(registry).volumes@[v].name == old(registry).volumes@[v].name
                            &&& final(registry).volumes@[v].path == old(registry).volumes@[v].path
                            &&& final(registry).volumes@[v].total_space
                                == old(registry).volumes@[v].total_space
                            &&& final(registry).volumes@[v].is_active
                                == old(registry).volumes@[v].is_active
                            &&& forall|j: int|
                                0 <= j < final(registry).volumes@.len() && j != v
                                    ==> final(registry).volumes@[j] == old(registry).volumes@[j]
                        },
                        None => final(registry).volumes@ == old(registry).volumes@,
                    }
                }
            }
        }),
{
    let i = match store.find(&plan.upload_id) {
        None => {
            return Err(UploadError::NotFound);
        },
        Some(i) => i,
    };
    if !store.sessions[i].finalized {
        return Err(UploadError::NotClaimed);
    }
    match &plan.disk {
        Some(d) => {
            if !registry.update_disk_usage(d.id, plan.total_size) {
                return Err(UploadError::NotFound);
            }
        },
        None => {},
    }
    store.remove_at(i);
    Ok(())
}

/// Releases the claim after a failed write, leaving the chunks intact so
/// that assembly can be retried; nothing was deleted and no usage was
/// recorded, so the failure is not destructive.
pub fn abort_finalize(store: &mut SessionStore, upload_id: &String) -> (r: Result<(), UploadError>)
    requires
        old(store).wf(),
    ensures
        final(store).wf(),
        ({
            let pre = *old(store);
            let post = *final(store);
            if !pre.contains_id(upload_id@) {
                &&& r matches Err(e) && e == UploadError::NotFound
                &&& post.sessions@ == pre.sessions@
            } else {
                let i = pre.session_index(upload_id@);
                &&& r matches Ok(u) && u == ()
                &&& post.sessions@.len() == pre.sessions@.len()
                &&& post.sessions@[i].same_metadata(pre.sessions@[i])
                &&& !post.sessions@[i].finalized
                &&& post.sessions@[i].chunks@ == pre.sessions@[i].chunks@
                &&& forall|j: int|
                    0 <= j < post.sessions@.len() && j != i
                        ==> post.sessions@[j] == pre.sessions@[j]
            }
        }),
{
    let i = match store.find(upload_id) {
        None => {
            return Err(UploadError::NotFound);
        },
        Some(i) => i,
    };
    store.release_at(i);
    Ok(())
}

} // verus!
