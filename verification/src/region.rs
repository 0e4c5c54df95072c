//! The named shared region: create-or-attach. Whichever process opens a
//! name first creates the backing store; a second open of the same name
//! attaches to it. The mapping itself comes from the `shared_memory`
//! crate and stays opaque here; this module verifies the create-or-attach
//! decision around it.

use vstd::prelude::*;

verus! {

#[verifier::external_type_specification]
#[verifier::external_body]
pub struct ExShmem(shared_memory::Shmem);

#[verifier::external_type_specification]
#[verifier::external_body]
pub struct ExShmemError(shared_memory::ShmemError);

/// Creating or attaching the region failed for a reason other than the
/// name already existing. Fatal to the caller: no retry policy is defined
/// at this layer.
#[derive(Clone, Copy, PartialEq, Eq, Structural, Debug)]
pub enum RegionError {
    /// The backing store could neither be created nor attached.
    OpenFailed,
}

/// Relies on shared_memory::ShmemConf::create: makes a fresh mapping of
/// `size` bytes under the file link `name`, reporting `LinkExists` when the
/// link is already there and other errors as they come from the OS.
#[verifier::external_body]
fn region_create(name: &str, size: usize) -> (r: Result<
    shared_memory::Shmem,
    shared_memory::ShmemError,
>) {
    shared_memory::ShmemConf::new().size(size).flink(name).create()
}

/// Relies on shared_memory::ShmemConf::open: attaches to the existing
/// mapping the file link `name` points to. The size of an existing store is
/// trusted as the creator fixed it, not re-validated here.
#[verifier::external_body]
fn region_attach(name: &str) -> (r: Result<shared_memory::Shmem, shared_memory::ShmemError>) {
    shared_memory::ShmemConf::new().flink(name).open()
}

/// Relies on shared_memory::ShmemError being an enum: reports whether the
/// error is its `LinkExists` variant, the one that means another process
/// created the region first.
#[verifier::external_body]
fn error_is_link_exists(e: &shared_memory::ShmemError) -> (r: bool) {
    match e {
        shared_memory::ShmemError::LinkExists => true,
        _ => false,
    }
}

/// Create-or-attach: try to create a region of `size` bytes under `name`;
/// when some other process won the creation race, attach to what it made.
/// Any other failure of either step is a `RegionError`. Whether creation or
/// attachment happened, the caller ends up mapped to the store that the one
/// creator made; the result of the race is resolved by the handshake cell
/// (see `state`), not here.
pub fn open_region(name: &str, size: usize) -> (r: Result<shared_memory::Shmem, RegionError>)
    ensures
        r is Err ==> r->Err_0 == RegionError::OpenFailed,
{
    match region_create(name, size) {
        Ok(m) => Ok(m),
        Err(e) => {
            if error_is_link_exists(&e) {
                match region_attach(name) {
                    Ok(m) => Ok(m),
                    Err(_) => Err(RegionError::OpenFailed),
                }
            } else {
                Err(RegionError::OpenFailed)
            }
        },
    }
}

} // verus!
