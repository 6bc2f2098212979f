use vstd::prelude::*;

pub mod all;
pub mod booies;
pub mod booies_cache;
pub mod category;
pub mod cli;
pub mod conf;
pub mod deserialize_util;
pub mod fs_util;
pub mod spawn_util;
pub mod storage_util;
pub mod try_util;
pub mod wrapper_types;

verus! {

/// Number of tasks that run concurrently in one batch of the chunked runner.
pub const SPAWN_CHUNK_SZ: usize = 8;

pub type AllocPerfRes<T> = Result<T, AllocPerfError>;

/// The crate-wide error type: a filesystem-layer failure, a storage-layer
/// failure, or a collection of failures gathered by the chunked runner.
#[derive(Debug)]
pub enum AllocPerfError {
    FsUtil(crate::fs_util::FsUtilError),
    StorageUtil(crate::storage_util::StorageUtilError),
    Multi(Vec<AllocPerfError>),
}

/// Relies on fastrand::usize and fastrand::alphanumeric: a random ASCII
/// alphanumeric string whose length is drawn inclusively from the given bounds.
#[verifier::external_body]
pub fn rand_str(len_min: usize, len_max: usize) -> (r: String)
    requires
        len_min <= len_max,
    ensures
        len_min <= r@.len() <= len_max,
        r.is_ascii(),
{
    let len = fastrand::usize(len_min..=len_max);
    (0..len).map(|_| fastrand::alphanumeric()).collect()
}

} // verus!
