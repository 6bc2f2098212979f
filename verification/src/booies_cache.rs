use vstd::prelude::*;

use std::collections::BTreeMap;

use crate::booies::BooiesDetails;
use crate::fs_util::FsUtilError;
use crate::AllocPerfError;
use crate::AllocPerfRes;

verus! {

broadcast use vstd::std_specs::btree::group_btree_axioms, vstd::laws_cmp::group_laws_cmp;

/// One cached details record, stamped with when it was fetched.
#[derive(Debug)]
pub struct BooiesDetailsCacheItem {
    pub fetched_at: i64,
    pub boo_details: BooiesDetails,
}

/// The per-subscription cache of detailed booies records, keyed by the
/// booies number.
#[derive(Debug)]
pub struct BooiesDetailsCache {
    inner: BTreeMap<u64, BooiesDetailsCacheItem>,
}

impl View for BooiesDetailsCache {
    type V = Map<u64, BooiesDetailsCacheItem>;

    closed spec fn view(&self) -> Map<u64, BooiesDetailsCacheItem> {
        self.inner@
    }
}

impl BooiesDetailsCache {
    /// An empty cache.
    pub fn new() -> (r: Self)
        ensures
            r@ == Map::<u64, BooiesDetailsCacheItem>::empty(),
    {
        BooiesDetailsCache { inner: BTreeMap::new() }
    }

    /// Record the details of one booies number, stamped with the given
    /// fetch time; an earlier entry for the number is replaced.
    pub fn insert(&mut self, num: u64, boo_details: BooiesDetails, fetched_at: i64)
        ensures
            final(self)@ == old(self)@.insert(
                num,
                BooiesDetailsCacheItem { fetched_at, boo_details },
            ),
    {
        let cache_item = BooiesDetailsCacheItem { fetched_at, boo_details };
        let _ = self.inner.insert(num, cache_item);
    }

    /// The cached details of one booies number, if present.
    pub fn get_boo_details(&self, num: u64) -> (r: Option<&BooiesDetails>)
        ensures
            self@.contains_key(num) ==> (r matches Some(d) && *d == self@[num].boo_details),
            !self@.contains_key(num) ==> r is None,
    {
        match self.inner.get(&num) {
            Some(item) => Some(&item.boo_details),
            None => None,
        }
    }

    /// How a cache is loaded: a value read from storage is used as it is, a
    /// missing file means a fresh empty cache, and any other failure is
    /// passed on.
    pub fn get_local_or_new(loaded: AllocPerfRes<Self>) -> (r: AllocPerfRes<Self>)
        ensures
            match loaded {
                Ok(c) => r matches Ok(c2) && c2 == c,
                Err(
                    AllocPerfError::FsUtil(
                        FsUtilError::ExistentReadableFileOpenFailed { not_found: true, .. },
                    ),
                ) => (r matches Ok(c) && c@ == Map::<u64, BooiesDetailsCacheItem>::empty()),
                Err(e) => (r matches Err(e2) && e2 == e),
            },
    {
        match loaded {
            Ok(v) => Ok(v),
            Err(
                AllocPerfError::FsUtil(
                    FsUtilError::ExistentReadableFileOpenFailed { not_found: true, .. },
                ),
            ) => Ok(Self::new()),
            Err(e) => Err(e),
        }
    }
}

} // verus!
