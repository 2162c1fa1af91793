//! The back-end adapter: one back-end chosen among several kinds, seen
//! through one contract, with each kind's metadata carried in [`SbeMeta`].
use crate::error::StorageError;
use crate::storage::{CloudMeta, Fileinfo, FsMeta, SbeMeta, StorageBackend};
use crate::user::User;
use vstd::prelude::*;

verus! {

/// The back-end in use: a local filesystem or a cloud object store.
#[derive(Debug)]
pub enum InnerVfs<F, C> {
    File(F),
    Cloud(C),
}

/// A back-end that dispatches each operation to the back-end in use and
/// tags the metadata it returns with that back-end's kind. It adds nothing
/// else: results and errors pass through unchanged.
#[derive(Debug)]
pub struct ChoosingVfs<F, C> {
    pub inner: InnerVfs<F, C>,
}

/// A filesystem listing, with each entry's metadata tagged as such.
pub open spec fn fs_listing(w: Seq<Fileinfo<FsMeta>>) -> Seq<Fileinfo<SbeMeta>> {
    w.map_values(|fi: Fileinfo<FsMeta>| Fileinfo { path: fi.path, metadata: SbeMeta::File(fi.metadata) })
}

/// A cloud listing, with each entry's metadata tagged as such.
pub open spec fn cloud_listing(w: Seq<Fileinfo<CloudMeta>>) -> Seq<Fileinfo<SbeMeta>> {
    w.map_values(|fi: Fileinfo<CloudMeta>| Fileinfo { path: fi.path, metadata: SbeMeta::Cloud(fi.metadata) })
}

/// Tags the metadata of each entry of a filesystem listing.
pub fn wrap_fs_listing(w: &Vec<Fileinfo<FsMeta>>) -> (v: Vec<Fileinfo<SbeMeta>>)
    ensures
        v@ == fs_listing(w@),
{
    let mut v: Vec<Fileinfo<SbeMeta>> = Vec::new();
    let mut i: usize = 0;
    while i < w.len()
        invariant
            i <= w.len(),
            v@.len() == i,
            forall|j: int| 0 <= j < i ==> v@[j] == fs_listing(w@)[j],
        decreases w.len() - i,
    {
        let fi = Fileinfo { path: w[i].path.clone(), metadata: SbeMeta::File(w[i].metadata) };
        v.push(fi);
        i = i + 1;
    }
    assert(v@ =~= fs_listing(w@));
    v
}

/// Tags the metadata of each entry of a cloud listing.
pub fn wrap_cloud_listing(w: &Vec<Fileinfo<CloudMeta>>) -> (v: Vec<Fileinfo<SbeMeta>>)
    ensures
        v@ == cloud_listing(w@),
{
    let mut v: Vec<Fileinfo<SbeMeta>> = Vec::new();
    let mut i: usize = 0;
    while i < w.len()
        invariant
            i <= w.len(),
            v@.len() == i,
            forall|j: int| 0 <= j < i ==> v@[j] == cloud_listing(w@)[j],
        decreases w.len() - i,
    {
        let fi = Fileinfo { path: w[i].path.clone(), metadata: SbeMeta::Cloud(w[i].metadata) };
        v.push(fi);
        i = i + 1;
    }
    assert(v@ =~= cloud_listing(w@));
    v
}

impl<F: StorageBackend<FsMeta>, C: StorageBackend<CloudMeta>> StorageBackend<SbeMeta> for ChoosingVfs<F, C> {
    open spec fn metadata_outcome(&self, user: User, path: Seq<char>, r: Result<SbeMeta, StorageError>) -> bool {
        match self.inner {
            InnerVfs::File(f) => match r {
                Ok(SbeMeta::File(m)) => f.metadata_outcome(user, path, Ok(m)),
                Ok(SbeMeta::Cloud(_)) => false,
                Err(e) => f.metadata_outcome(user, path, Err(e)),
            },
            InnerVfs::Cloud(c) => match r {
                Ok(SbeMeta::Cloud(m)) => c.metadata_outcome(user, path, Ok(m)),
                Ok(SbeMeta::File(_)) => false,
                Err(e) => c.metadata_outcome(user, path, Err(e)),
            },
        }
    }

    open spec fn list_outcome(
        &self,
        user: User,
        path: Seq<char>,
        r: Result<Vec<Fileinfo<SbeMeta>>, StorageError>,
    ) -> bool {
        match self.inner {
            InnerVfs::File(f) => match r {
                Ok(v) => exists|w: Vec<Fileinfo<FsMeta>>|
                    #[trigger] f.list_outcome(user, path, Ok(w)) && v@ == fs_listing(w@),
                Err(e) => f.list_outcome(user, path, Err(e)),
            },
            InnerVfs::Cloud(c) => match r {
                Ok(v) => exists|w: Vec<Fileinfo<CloudMeta>>|
                    #[trigger] c.list_outcome(user, path, Ok(w)) && v@ == cloud_listing(w@),
                Err(e) => c.list_outcome(user, path, Err(e)),
            },
        }
    }

    open spec fn get_outcome(&self, user: User, path: Seq<char>, start_pos: u64, r: Result<Vec<u8>, StorageError>) -> bool {
        match self.inner {
            InnerVfs::File(f) => f.get_outcome(user, path, start_pos, r),
            InnerVfs::Cloud(c) => c.get_outcome(user, path, start_pos, r),
        }
    }

    open spec fn put_outcome(&self, user: User, data: Seq<u8>, path: Seq<char>, start_pos: u64, r: Result<u64, StorageError>) -> bool {
        match self.inner {
            InnerVfs::File(f) => f.put_outcome(user, data, path, start_pos, r),
            InnerVfs::Cloud(c) => c.put_outcome(user, data, path, start_pos, r),
        }
    }

    open spec fn del_outcome(&self, user: User, path: Seq<char>, r: Result<(), StorageError>) -> bool {
        match self.inner {
            InnerVfs::File(f) => f.del_outcome(user, path, r),
            InnerVfs::Cloud(c) => c.del_outcome(user, path, r),
        }
    }

    open spec fn mkd_outcome(&self, user: User, path: Seq<char>, r: Result<(), StorageError>) -> bool {
        match self.inner {
            InnerVfs::File(f) => f.mkd_outcome(user, path, r),
            InnerVfs::Cloud(c) => c.mkd_outcome(user, path, r),
        }
    }

    open spec fn rmd_outcome(&self, user: User, path: Seq<char>, r: Result<(), StorageError>) -> bool {
        match self.inner {
            InnerVfs::File(f) => f.rmd_outcome(user, path, r),
            InnerVfs::Cloud(c) => c.rmd_outcome(user, path, r),
        }
    }

    open spec fn rename_outcome(&self, user: User, from: Seq<char>, to: Seq<char>, r: Result<(), StorageError>) -> bool {
        match self.inner {
            InnerVfs::File(f) => f.rename_outcome(user, from, to, r),
            InnerVfs::Cloud(c) => c.rename_outcome(user, from, to, r),
        }
    }

    open spec fn md5_outcome(&self, user: User, path: Seq<char>, r: Result<String, StorageError>) -> bool {
        match self.inner {
            InnerVfs::File(f) => f.md5_outcome(user, path, r),
            InnerVfs::Cloud(c) => c.md5_outcome(user, path, r),
        }
    }

    open spec fn cwd_outcome(&self, user: User, path: Seq<char>, r: Result<(), StorageError>) -> bool {
        match self.inner {
            InnerVfs::File(f) => f.cwd_outcome(user, path, r),
            InnerVfs::Cloud(c) => c.cwd_outcome(user, path, r),
        }
    }

    open spec fn metadata_ready(&self, user: User, path: Seq<char>) -> bool {
        match self.inner {
            InnerVfs::File(f) => f.metadata_ready(user, path),
            InnerVfs::Cloud(c) => c.metadata_ready(user, path),
        }
    }

    open spec fn list_ready(&self, user: User, path: Seq<char>) -> bool {
        match self.inner {
            InnerVfs::File(f) => f.list_ready(user, path),
            InnerVfs::Cloud(c) => c.list_ready(user, path),
        }
    }

    open spec fn get_ready(&self, user: User, path: Seq<char>, start_pos: u64) -> bool {
        match self.inner {
            InnerVfs::File(f) => f.get_ready(user, path, start_pos),
            InnerVfs::Cloud(c) => c.get_ready(user, path, start_pos),
        }
    }

    open spec fn put_ready(&self, user: User, data: Seq<u8>, path: Seq<char>, start_pos: u64) -> bool {
        match self.inner {
            InnerVfs::File(f) => f.put_ready(user, data, path, start_pos),
            InnerVfs::Cloud(c) => c.put_ready(user, data, path, start_pos),
        }
    }

    open spec fn del_ready(&self, user: User, path: Seq<char>) -> bool {
        match self.inner {
            InnerVfs::File(f) => f.del_ready(user, path),
            InnerVfs::Cloud(c) => c.del_ready(user, path),
        }
    }

    open spec fn mkd_ready(&self, user: User, path: Seq<char>) -> bool {
        match self.inner {
            InnerVfs::File(f) => f.mkd_ready(user, path),
            InnerVfs::Cloud(c) => c.mkd_ready(user, path),
        }
    }

    open spec fn rmd_ready(&self, user: User, path: Seq<char>) -> bool {
        match self.inner {
            InnerVfs::File(f) => f.rmd_ready(user, path),
            InnerVfs::Cloud(c) => c.rmd_ready(user, path),
        }
    }

    open spec fn rename_ready(&self, user: User, from: Seq<char>, to: Seq<char>) -> bool {
        match self.inner {
            InnerVfs::File(f) => f.rename_ready(user, from, to),
            InnerVfs::Cloud(c) => c.rename_ready(user, from, to),
        }
    }

    open spec fn md5_ready(&self, user: User, path: Seq<char>) -> bool {
        match self.inner {
            InnerVfs::File(f) => f.md5_ready(user, path),
            InnerVfs::Cloud(c) => c.md5_ready(user, path),
        }
    }

    open spec fn cwd_ready(&self, user: User, path: Seq<char>) -> bool {
        match self.inner {
            InnerVfs::File(f) => f.cwd_ready(user, path),
            InnerVfs::Cloud(c) => c.cwd_ready(user, path),
        }
    }

    fn metadata(&self, user: &User, path: &str) -> (r: Result<SbeMeta, StorageError>) {
        match &self.inner {
            InnerVfs::File(f) => match f.metadata(user, path) {
                Ok(m) => Ok(SbeMeta::File(m)),
                Err(e) => Err(e),
            },
            InnerVfs::Cloud(c) => match c.metadata(user, path) {
                Ok(m) => Ok(SbeMeta::Cloud(m)),
                Err(e) => Err(e),
            },
        }
    }

    fn list(&self, user: &User, path: &str) -> (r: Result<Vec<Fileinfo<SbeMeta>>, StorageError>) {
        match &self.inner {
            InnerVfs::File(f) => match f.list(user, path) {
                Ok(w) => {
                    let v = wrap_fs_listing(&w);
                    assert(f.list_outcome(*user, path@, Ok(w)) && v@ == fs_listing(w@));
                    Ok(v)
                },
                Err(e) => Err(e),
            },
            InnerVfs::Cloud(c) => match c.list(user, path) {
                Ok(w) => {
                    let v = wrap_cloud_listing(&w);
                    assert(c.list_outcome(*user, path@, Ok(w)) && v@ == cloud_listing(w@));
                    Ok(v)
                },
                Err(e) => Err(e),
            },
        }
    }

    fn get(&self, user: &User, path: &str, start_pos: u64) -> (r: Result<Vec<u8>, StorageError>) {
        match &self.inner {
            InnerVfs::File(f) => f.get(user, path, start_pos),
            InnerVfs::Cloud(c) => c.get(user, path, start_pos),
        }
    }

    fn put(&self, user: &User, data: Vec<u8>, path: &str, start_pos: u64) -> (r: Result<u64, StorageError>) {
        match &self.inner {
            InnerVfs::File(f) => f.put(user, data, path, start_pos),
            InnerVfs::Cloud(c) => c.put(user, data, path, start_pos),
        }
    }

    fn del(&self, user: &User, path: &str) -> (r: Result<(), StorageError>) {
        match &self.inner {
            InnerVfs::File(f) => f.del(user, path),
            InnerVfs::Cloud(c) => c.del(user, path),
        }
    }

    fn mkd(&self, user: &User, path: &str) -> (r: Result<(), StorageError>) {
        match &self.inner {
            InnerVfs::File(f) => f.mkd(user, path),
            InnerVfs::Cloud(c) => c.mkd(user, path),
        }
    }

    fn rmd(&self, user: &User, path: &str) -> (r: Result<(), StorageError>) {
        match &self.inner {
            InnerVfs::File(f) => f.rmd(user, path),
            InnerVfs::Cloud(c) => c.rmd(user, path),
        }
    }

    fn rename(&self, user: &User, from: &str, to: &str) -> (r: Result<(), StorageError>) {
        match &self.inner {
            InnerVfs::File(f) => f.rename(user, from, to),
            InnerVfs::Cloud(c) => c.rename(user, from, to),
        }
    }

    fn md5(&self, user: &User, path: &str) -> (r: Result<String, StorageError>) {
        match &self.inner {
            InnerVfs::File(f) => f.md5(user, path),
            InnerVfs::Cloud(c) => c.md5(user, path),
        }
    }

    fn cwd(&self, user: &User, path: &str) -> (r: Result<(), StorageError>) {
        match &self.inner {
            InnerVfs::File(f) => f.cwd(user, path),
            InnerVfs::Cloud(c) => c.cwd(user, path),
        }
    }
}

} // verus!
