//! The attributes of a file.

use vstd::prelude::*;

use crate::sys::nfs_stat_64;

verus! {

/// The attributes of a file.
#[derive(Debug, Clone, Copy, PartialEq, Eq, Structural)]
pub struct FileStat {
    pub dev: u64,
    pub ino: u64,
    pub mode: u64,
    pub nlink: u64,
    pub uid: u64,
    pub gid: u64,
    pub rdev: u64,
    pub size: u64,
    pub blksize: u64,
    pub blocks: u64,
    pub atime: u64,
    pub atime_nsec: u64,
    pub mtime: u64,
    pub mtime_nsec: u64,
    pub ctime: u64,
    pub ctime_nsec: u64,
    pub used: u64,
}

/// The attributes that libnfs reported, each under its own name.
pub open spec fn file_stat(st: nfs_stat_64) -> FileStat {
    FileStat {
        dev: st.nfs_dev,
        ino: st.nfs_ino,
        mode: st.nfs_mode,
        nlink: st.nfs_nlink,
        uid: st.nfs_uid,
        gid: st.nfs_gid,
        rdev: st.nfs_rdev,
        size: st.nfs_size,
        blksize: st.nfs_blksize,
        blocks: st.nfs_blocks,
        atime: st.nfs_atime,
        atime_nsec: st.nfs_atime_nsec,
        mtime: st.nfs_mtime,
        mtime_nsec: st.nfs_mtime_nsec,
        ctime: st.nfs_ctime,
        ctime_nsec: st.nfs_ctime_nsec,
        used: st.nfs_used,
    }
}

impl<'a> From<&'a nfs_stat_64> for FileStat {
    fn from(st: &'a nfs_stat_64) -> (r: Self)
        ensures
            r.dev == st.nfs_dev,
            r.ino == st.nfs_ino,
            r.mode == st.nfs_mode,
            r.nlink == st.nfs_nlink,
            r.uid == st.nfs_uid,
            r.gid == st.nfs_gid,
            r.rdev == st.nfs_rdev,
            r.size == st.nfs_size,
            r.blksize == st.nfs_blksize,
            r.blocks == st.nfs_blocks,
            r.atime == st.nfs_atime,
            r.atime_nsec == st.nfs_atime_nsec,
            r.mtime == st.nfs_mtime,
            r.mtime_nsec == st.nfs_mtime_nsec,
            r.ctime == st.nfs_ctime,
            r.ctime_nsec == st.nfs_ctime_nsec,
            r.used == st.nfs_used,
    {
        FileStat {
            dev: st.nfs_dev,
            ino: st.nfs_ino,
            mode: st.nfs_mode,
            nlink: st.nfs_nlink,
            uid: st.nfs_uid,
            gid: st.nfs_gid,
            rdev: st.nfs_rdev,
            size: st.nfs_size,
            blksize: st.nfs_blksize,
            blocks: st.nfs_blocks,
            atime: st.nfs_atime,
            atime_nsec: st.nfs_atime_nsec,
            mtime: st.nfs_mtime,
            mtime_nsec: st.nfs_mtime_nsec,
            ctime: st.nfs_ctime,
            ctime_nsec: st.nfs_ctime_nsec,
            used: st.nfs_used,
        }
    }
}

impl<'a> vstd::std_specs::convert::FromSpecImpl<&'a nfs_stat_64> for FileStat {
    open spec fn obeys_from_spec() -> bool {
        true
    }

    open spec fn from_spec(st: &'a nfs_stat_64) -> Self {
        file_stat(*st)
    }
}

/// No attribute is lost: different reports give different attributes.
pub proof fn law_no_attribute_is_lost(a: nfs_stat_64, b: nfs_stat_64)
    ensures
        file_stat(a) == file_stat(b) <==> a == b,
{
}

/// Each attribute is the one that was reported under its own name.
pub proof fn law_attributes_keep_their_names(st: nfs_stat_64)
    ensures
        file_stat(st).dev == st.nfs_dev,
        file_stat(st).ino == st.nfs_ino,
        file_stat(st).mode == st.nfs_mode,
        file_stat(st).nlink == st.nfs_nlink,
        file_stat(st).uid == st.nfs_uid,
        file_stat(st).gid == st.nfs_gid,
        file_stat(st).rdev == st.nfs_rdev,
        file_stat(st).size == st.nfs_size,
        file_stat(st).blksize == st.nfs_blksize,
        file_stat(st).blocks == st.nfs_blocks,
        file_stat(st).atime == st.nfs_atime,
        file_stat(st).atime_nsec == st.nfs_atime_nsec,
        file_stat(st).mtime == st.nfs_mtime,
        file_stat(st).mtime_nsec == st.nfs_mtime_nsec,
        file_stat(st).ctime == st.nfs_ctime,
        file_stat(st).ctime_nsec == st.nfs_ctime_nsec,
        file_stat(st).used == st.nfs_used,
{
}

} // verus!
