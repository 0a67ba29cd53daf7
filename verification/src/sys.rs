//! The values that libnfs exchanges with its callers.
//!
//! A pointer that libnfs owns is held as its address, zero for null: it is
//! carried from one call to the next and never followed here.

#![allow(non_camel_case_types)]

use vstd::prelude::*;

verus! {

/// The address of an NFS context.
#[derive(Debug, Clone, Copy, PartialEq, Eq, Structural)]
pub struct nfs_context {
    pub addr: usize,
}

/// The address of an open file.
#[derive(Debug, Clone, Copy, PartialEq, Eq, Structural)]
pub struct nfsfh {
    pub addr: usize,
}

/// The address of an open directory.
#[derive(Debug, Clone, Copy, PartialEq, Eq, Structural)]
pub struct nfsdir {
    pub addr: usize,
}

/// A `struct timeval`.
#[derive(Debug, Clone, Copy, PartialEq, Eq, Structural)]
pub struct libc_timeval {
    pub tv_sec: i64,
    pub tv_usec: i64,
}

/// An entry of a directory, as `struct nfsdirent` has it. The name is given by
/// its bytes, without the zero byte that ends it.
#[derive(Debug)]
pub struct nfsdirent {
    pub name: Vec<u8>,
    pub inode: u64,
    pub kind: u32,
    pub mode: u32,
    pub size: u64,
    pub atime: libc_timeval,
    pub mtime: libc_timeval,
    pub ctime: libc_timeval,
    pub uid: u32,
    pub gid: u32,
    pub nlink: u32,
    pub dev: u64,
    pub rdev: u64,
    pub blksize: u64,
    pub blocks: u64,
    pub used: u64,
    pub atime_nsec: u32,
    pub mtime_nsec: u32,
    pub ctime_nsec: u32,
}

/// The attributes of a file, as `struct nfs_stat_64` has them.
#[derive(Debug, Clone, Copy, PartialEq, Eq, Structural)]
pub struct nfs_stat_64 {
    pub nfs_dev: u64,
    pub nfs_ino: u64,
    pub nfs_mode: u64,
    pub nfs_nlink: u64,
    pub nfs_uid: u64,
    pub nfs_gid: u64,
    pub nfs_rdev: u64,
    pub nfs_size: u64,
    pub nfs_blksize: u64,
    pub nfs_blocks: u64,
    pub nfs_atime: u64,
    pub nfs_mtime: u64,
    pub nfs_ctime: u64,
    pub nfs_atime_nsec: u64,
    pub nfs_mtime_nsec: u64,
    pub nfs_ctime_nsec: u64,
    pub nfs_used: u64,
}

/// Version 3 of the protocol.
pub const NFS_V3: i32 = 3;

/// Version 4 of the protocol.
pub const NFS_V4: i32 = 4;

/// Opens a file for reading only.
pub const O_RDONLY: i32 = 0;

/// The kind of a directory, among those that libnfs gives to the entries of a
/// directory: the number that the NFS protocol has for it.
pub const DT_DIR: u32 = 2;

} // verus!
