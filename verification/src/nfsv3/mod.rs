//! NFSv3 (RFC 1813) argument types as the request parser produces them.
#![allow(non_camel_case_types)]
use vstd::prelude::*;

verus! {

/// RPC program number of NFS.
pub const NFS_PROGRAM: u32 = 100003;
/// The NFS version served.
pub const NFS_VERSION: u32 = 3;

/// Procedure numbers of NFSv3.
pub const NULL: u32 = 0;
pub const GETATTR: u32 = 1;
pub const SETATTR: u32 = 2;
pub const LOOKUP: u32 = 3;
pub const ACCESS: u32 = 4;
pub const READLINK: u32 = 5;
pub const READ: u32 = 6;
pub const WRITE: u32 = 7;
pub const CREATE: u32 = 8;
pub const MKDIR: u32 = 9;
pub const SYMLINK: u32 = 10;
pub const MKNOD: u32 = 11;
pub const REMOVE: u32 = 12;
pub const RMDIR: u32 = 13;
pub const RENAME: u32 = 14;
pub const LINK: u32 = 15;
pub const READDIR: u32 = 16;
pub const READDIRPLUS: u32 = 17;
pub const FSSTAT: u32 = 18;
pub const FSINFO: u32 = 19;
pub const PATHCONF: u32 = 20;
pub const COMMIT: u32 = 21;

/// Size in bytes of the file handles this server hands out.
pub const NFS3_FHSIZE: usize = 8;
/// Size in bytes of the verifier of an exclusive `CREATE`.
pub const NFS3_CREATEVERFSIZE: usize = 8;
/// Size in bytes of the cookie verifier of `READDIR` and `READDIRPLUS`.
pub const NFS3_COOKIEVERFSIZE: usize = 8;

/// Major and minor device numbers.
#[derive(Debug, Clone, Copy, PartialEq, Eq)]
pub struct specdata3 {
    pub specdata1: u32,
    pub specdata2: u32,
}

/// A time: seconds and nanoseconds since the Unix epoch.
#[derive(Debug, Clone, Copy, PartialEq, Eq)]
pub struct nfstime3 {
    pub seconds: u32,
    pub nseconds: u32,
}

/// How `SETATTR` changes the access time.
#[derive(Debug, Clone, Copy, PartialEq, Eq)]
pub enum set_atime {
    DONT_CHANGE,
    SET_TO_SERVER_TIME,
    SET_TO_CLIENT_TIME(nfstime3),
}

/// How `SETATTR` changes the modification time.
#[derive(Debug, Clone, Copy, PartialEq, Eq)]
pub enum set_mtime {
    DONT_CHANGE,
    SET_TO_SERVER_TIME,
    SET_TO_CLIENT_TIME(nfstime3),
}

/// Attributes to set; `None` leaves an attribute unchanged.
#[derive(Debug, Clone, Copy, PartialEq, Eq)]
pub struct sattr3 {
    pub mode: Option<u32>,
    pub uid: Option<u32>,
    pub gid: Option<u32>,
    pub size: Option<u64>,
    pub atime: set_atime,
    pub mtime: set_mtime,
}

/// Type of a file system object.
#[derive(Debug, Clone, Copy, PartialEq, Eq)]
pub enum ftype3 {
    NF3REG,
    NF3DIR,
    NF3BLK,
    NF3CHR,
    NF3LNK,
    NF3SOCK,
    NF3FIFO,
}

/// Wire number of a file type.
pub open spec fn ftype3_code(t: ftype3) -> u32 {
    match t {
        ftype3::NF3REG => 1,
        ftype3::NF3DIR => 2,
        ftype3::NF3BLK => 3,
        ftype3::NF3CHR => 4,
        ftype3::NF3LNK => 5,
        ftype3::NF3SOCK => 6,
        ftype3::NF3FIFO => 7,
    }
}

/// The file type with wire number `v`, if any.
pub open spec fn ftype3_of(v: u32) -> Option<ftype3> {
    if v == 1 {
        Some(ftype3::NF3REG)
    } else if v == 2 {
        Some(ftype3::NF3DIR)
    } else if v == 3 {
        Some(ftype3::NF3BLK)
    } else if v == 4 {
        Some(ftype3::NF3CHR)
    } else if v == 5 {
        Some(ftype3::NF3LNK)
    } else if v == 6 {
        Some(ftype3::NF3SOCK)
    } else if v == 7 {
        Some(ftype3::NF3FIFO)
    } else {
        None
    }
}

impl ftype3 {
    /// The file type with wire number `v`, if any.
    pub fn from_u32(v: u32) -> (r: Option<ftype3>)
        ensures
            r == ftype3_of(v),
    {
        if v == 1 {
            Some(ftype3::NF3REG)
        } else if v == 2 {
            Some(ftype3::NF3DIR)
        } else if v == 3 {
            Some(ftype3::NF3BLK)
        } else if v == 4 {
            Some(ftype3::NF3CHR)
        } else if v == 5 {
            Some(ftype3::NF3LNK)
        } else if v == 6 {
            Some(ftype3::NF3SOCK)
        } else if v == 7 {
            Some(ftype3::NF3FIFO)
        } else {
            None
        }
    }

    /// Wire number of this file type.
    pub fn to_u32(&self) -> (r: u32)
        ensures
            r == ftype3_code(*self),
    {
        match self {
            ftype3::NF3REG => 1,
            ftype3::NF3DIR => 2,
            ftype3::NF3BLK => 3,
            ftype3::NF3CHR => 4,
            ftype3::NF3LNK => 5,
            ftype3::NF3SOCK => 6,
            ftype3::NF3FIFO => 7,
        }
    }
}

/// How a `WRITE` must reach stable storage.
#[derive(Debug, Clone, Copy, PartialEq, Eq)]
pub enum stable_how {
    UNSTABLE,
    DATA_SYNC,
    FILE_SYNC,
}

/// The stability level with wire number `v`, if any.
pub open spec fn stable_how_of(v: u32) -> Option<stable_how> {
    if v == 0 {
        Some(stable_how::UNSTABLE)
    } else if v == 1 {
        Some(stable_how::DATA_SYNC)
    } else if v == 2 {
        Some(stable_how::FILE_SYNC)
    } else {
        None
    }
}

impl stable_how {
    /// The stability level with wire number `v`, if any.
    pub fn from_u32(v: u32) -> (r: Option<stable_how>)
        ensures
            r == stable_how_of(v),
    {
        if v == 0 {
            Some(stable_how::UNSTABLE)
        } else if v == 1 {
            Some(stable_how::DATA_SYNC)
        } else if v == 2 {
            Some(stable_how::FILE_SYNC)
        } else {
            None
        }
    }
}

/// A file handle.
#[derive(Debug, Clone, Copy, PartialEq, Eq)]
pub struct nfs_fh3 {
    pub data: [u8; 8],
}

impl View for nfs_fh3 {
    type V = Seq<u8>;

    open spec fn view(&self) -> Seq<u8> {
        self.data@
    }
}

/// A directory and a name in it.
#[derive(Debug, Clone, PartialEq, Eq)]
pub struct diropargs3 {
    pub dir: nfs_fh3,
    pub name: String,
}

impl View for diropargs3 {
    type V = (Seq<u8>, Seq<char>);

    open spec fn view(&self) -> (Seq<u8>, Seq<char>) {
        (self.dir@, self.name@)
    }
}

/// How `CREATE` makes a file.
#[derive(Debug, Clone, Copy, PartialEq, Eq)]
pub enum createhow3 {
    UNCHECKED(sattr3),
    GUARDED(sattr3),
    EXCLUSIVE([u8; 8]),
}

/// [`createhow3`] with the verifier as a sequence.
pub enum CreateHowView {
    Unchecked(sattr3),
    Guarded(sattr3),
    Exclusive(Seq<u8>),
}

impl View for createhow3 {
    type V = CreateHowView;

    open spec fn view(&self) -> CreateHowView {
        match self {
            createhow3::UNCHECKED(a) => CreateHowView::Unchecked(*a),
            createhow3::GUARDED(a) => CreateHowView::Guarded(*a),
            createhow3::EXCLUSIVE(v) => CreateHowView::Exclusive(v@),
        }
    }
}

/// Attributes and target of a new symbolic link.
#[derive(Debug, Clone, PartialEq, Eq)]
pub struct symlinkdata3 {
    pub symlink_attributes: sattr3,
    pub symlink_data: String,
}

impl View for symlinkdata3 {
    type V = (sattr3, Seq<char>);

    open spec fn view(&self) -> (sattr3, Seq<char>) {
        (self.symlink_attributes, self.symlink_data@)
    }
}

/// Attributes and device numbers of a new special file.
#[derive(Debug, Clone, Copy, PartialEq, Eq)]
pub struct devicedata3 {
    pub dev_attributes: sattr3,
    pub spec: specdata3,
}

/// What `MKNOD` creates.
#[derive(Debug, Clone, Copy, PartialEq, Eq)]
pub enum mknoddata3 {
    NF3REG,
    NF3DIR,
    NF3BLK(devicedata3),
    NF3CHR(devicedata3),
    NF3LNK,
    NF3SOCK(sattr3),
    NF3FIFO(sattr3),
}

/// Arguments of `GETATTR`.
#[derive(Debug, Clone, PartialEq, Eq)]
pub struct GetAttrArgs {
    pub object: nfs_fh3,
}

/// Arguments of `SETATTR`.
#[derive(Debug, Clone, PartialEq, Eq)]
pub struct SetAttrArgs {
    pub object: nfs_fh3,
    pub new_attributes: sattr3,
    pub guard: Option<nfstime3>,
}

/// Arguments of `LOOKUP`.
#[derive(Debug, Clone, PartialEq, Eq)]
pub struct LookUpArgs {
    pub what: diropargs3,
}

/// Arguments of `ACCESS`.
#[derive(Debug, Clone, PartialEq, Eq)]
pub struct AccessArgs {
    pub object: nfs_fh3,
    pub access: u32,
}

/// Arguments of `READLINK`.
#[derive(Debug, Clone, PartialEq, Eq)]
pub struct ReadLinkArgs {
    pub symlink: nfs_fh3,
}

/// Arguments of `READ`.
#[derive(Debug, Clone, PartialEq, Eq)]
pub struct ReadArgs {
    pub file: nfs_fh3,
    pub offset: u64,
    pub count: u32,
}

/// Arguments of `WRITE`.
#[derive(Debug, Clone, PartialEq, Eq)]
pub struct WriteArgs {
    pub file: nfs_fh3,
    pub offset: u64,
    pub count: u32,
    pub stable: stable_how,
    pub data: Vec<u8>,
}

/// Arguments of `CREATE`.
#[derive(Debug, Clone, PartialEq, Eq)]
pub struct CreateArgs {
    pub object: diropargs3,
    pub how: createhow3,
}

/// Arguments of `MKDIR`.
#[derive(Debug, Clone, PartialEq, Eq)]
pub struct MkDirArgs {
    pub object: diropargs3,
    pub attributes: sattr3,
}

/// Arguments of `SYMLINK`.
#[derive(Debug, Clone, PartialEq, Eq)]
pub struct SymLinkArgs {
    pub object: diropargs3,
    pub symlink: symlinkdata3,
}

/// Arguments of `MKNOD`.
#[derive(Debug, Clone, PartialEq, Eq)]
pub struct MkNodArgs {
    pub object: diropargs3,
    pub what: mknoddata3,
}

/// Arguments of `REMOVE`.
#[derive(Debug, Clone, PartialEq, Eq)]
pub struct RemoveArgs {
    pub object: diropargs3,
}

/// Arguments of `RMDIR`.
#[derive(Debug, Clone, PartialEq, Eq)]
pub struct RmDirArgs {
    pub object: diropargs3,
}

/// Arguments of `RENAME`.
#[derive(Debug, Clone, PartialEq, Eq)]
pub struct RenameArgs {
    pub from: diropargs3,
    pub to: diropargs3,
}

/// Arguments of `LINK`.
#[derive(Debug, Clone, PartialEq, Eq)]
pub struct LinkArgs {
    pub file: nfs_fh3,
    pub link: diropargs3,
}

/// Arguments of `READDIR`.
#[derive(Debug, Clone, PartialEq, Eq)]
pub struct ReadDirArgs {
    pub dir: nfs_fh3,
    pub cookie: u64,
    pub cookieverf: [u8; 8],
    pub count: u32,
}

/// Arguments of `READDIRPLUS`.
#[derive(Debug, Clone, PartialEq, Eq)]
pub struct ReadDirPlusArgs {
    pub dir: nfs_fh3,
    pub cookie: u64,
    pub cookieverf: [u8; 8],
    pub dircount: u32,
    pub maxcount: u32,
}

/// Arguments of `FSSTAT`.
#[derive(Debug, Clone, PartialEq, Eq)]
pub struct FsStatArgs {
    pub root: nfs_fh3,
}

/// Arguments of `FSINFO`.
#[derive(Debug, Clone, PartialEq, Eq)]
pub struct FsInfoArgs {
    pub root: nfs_fh3,
}

/// Arguments of `PATHCONF`.
#[derive(Debug, Clone, PartialEq, Eq)]
pub struct PathConfArgs {
    pub object: nfs_fh3,
}

/// Arguments of `COMMIT`.
#[derive(Debug, Clone, PartialEq, Eq)]
pub struct CommitArgs {
    pub file: nfs_fh3,
    pub offset: u64,
    pub count: u32,
}

impl View for specdata3 {
    type V = specdata3;

    open spec fn view(&self) -> specdata3 {
        *self
    }
}

impl View for nfstime3 {
    type V = nfstime3;

    open spec fn view(&self) -> nfstime3 {
        *self
    }
}

impl View for set_atime {
    type V = set_atime;

    open spec fn view(&self) -> set_atime {
        *self
    }
}

impl View for set_mtime {
    type V = set_mtime;

    open spec fn view(&self) -> set_mtime {
        *self
    }
}

impl View for sattr3 {
    type V = sattr3;

    open spec fn view(&self) -> sattr3 {
        *self
    }
}

impl View for ftype3 {
    type V = ftype3;

    open spec fn view(&self) -> ftype3 {
        *self
    }
}

impl View for stable_how {
    type V = stable_how;

    open spec fn view(&self) -> stable_how {
        *self
    }
}

impl View for devicedata3 {
    type V = devicedata3;

    open spec fn view(&self) -> devicedata3 {
        *self
    }
}

impl View for mknoddata3 {
    type V = mknoddata3;

    open spec fn view(&self) -> mknoddata3 {
        *self
    }
}

impl View for GetAttrArgs {
    type V = Seq<u8>;

    open spec fn view(&self) -> Seq<u8> {
        self.object@
    }
}

impl View for SetAttrArgs {
    type V = (Seq<u8>, sattr3, Option<nfstime3>);

    open spec fn view(&self) -> (Seq<u8>, sattr3, Option<nfstime3>) {
        (self.object@, self.new_attributes, self.guard)
    }
}

impl View for LookUpArgs {
    type V = (Seq<u8>, Seq<char>);

    open spec fn view(&self) -> (Seq<u8>, Seq<char>) {
        self.what@
    }
}

impl View for AccessArgs {
    type V = (Seq<u8>, u32);

    open spec fn view(&self) -> (Seq<u8>, u32) {
        (self.object@, self.access)
    }
}

impl View for ReadLinkArgs {
    type V = Seq<u8>;

    open spec fn view(&self) -> Seq<u8> {
        self.symlink@
    }
}

impl View for ReadArgs {
    type V = (Seq<u8>, u64, u32);

    open spec fn view(&self) -> (Seq<u8>, u64, u32) {
        (self.file@, self.offset, self.count)
    }
}

impl View for WriteArgs {
    type V = (Seq<u8>, u64, u32, stable_how, Seq<u8>);

    open spec fn view(&self) -> (Seq<u8>, u64, u32, stable_how, Seq<u8>) {
        (self.file@, self.offset, self.count, self.stable, self.data@)
    }
}

impl View for CreateArgs {
    type V = ((Seq<u8>, Seq<char>), CreateHowView);

    open spec fn view(&self) -> ((Seq<u8>, Seq<char>), CreateHowView) {
        (self.object@, self.how@)
    }
}

impl View for MkDirArgs {
    type V = ((Seq<u8>, Seq<char>), sattr3);

    open spec fn view(&self) -> ((Seq<u8>, Seq<char>), sattr3) {
        (self.object@, self.attributes)
    }
}

impl View for SymLinkArgs {
    type V = ((Seq<u8>, Seq<char>), (sattr3, Seq<char>));

    open spec fn view(&self) -> ((Seq<u8>, Seq<char>), (sattr3, Seq<char>)) {
        (self.object@, self.symlink@)
    }
}

impl View for MkNodArgs {
    type V = ((Seq<u8>, Seq<char>), mknoddata3);

    open spec fn view(&self) -> ((Seq<u8>, Seq<char>), mknoddata3) {
        (self.object@, self.what)
    }
}

impl View for RemoveArgs {
    type V = (Seq<u8>, Seq<char>);

    open spec fn view(&self) -> (Seq<u8>, Seq<char>) {
        self.object@
    }
}

impl View for RmDirArgs {
    type V = (Seq<u8>, Seq<char>);

    open spec fn view(&self) -> (Seq<u8>, Seq<char>) {
        self.object@
    }
}

impl View for RenameArgs {
    type V = ((Seq<u8>, Seq<char>), (Seq<u8>, Seq<char>));

    open spec fn view(&self) -> ((Seq<u8>, Seq<char>), (Seq<u8>, Seq<char>)) {
        (self.from@, self.to@)
    }
}

impl View for LinkArgs {
    type V = (Seq<u8>, (Seq<u8>, Seq<char>));

    open spec fn view(&self) -> (Seq<u8>, (Seq<u8>, Seq<char>)) {
        (self.file@, self.link@)
    }
}

impl View for ReadDirArgs {
    type V = (Seq<u8>, u64, Seq<u8>, u32);

    open spec fn view(&self) -> (Seq<u8>, u64, Seq<u8>, u32) {
        (self.dir@, self.cookie, self.cookieverf@, self.count)
    }
}

impl View for ReadDirPlusArgs {
    type V = (Seq<u8>, u64, Seq<u8>, u32, u32);

    open spec fn view(&self) -> (Seq<u8>, u64, Seq<u8>, u32, u32) {
        (self.dir@, self.cookie, self.cookieverf@, self.dircount, self.maxcount)
    }
}

impl View for FsStatArgs {
    type V = Seq<u8>;

    open spec fn view(&self) -> Seq<u8> {
        self.root@
    }
}

impl View for FsInfoArgs {
    type V = Seq<u8>;

    open spec fn view(&self) -> Seq<u8> {
        self.root@
    }
}

impl View for PathConfArgs {
    type V = Seq<u8>;

    open spec fn view(&self) -> Seq<u8> {
        self.object@
    }
}

impl View for CommitArgs {
    type V = (Seq<u8>, u64, u32);

    open spec fn view(&self) -> (Seq<u8>, u64, u32) {
        (self.file@, self.offset, self.count)
    }
}

} // verus!
