//! The arguments of a parsed call, by procedure.
use vstd::prelude::*;

use crate::mount::{mnt, umnt};
use crate::nfsv3;

verus! {

/// Procedure arguments of a parsed NFSv3 or MOUNT call.
#[derive(Debug)]
pub enum Arguments {
    // NFSv3
    Null,
    GetAttr(nfsv3::GetAttrArgs),
    SetAttr(nfsv3::SetAttrArgs),
    LookUp(nfsv3::LookUpArgs),
    Access(nfsv3::AccessArgs),
    ReadLink(nfsv3::ReadLinkArgs),
    Read(nfsv3::ReadArgs),
    Write(nfsv3::WriteArgs),
    Create(nfsv3::CreateArgs),
    MkDir(nfsv3::MkDirArgs),
    SymLink(nfsv3::SymLinkArgs),
    MkNod(nfsv3::MkNodArgs),
    Remove(nfsv3::RemoveArgs),
    RmDir(nfsv3::RmDirArgs),
    Rename(nfsv3::RenameArgs),
    Link(nfsv3::LinkArgs),
    ReadDir(nfsv3::ReadDirArgs),
    ReadDirPlus(nfsv3::ReadDirPlusArgs),
    FsStat(nfsv3::FsStatArgs),
    FsInfo(nfsv3::FsInfoArgs),
    PathConf(nfsv3::PathConfArgs),
    Commit(nfsv3::CommitArgs),
    // MOUNT
    Mount(mnt::Args),
    Unmount(umnt::Args),
    Export,
    Dump,
    UnmountAll,
}

/// [`Arguments`] with every value by its view.
pub enum ArgumentsView {
    Null,
    GetAttr(Seq<u8>),
    SetAttr((Seq<u8>, nfsv3::sattr3, Option<nfsv3::nfstime3>)),
    LookUp((Seq<u8>, Seq<char>)),
    Access((Seq<u8>, u32)),
    ReadLink(Seq<u8>),
    Read((Seq<u8>, u64, u32)),
    Write((Seq<u8>, u64, u32, nfsv3::stable_how, Seq<u8>)),
    Create(((Seq<u8>, Seq<char>), nfsv3::CreateHowView)),
    MkDir(((Seq<u8>, Seq<char>), nfsv3::sattr3)),
    SymLink(((Seq<u8>, Seq<char>), (nfsv3::sattr3, Seq<char>))),
    MkNod(((Seq<u8>, Seq<char>), nfsv3::mknoddata3)),
    Remove((Seq<u8>, Seq<char>)),
    RmDir((Seq<u8>, Seq<char>)),
    Rename(((Seq<u8>, Seq<char>), (Seq<u8>, Seq<char>))),
    Link((Seq<u8>, (Seq<u8>, Seq<char>))),
    ReadDir((Seq<u8>, u64, Seq<u8>, u32)),
    ReadDirPlus((Seq<u8>, u64, Seq<u8>, u32, u32)),
    FsStat(Seq<u8>),
    FsInfo(Seq<u8>),
    PathConf(Seq<u8>),
    Commit((Seq<u8>, u64, u32)),
    Mount(Seq<char>),
    Unmount(Seq<char>),
    Export,
    Dump,
    UnmountAll,
}

impl View for Arguments {
    type V = ArgumentsView;

    open spec fn view(&self) -> ArgumentsView {
        match self {
            Arguments::Null => ArgumentsView::Null,
            Arguments::GetAttr(a) => ArgumentsView::GetAttr(a@),
            Arguments::SetAttr(a) => ArgumentsView::SetAttr(a@),
            Arguments::LookUp(a) => ArgumentsView::LookUp(a@),
            Arguments::Access(a) => ArgumentsView::Access(a@),
            Arguments::ReadLink(a) => ArgumentsView::ReadLink(a@),
            Arguments::Read(a) => ArgumentsView::Read(a@),
            Arguments::Write(a) => ArgumentsView::Write(a@),
            Arguments::Create(a) => ArgumentsView::Create(a@),
            Arguments::MkDir(a) => ArgumentsView::MkDir(a@),
            Arguments::SymLink(a) => ArgumentsView::SymLink(a@),
            Arguments::MkNod(a) => ArgumentsView::MkNod(a@),
            Arguments::Remove(a) => ArgumentsView::Remove(a@),
            Arguments::RmDir(a) => ArgumentsView::RmDir(a@),
            Arguments::Rename(a) => ArgumentsView::Rename(a@),
            Arguments::Link(a) => ArgumentsView::Link(a@),
            Arguments::ReadDir(a) => ArgumentsView::ReadDir(a@),
            Arguments::ReadDirPlus(a) => ArgumentsView::ReadDirPlus(a@),
            Arguments::FsStat(a) => ArgumentsView::FsStat(a@),
            Arguments::FsInfo(a) => ArgumentsView::FsInfo(a@),
            Arguments::PathConf(a) => ArgumentsView::PathConf(a@),
            Arguments::Commit(a) => ArgumentsView::Commit(a@),
            Arguments::Mount(a) => ArgumentsView::Mount(a@),
            Arguments::Unmount(a) => ArgumentsView::Unmount(a@),
            Arguments::Export => ArgumentsView::Export,
            Arguments::Dump => ArgumentsView::Dump,
            Arguments::UnmountAll => ArgumentsView::UnmountAll,
        }
    }
}

} // verus!
