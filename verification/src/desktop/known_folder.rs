//! Known-folder buckets mapped to bring-up file system paths.
use vstd::prelude::*;

verus! {

/// Subset of known-folder semantics.
#[derive(Clone, Copy, Debug, Eq, PartialEq, Structural, Hash)]
pub enum KnownFolderId {
    Desktop,
    Documents,
    Downloads,
    RecycleBin,
}

/// Virtual path of a known folder.
pub open spec fn path_hint(id: KnownFolderId) -> Seq<char> {
    match id {
        KnownFolderId::Desktop => "A:\\Users\\Public\\Desktop"@,
        KnownFolderId::Documents => "A:\\Users\\Public\\Documents"@,
        KnownFolderId::Downloads => "A:\\Users\\Public\\Downloads"@,
        KnownFolderId::RecycleBin => "A:\\$Recycle.Bin"@,
    }
}

/// Path hint for the in-kernel explorer.
pub fn zircon_path_hint(id: KnownFolderId) -> (p: &'static str)
    ensures
        p@ == path_hint(id),
{
    match id {
        KnownFolderId::Desktop => "A:\\Users\\Public\\Desktop",
        KnownFolderId::Documents => "A:\\Users\\Public\\Documents",
        KnownFolderId::Downloads => "A:\\Users\\Public\\Downloads",
        KnownFolderId::RecycleBin => "A:\\$Recycle.Bin",
    }
}

} // verus!
