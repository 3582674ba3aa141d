//! Extensible context menu command ids registered into a fixed table of slots.
use vstd::prelude::*;

verus! {

/// A context menu command id.
#[derive(Clone, Copy, Debug, Eq, PartialEq, Structural)]
pub struct ContextMenuCommand(pub u32);

/// Built-in row: View.
pub const ROW_VIEW_ID: u32 = 1;
/// Built-in row: Sort.
pub const ROW_SORT_ID: u32 = 2;
/// Built-in row: Refresh.
pub const ROW_REFRESH_ID: u32 = 3;

/// Extension slots.
pub const MAX_EXT: usize = 8;

/// Registered extension command ids.
#[derive(Debug)]
pub struct ExtensionCommands {
    pub ids: [Option<u32>; MAX_EXT],
}

impl ExtensionCommands {
    /// No extension registered.
    pub fn new() -> (r: Self)
        ensures
            forall|i: int| 0 <= i < MAX_EXT ==> #[trigger] r.ids[i] is None,
    {
        ExtensionCommands { ids: [None;MAX_EXT] }
    }
}

/// Register `id` into the first free slot; returns the slot, or fails when all are taken.
pub fn register_extension_command(reg: &mut ExtensionCommands, id: u32) -> (r: Result<usize, ()>)
    ensures
        r is Err <==> forall|i: int| 0 <= i < MAX_EXT ==> #[trigger] old(reg).ids[i] is Some,
        r is Err ==> final(reg).ids == old(reg).ids,
        r matches Ok(s) ==> s < MAX_EXT && old(reg).ids[s as int] is None && (forall|i: int| 0 <= i < s ==> #[trigger] old(reg).ids[i] is Some)
            && final(reg).ids@ == old(reg).ids@.update(s as int, Some(id)),
{
    let mut i: usize = 0;
    while i < MAX_EXT
        invariant
            0 <= i <= MAX_EXT,
            reg.ids == old(reg).ids,
            forall|k: int| 0 <= k < i ==> #[trigger] old(reg).ids[k] is Some,
        decreases MAX_EXT - i,
    {
        if reg.ids[i].is_none() {
            reg.ids[i] = Some(id);
            return Ok(i);
        }
        i = i + 1;
    }
    Err(())
}

/// The id registered in `slot`, if any.
pub fn extension_command_at(reg: &ExtensionCommands, slot: usize) -> (r: Option<u32>)
    ensures
        r == if slot < MAX_EXT { reg.ids[slot as int] } else { None::<u32> },
{
    if slot < MAX_EXT {
        reg.ids[slot]
    } else {
        None
    }
}

} // verus!
