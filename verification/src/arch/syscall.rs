//! Syscall dispatch table indexed by the OS syscall number.
use vstd::prelude::*;

verus! {

/// Returned for an empty slot.
pub const ZR_STATUS_NOT_IMPLEMENTED: i32 = -1_073_741_822;
/// Returned for an index beyond the table.
pub const ZR_STATUS_INVALID_PARAMETER: i32 = -1_073_741_801;
/// Slots reserved in the table.
pub const SYSCALL_TABLE_LEN: usize = 512;

/// Fixed table of handlers; each handler takes the six raw argument registers.
pub struct SyscallTable<F> {
    pub entries: Vec<Option<F>>,
}

impl<F: Fn(u64, u64, u64, u64, u64, u64) -> i32> SyscallTable<F> {
    /// The table has exactly `SYSCALL_TABLE_LEN` slots.
    pub open spec fn wf(&self) -> bool {
        self.entries@.len() == SYSCALL_TABLE_LEN
    }

    /// A table with every slot empty.
    pub fn empty() -> (t: Self)
        ensures
            t.wf(),
            forall|i: int| 0 <= i < SYSCALL_TABLE_LEN ==> t.entries@[i] is None,
    {
        let mut entries: Vec<Option<F>> = Vec::new();
        let mut i: usize = 0;
        while i < SYSCALL_TABLE_LEN
            invariant
                0 <= i <= SYSCALL_TABLE_LEN,
                entries@.len() == i,
                forall|k: int| 0 <= k < i ==> entries@[k] is None,
            decreases SYSCALL_TABLE_LEN - i,
        {
            entries.push(None);
            i = i + 1;
        }
        SyscallTable { entries }
    }

    /// Same as [`SyscallTable::empty`].
    pub fn new() -> (t: Self)
        ensures
            t.wf(),
            forall|i: int| 0 <= i < SYSCALL_TABLE_LEN ==> t.entries@[i] is None,
    {
        Self::empty()
    }

    /// Install `f` at slot `index`; fails for indices beyond the table.
    pub fn register(&mut self, index: u16, f: F) -> (r: Result<(), ()>)
        requires
            old(self).wf(),
        ensures
            final(self).wf(),
            r is Ok <==> (index as int) < SYSCALL_TABLE_LEN,
            r is Ok ==> final(self).entries@ == old(self).entries@.update(index as int, Some(f)),
            r is Err ==> final(self).entries@ == old(self).entries@,
    {
        let i = index as usize;
        if i >= SYSCALL_TABLE_LEN {
            return Err(());
        }
        self.entries.set(i, Some(f));
        Ok(())
    }

    /// Run the handler at slot `index` with the six arguments.
    pub fn dispatch(&self, index: u16, a1: u64, a2: u64, a3: u64, a4: u64, a5: u64, a6: u64) -> (r: i32)
        requires
            self.wf(),
            (index as int) < SYSCALL_TABLE_LEN ==> (self.entries@[index as int] matches Some(f)
                ==> call_requires(f, (a1, a2, a3, a4, a5, a6))),
        ensures
            (index as int) >= SYSCALL_TABLE_LEN ==> r == ZR_STATUS_INVALID_PARAMETER,
            (index as int) < SYSCALL_TABLE_LEN ==> match self.entries@[index as int] {
                Some(f) => call_ensures(f, (a1, a2, a3, a4, a5, a6), r),
                None => r == ZR_STATUS_NOT_IMPLEMENTED,
            },
    {
        let i = index as usize;
        if i >= SYSCALL_TABLE_LEN {
            return ZR_STATUS_INVALID_PARAMETER;
        }
        match &self.entries[i] {
            Some(f) => f(a1, a2, a3, a4, a5, a6),
            None => ZR_STATUS_NOT_IMPLEMENTED,
        }
    }
}

/// Install `f` at slot `index` of the kernel table `table`; fails for indices beyond it.
pub fn zr_syscall_register<F: Fn(u64, u64, u64, u64, u64, u64) -> i32>(
    table: &mut SyscallTable<F>,
    index: u16,
    f: F,
) -> (r: Result<(), ()>)
    requires
        old(table).wf(),
    ensures
        final(table).wf(),
        r is Ok <==> (index as int) < SYSCALL_TABLE_LEN,
        r is Ok ==> final(table).entries@ == old(table).entries@.update(index as int, Some(f)),
        r is Err ==> final(table).entries@ == old(table).entries@,
{
    table.register(index, f)
}

/// Run the handler at slot `index` of the kernel table `table` with the six arguments.
pub fn zr_syscall_dispatch<F: Fn(u64, u64, u64, u64, u64, u64) -> i32>(
    table: &SyscallTable<F>,
    index: u16,
    a1: u64,
    a2: u64,
    a3: u64,
    a4: u64,
    a5: u64,
    a6: u64,
) -> (r: i32)
    requires
        table.wf(),
        (index as int) < SYSCALL_TABLE_LEN ==> (table.entries@[index as int] matches Some(f)
            ==> call_requires(f, (a1, a2, a3, a4, a5, a6))),
    ensures
        (index as int) >= SYSCALL_TABLE_LEN ==> r == ZR_STATUS_INVALID_PARAMETER,
        (index as int) < SYSCALL_TABLE_LEN ==> match table.entries@[index as int] {
            Some(f) => call_ensures(f, (a1, a2, a3, a4, a5, a6), r),
            None => r == ZR_STATUS_NOT_IMPLEMENTED,
        },
{
    table.dispatch(index, a1, a2, a3, a4, a5, a6)
}

/// The slots after the registrations `regs`, in order, each `(index, handler)` as
/// `SyscallTable::register` applies it (indices beyond the table change nothing).
pub open spec fn after_registrations<F>(e: Seq<Option<F>>, regs: Seq<(u16, F)>) -> Seq<Option<F>>
    decreases regs.len(),
{
    if regs.len() == 0 {
        e
    } else {
        let e2 = after_registrations(e, regs.drop_last());
        let (i, g) = regs.last();
        if (i as int) < SYSCALL_TABLE_LEN {
            e2.update(i as int, Some(g))
        } else {
            e2
        }
    }
}

/// A registered handler stays in its slot while later registrations go to other slots, so
/// a dispatch to that slot runs it: `dispatch` then returns a result of that handler (its
/// `call_ensures`). How often the handler runs is not something a contract can state.
pub proof fn lemma_registered_handler_stays<F>(e: Seq<Option<F>>, index: u16, f: F, regs: Seq<(u16, F)>)
    requires
        e.len() == SYSCALL_TABLE_LEN,
        (index as int) < SYSCALL_TABLE_LEN,
        forall|k: int| 0 <= k < regs.len() ==> (#[trigger] regs[k]).0 != index,
    ensures
        after_registrations(e.update(index as int, Some(f)), regs).len() == SYSCALL_TABLE_LEN,
        after_registrations(e.update(index as int, Some(f)), regs)[index as int] == Some(f),
    decreases regs.len(),
{
    if regs.len() > 0 {
        let init = regs.drop_last();
        assert forall|k: int| 0 <= k < init.len() implies (#[trigger] init[k]).0 != index by {
            assert(init[k] == regs[k]);
        }
        lemma_registered_handler_stays(e, index, f, init);
        assert(regs.last() == regs[regs.len() - 1]);
    }
}

} // verus!
