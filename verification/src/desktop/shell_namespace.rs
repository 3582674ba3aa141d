//! Shell folder enumeration for the bring-up namespace.
use vstd::prelude::*;

verus! {

/// Minimal folder enumeration.
pub trait ShellFolder {
    /// Display names of the children, in order.
    fn enumerate_children(&self) -> Vec<&'static str>;
}

/// Lightweight item id (a path into static storage).
#[derive(Clone, Copy, Debug)]
pub struct ShellItemId<'a> {
    pub path: &'a [u8],
}

/// An item of the namespace.
pub trait ShellItem {
    fn id(&self) -> ShellItemId<'_>;
}

/// Root of the bring-up namespace.
pub struct RootShellFolder;

/// The root's children.
pub open spec fn root_children() -> Seq<Seq<char>> {
    seq!["Zircon Files"@, "This PC"@]
}

impl RootShellFolder {
    /// The children of the root folder.
    pub fn children(&self) -> (r: Vec<&'static str>)
        ensures
            r@.len() == root_children().len(),
            forall|i: int| 0 <= i < r@.len() ==> #[trigger] r@[i]@ == root_children()[i],
    {
        let mut v: Vec<&'static str> = Vec::new();
        v.push("Zircon Files");
        v.push("This PC");
        v
    }

    /// How many of the children fit in `capacity` slots.
    pub fn enumerate_into(&self, capacity: usize) -> (n: usize)
        ensures
            n == if capacity < 2 { capacity } else { 2 },
    {
        if capacity < 2 {
            capacity
        } else {
            2
        }
    }
}

impl ShellFolder for RootShellFolder {
    fn enumerate_children(&self) -> (r: Vec<&'static str>)
        ensures
            r@.len() == root_children().len(),
            forall|i: int| 0 <= i < r@.len() ==> #[trigger] r@[i]@ == root_children()[i],
    {
        self.children()
    }
}

} // verus!
