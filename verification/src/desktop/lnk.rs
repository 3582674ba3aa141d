//! Windows shell links (`.lnk`): the binary layout is not parsed yet.
use vstd::prelude::*;

verus! {

/// What a parsed link points at.
#[derive(Clone, Copy, Debug, PartialEq, Eq, Structural)]
pub struct LnkTargetHint {
    pub is_unicode_path: bool,
}

/// Parsing is not implemented, so every image is refused.
pub fn parse_shell_link_stub(_image: &[u8]) -> (r: Result<LnkTargetHint, ()>)
    ensures
        r is Err,
{
    Err(())
}

} // verus!
