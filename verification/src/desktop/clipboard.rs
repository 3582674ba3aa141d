//! Session-scoped clipboard holding one format at a time (UTF-8 text or a file-drop blob).
use vstd::prelude::*;

verus! {

/// Standard clipboard format id: Unicode text.
pub const CF_UNICODETEXT: u32 = 13;
/// Standard clipboard format id: dropped files.
pub const CF_HDROP: u32 = 15;
/// Capacity for text.
pub const TEXT_CAP: usize = 512;
/// Capacity for a file-drop blob.
pub const HDROP_CAP: usize = 1024;

/// Which payload the clipboard currently offers.
#[derive(Clone, Copy, Debug, PartialEq, Eq, Structural)]
pub enum ActiveFormat {
    Empty,
    UnicodeText,
    Hdrop,
}

/// Clipboard storage.
#[derive(Debug)]
pub struct ClipState {
    active: ActiveFormat,
    text_utf8: Vec<u8>,
    hdrop: Vec<u8>,
}

impl ClipState {
    /// The offered format.
    pub closed spec fn format(&self) -> ActiveFormat {
        self.active
    }

    /// The stored text.
    pub closed spec fn text(&self) -> Seq<u8> {
        self.text_utf8@
    }

    /// The stored file-drop blob.
    pub closed spec fn drop_blob(&self) -> Seq<u8> {
        self.hdrop@
    }

    /// Stored payloads fit their capacities.
    pub closed spec fn wf(&self) -> bool {
        self.text_utf8@.len() <= TEXT_CAP && self.hdrop@.len() <= HDROP_CAP
    }

    /// An empty clipboard.
    pub fn empty() -> (c: Self)
        ensures
            c.wf(),
            c.format() == ActiveFormat::Empty,
            c.text() == Seq::<u8>::empty(),
            c.drop_blob() == Seq::<u8>::empty(),
    {
        ClipState { active: ActiveFormat::Empty, text_utf8: Vec::new(), hdrop: Vec::new() }
    }
}

/// Copy `src` into a fresh vector.
fn copy_bytes(src: &[u8]) -> (v: Vec<u8>)
    ensures
        v@ == src@,
{
    let mut v: Vec<u8> = Vec::new();
    let mut i: usize = 0;
    while i < src.len()
        invariant
            0 <= i <= src@.len(),
            v@ == src@.take(i as int),
        decreases src@.len() - i,
    {
        v.push(src[i]);
        assert(src@.take(i as int + 1) =~= src@.take(i as int).push(src@[i as int]));
        i = i + 1;
    }
    assert(src@.take(src@.len() as int) =~= src@);
    v
}

/// Store UTF-8 text as the Unicode-text format; fails (changing nothing) above 512 bytes.
pub fn set_clipboard_unicodetext_utf8(clip: &mut ClipState, text: &[u8]) -> (r: Result<(), ()>)
    requires
        old(clip).wf(),
    ensures
        final(clip).wf(),
        r is Err <==> text@.len() > TEXT_CAP,
        r is Err ==> *final(clip) == *old(clip),
        r is Ok ==> final(clip).format() == ActiveFormat::UnicodeText && final(clip).text() == text@
            && final(clip).drop_blob() == old(clip).drop_blob(),
{
    if text.len() > TEXT_CAP {
        return Err(());
    }
    clip.text_utf8 = copy_bytes(text);
    clip.active = ActiveFormat::UnicodeText;
    Ok(())
}

/// Copy the text into `dst` when text is offered; returns the bytes copied.
pub fn get_clipboard_text_utf8(clip: &ClipState, dst: &mut [u8]) -> (r: Option<usize>)
    requires
        clip.wf(),
    ensures
        final(dst)@.len() == old(dst)@.len(),
        clip.format() != ActiveFormat::UnicodeText ==> r is None && final(dst)@ == old(dst)@,
        clip.format() == ActiveFormat::UnicodeText ==> {
            let n: int = if clip.text().len() < old(dst)@.len() { clip.text().len() as int } else { old(dst)@.len() as int };
            &&& r == Some(n as usize)
            &&& final(dst)@ == clip.text().take(n) + old(dst)@.skip(n)
        },
{
    if clip.active != ActiveFormat::UnicodeText {
        return None;
    }
    let n = if clip.text_utf8.len() < dst.len() { clip.text_utf8.len() } else { dst.len() };
    let mut i: usize = 0;
    while i < n
        invariant
            0 <= i <= n,
            n <= dst@.len(),
            n <= clip.text().len(),
            clip.wf(),
            dst@.len() == old(dst)@.len(),
            forall|k: int| 0 <= k < i ==> dst@[k] == clip.text()[k],
            forall|k: int| n <= k < dst@.len() ==> dst@[k] == old(dst)@[k],
        decreases n - i,
    {
        dst[i] = clip.text_utf8[i];
        i = i + 1;
    }
    assert(dst@ =~= clip.text().take(n as int) + old(dst)@.skip(n as int));
    Some(n)
}

/// Store an opaque file-drop blob; fails (changing nothing) above 1024 bytes.
pub fn set_clipboard_hdrop(clip: &mut ClipState, data: &[u8]) -> (r: Result<(), ()>)
    requires
        old(clip).wf(),
    ensures
        final(clip).wf(),
        r is Err <==> data@.len() > HDROP_CAP,
        r is Err ==> *final(clip) == *old(clip),
        r is Ok ==> final(clip).format() == ActiveFormat::Hdrop && final(clip).drop_blob() == data@
            && final(clip).text() == old(clip).text(),
{
    if data.len() > HDROP_CAP {
        return Err(());
    }
    clip.hdrop = copy_bytes(data);
    clip.active = ActiveFormat::Hdrop;
    Ok(())
}

/// The standard format id on offer (0 when empty).
pub fn clipboard_format_active(clip: &ClipState) -> (r: u32)
    ensures
        r == match clip.format() {
            ActiveFormat::Empty => 0u32,
            ActiveFormat::UnicodeText => CF_UNICODETEXT,
            ActiveFormat::Hdrop => CF_HDROP,
        },
{
    match clip.active {
        ActiveFormat::Empty => 0,
        ActiveFormat::UnicodeText => CF_UNICODETEXT,
        ActiveFormat::Hdrop => CF_HDROP,
    }
}

} // verus!
