//! Path handling for loading UEFI images from the ESP: UCS-2 file name components and
//! splitting an ESP-relative path at `\` and `/`.
use vstd::prelude::*;

verus! {

/// Status codes the boot manager reports (a subset of the UEFI status values).
#[derive(Clone, Copy, Debug, PartialEq, Eq, Structural)]
pub enum EfiStatus {
    InvalidParameter,
    Unsupported,
    NotFound,
}

/// The UEFI error bit of a native-width status code.
pub const EFI_ERROR_BIT: u64 = 0x8000_0000_0000_0000;

impl EfiStatus {
    /// The UEFI status value (`EFI_ERROR_BIT` or-ed with the error number).
    pub fn code(&self) -> (c: u64)
        ensures
            c == EFI_ERROR_BIT + match *self {
                EfiStatus::InvalidParameter => 2int,
                EfiStatus::Unsupported => 3int,
                EfiStatus::NotFound => 14int,
            },
    {
        match self {
            EfiStatus::InvalidParameter => EFI_ERROR_BIT + 2,
            EfiStatus::Unsupported => EFI_ERROR_BIT + 3,
            EfiStatus::NotFound => EFI_ERROR_BIT + 14,
        }
    }
}

/// `\` or `/`.
pub open spec fn is_path_sep(b: u8) -> bool {
    b == 92 || b == 47
}

/// ASCII bytes widened to UCS-2.
pub open spec fn widen_ascii(s: Seq<u8>) -> Seq<u16> {
    Seq::new(s.len(), |i: int| s[i] as u16)
}

/// A single ESP path component: non-empty ASCII without NUL or separators.
pub open spec fn valid_component(name: Seq<u8>) -> bool {
    forall|i: int| 0 <= i < name.len() ==> {
        let b = #[trigger] name[i];
        b < 0x80 && b != 0 && !is_path_sep(b)
    }
}

/// Convert one path component to a NUL-terminated UCS-2 name; returns the units written.
pub fn ascii_to_ucs2_component(name: &[u8], out: &mut [u16]) -> (r: Result<usize, EfiStatus>)
    ensures
        final(out)@.len() == old(out)@.len(),
        r is Ok <==> (name@.len() > 0 && name@.len() + 1 <= old(out)@.len() && valid_component(name@)),
        r is Err ==> r == Err::<usize, EfiStatus>(EfiStatus::InvalidParameter) && final(out)@ == old(out)@,
        r matches Ok(n) ==> n == name@.len() + 1 && final(out)@.take(n as int) == widen_ascii(name@).push(0u16),
{
    if name.len() == 0 || name.len() >= out.len() {
        return Err(EfiStatus::InvalidParameter);
    }
    let mut i: usize = 0;
    while i < name.len()
        invariant
            0 <= i <= name@.len(),
            forall|k: int| 0 <= k < i ==> {
                let b = #[trigger] name@[k];
                b < 0x80 && b != 0 && !is_path_sep(b)
            },
        decreases name@.len() - i,
    {
        let b = name[i];
        if b >= 0x80 || b == 0 || b == 47 || b == 92 {
            assert(!valid_component(name@));
            return Err(EfiStatus::InvalidParameter);
        }
        i = i + 1;
    }
    let mut j: usize = 0;
    while j < name.len()
        invariant
            0 <= j <= name@.len(),
            name@.len() < out@.len(),
            out@.len() == old(out)@.len(),
            forall|k: int| 0 <= k < j ==> out@[k] == name@[k] as u16,
        decreases name@.len() - j,
    {
        out[j] = name[j] as u16;
        j = j + 1;
    }
    out[name.len()] = 0;
    assert(out@.take(name@.len() as int + 1) =~= widen_ascii(name@).push(0u16));
    Ok(name.len() + 1)
}

/// Convert the kernel file name to a NUL-terminated UCS-2 name; returns the units written.
pub fn kernel_name_to_ucs2(name: &[u8], out: &mut [u16]) -> (r: Result<usize, EfiStatus>)
    ensures
        final(out)@.len() == old(out)@.len(),
        (name@.len() == 0 || name@.len() + 1 > old(out)@.len()) ==> r == Err::<usize, EfiStatus>(
            EfiStatus::InvalidParameter,
        ),
        (name@.len() > 0 && name@.len() + 1 <= old(out)@.len()) ==> (r == Err::<usize, EfiStatus>(
            EfiStatus::Unsupported,
        ) <==> exists|i: int| 0 <= i < name@.len() && #[trigger] name@[i] >= 0x80),
        r is Err ==> final(out)@ == old(out)@,
        r matches Ok(n) ==> n == name@.len() + 1 && final(out)@.take(n as int) == widen_ascii(name@).push(0u16),
{
    if name.len() == 0 || name.len() >= out.len() {
        return Err(EfiStatus::InvalidParameter);
    }
    let mut i: usize = 0;
    while i < name.len()
        invariant
            0 <= i <= name@.len(),
            name@.len() > 0,
            name@.len() + 1 <= old(out)@.len(),
            forall|k: int| 0 <= k < i ==> #[trigger] name@[k] < 0x80,
        decreases name@.len() - i,
    {
        if name[i] >= 0x80 {
            assert(name@[i as int] >= 0x80);
            return Err(EfiStatus::Unsupported);
        }
        i = i + 1;
    }
    let mut j: usize = 0;
    while j < name.len()
        invariant
            0 <= j <= name@.len(),
            name@.len() < out@.len(),
            out@.len() == old(out)@.len(),
            forall|k: int| 0 <= k < j ==> out@[k] == name@[k] as u16,
        decreases name@.len() - j,
    {
        out[j] = name[j] as u16;
        j = j + 1;
    }
    out[name.len()] = 0;
    assert(out@.take(name@.len() as int + 1) =~= widen_ascii(name@).push(0u16));
    Ok(name.len() + 1)
}

/// Index of the first separator at or after `k`, or `s.len()`.
pub open spec fn find_sep_from(s: Seq<u8>, k: int) -> int
    decreases s.len() - k,
{
    if k < 0 || k >= s.len() {
        s.len() as int
    } else if is_path_sep(s[k]) {
        k
    } else {
        find_sep_from(s, k + 1)
    }
}

/// The separator search never moves backwards.
pub proof fn lemma_find_sep_from_bounds(s: Seq<u8>, k: int)
    requires
        0 <= k <= s.len(),
    ensures
        k <= find_sep_from(s, k) <= s.len(),
    decreases s.len() - k,
{
    if k < s.len() && !is_path_sep(s[k]) {
        lemma_find_sep_from_bounds(s, k + 1);
    }
}

/// Byte ranges of the non-empty components of `s` from index `start` on.
pub open spec fn components_from(s: Seq<u8>, start: int) -> Seq<(int, int)>
    decreases s.len() - start,
{
    if start < 0 || start > s.len() {
        Seq::empty()
    } else {
        let i = find_sep_from(s, start);
        if i >= s.len() {
            if start < s.len() {
                seq![(start, s.len() as int)]
            } else {
                Seq::empty()
            }
        } else if i > start {
            seq![(start, i)] + components_from(s, i + 1)
        } else {
            proof {
                lemma_find_sep_from_bounds(s, start);
            }
            components_from(s, i + 1)
        }
    }
}

/// Ranges with `usize` bounds read as integer ranges.
pub open spec fn int_ranges(v: Seq<(usize, usize)>) -> Seq<(int, int)> {
    Seq::new(v.len(), |k: int| (v[k].0 as int, v[k].1 as int))
}

/// The `[start, end)` ranges of the path components of `path`, in order; empty components
/// (leading, doubled or trailing separators) are skipped.
pub fn esp_path_components(path: &[u8]) -> (r: Vec<(usize, usize)>)
    ensures
        int_ranges(r@) == components_from(path@, 0),
{
    let ghost goal = components_from(path@, 0);
    let len = path.len();
    let mut out: Vec<(usize, usize)> = Vec::new();
    let mut start: usize = 0;
    let mut i: usize = 0;
    assert(int_ranges(out@) + components_from(path@, 0) =~= goal);
    while i < len
        invariant
            0 <= start <= i <= len,
            len == path@.len(),
            find_sep_from(path@, start as int) == find_sep_from(path@, i as int),
            int_ranges(out@) + components_from(path@, start as int) == goal,
        decreases len - i,
    {
        if path[i] == 92 || path[i] == 47 {
            let ghost a = int_ranges(out@);
            assert(find_sep_from(path@, i as int) == i);
            if i > start {
                out.push((start, i));
                assert(int_ranges(out@) =~= a.push((start as int, i as int)));
                assert(int_ranges(out@) + components_from(path@, i as int + 1) =~= a + (seq![(start as int, i as int)] + components_from(path@, i as int + 1)));
            }
            start = i + 1;
        }
        i = i + 1;
    }
    let ghost a = int_ranges(out@);
    if start < len {
        out.push((start, len));
        assert(int_ranges(out@) =~= a.push((start as int, len as int)));
    }
    assert(int_ranges(out@) =~= goal);
    out
}

/// Largest loader image the boot manager reads into memory for chain-loading (64 MiB).
pub const CHAIN_IMAGE_MAX: u64 = 64 * 1024 * 1024;

/// Whether a loader image of `size` bytes may be read for chain-loading: it must be
/// non-empty and at most `CHAIN_IMAGE_MAX` bytes.
pub fn chain_image_size_ok(size: u64) -> (ok: bool)
    ensures
        ok == (0 < size && size <= CHAIN_IMAGE_MAX),
{
    size > 0 && size <= CHAIN_IMAGE_MAX
}

} // verus!
