//! `EFI/ZirconOSFluent/zbm10.cfg`: ASCII `KEY=value` lines holding the boot policy.
use vstd::prelude::*;
use vstd::utf8::{valid_utf8, decode_utf8};

verus! {

/// Largest configuration file the loader reads.
pub const CFG_MAX: usize = 512;
/// Capacity of the kernel file name.
pub const NAME_MAX: usize = 63;
/// Capacity of the chain-load path.
pub const CHAIN_PATH_MAX: usize = 127;
/// Upper bound on the auto-boot countdown, in seconds.
pub const AUTO_BOOT_MAX_SECONDS: u64 = 3600;

// ---------------------------------------------------------------- lexical model

/// ASCII decimal digit.
pub open spec fn is_digit(b: u8) -> bool {
    48 <= b <= 57
}

/// Space or horizontal tab.
pub open spec fn is_blank(b: u8) -> bool {
    b == 32 || b == 9
}

/// Line feed or carriage return.
pub open spec fn is_line_break(b: u8) -> bool {
    b == 10 || b == 13
}

/// ASCII lower-casing of one byte.
pub open spec fn ascii_lower(b: u8) -> u8 {
    if 65 <= b <= 90 {
        (b + 32) as u8
    } else {
        b
    }
}

/// Byte strings equal up to ASCII case.
pub open spec fn eq_ignore_case(a: Seq<u8>, b: Seq<u8>) -> bool {
    &&& a.len() == b.len()
    &&& forall|i: int| 0 <= i < a.len() ==> ascii_lower(#[trigger] a[i]) == ascii_lower(b[i])
}

/// `s` without its leading blanks.
pub open spec fn trim_start(s: Seq<u8>) -> Seq<u8>
    decreases s.len(),
{
    if s.len() > 0 && is_blank(s[0]) {
        trim_start(s.drop_first())
    } else {
        s
    }
}

/// `s` without its trailing blanks.
pub open spec fn trim_end(s: Seq<u8>) -> Seq<u8>
    decreases s.len(),
{
    if s.len() > 0 && is_blank(s.last()) {
        trim_end(s.drop_last())
    } else {
        s
    }
}

/// `s` without leading and trailing blanks.
pub open spec fn trim(s: Seq<u8>) -> Seq<u8> {
    trim_end(trim_start(s))
}

/// Index of the first byte at or after `k` equal to `b`, or `s.len()` when there is none.
pub open spec fn find_byte_from(s: Seq<u8>, b: u8, k: int) -> int
    decreases s.len() - k,
{
    if k < 0 || k >= s.len() {
        s.len() as int
    } else if s[k] == b {
        k
    } else {
        find_byte_from(s, b, k + 1)
    }
}

/// Index of the first line break at or after `k`, or `s.len()` when there is none.
pub open spec fn find_break_from(s: Seq<u8>, k: int) -> int
    decreases s.len() - k,
{
    if k < 0 || k >= s.len() {
        s.len() as int
    } else if is_line_break(s[k]) {
        k
    } else {
        find_break_from(s, k + 1)
    }
}

/// Every byte is a decimal digit.
pub open spec fn all_digits(s: Seq<u8>) -> bool {
    forall|i: int| 0 <= i < s.len() ==> is_digit(#[trigger] s[i])
}

/// Exact decimal value of a digit string.
pub open spec fn decimal_value(s: Seq<u8>) -> nat
    decreases s.len(),
{
    if s.len() == 0 {
        0
    } else {
        decimal_value(s.drop_last()) * 10 + (s.last() - 48) as nat
    }
}

/// `v` clamped to the `u64` range.
pub open spec fn clamp_u64(v: int) -> u64 {
    if v > u64::MAX {
        u64::MAX
    } else {
        v as u64
    }
}

/// Decimal value of a digit string accumulated with saturating `u64` arithmetic.
pub open spec fn saturating_decimal(s: Seq<u8>) -> u64
    decreases s.len(),
{
    if s.len() == 0 {
        0
    } else {
        clamp_u64(clamp_u64(saturating_decimal(s.drop_last()) * 10) + (s.last() - 48))
    }
}

/// The decimal number in `s`: `None` unless `s` is a non-empty string of digits.
pub open spec fn parse_u64_spec(s: Seq<u8>) -> Option<u64> {
    if s.len() == 0 || !all_digits(s) {
        None
    } else {
        Some(saturating_decimal(s))
    }
}

/// The decimal number in `s` when it fits a byte.
pub open spec fn parse_u8_spec(s: Seq<u8>) -> Option<u8> {
    match parse_u64_spec(s) {
        Some(n) => if n <= 255 {
            Some(n as u8)
        } else {
            None
        },
        None => None,
    }
}

/// `"1"`.
pub open spec fn lit_1() -> Seq<u8> {
    seq![49u8]
}

/// `"true"`.
pub open spec fn lit_true() -> Seq<u8> {
    seq![116u8, 114, 117, 101]
}

/// `"yes"`.
pub open spec fn lit_yes() -> Seq<u8> {
    seq![121u8, 101, 115]
}

/// `"on"`.
pub open spec fn lit_on() -> Seq<u8> {
    seq![111u8, 110]
}

/// `"0"`.
pub open spec fn lit_0() -> Seq<u8> {
    seq![48u8]
}

/// `"false"`.
pub open spec fn lit_false() -> Seq<u8> {
    seq![102u8, 97, 108, 115, 101]
}

/// `"no"`.
pub open spec fn lit_no() -> Seq<u8> {
    seq![110u8, 111]
}

/// `"off"`.
pub open spec fn lit_off() -> Seq<u8> {
    seq![111u8, 102, 102]
}

/// The boolean spelled by `s` (`1/true/yes/on`, `0/false/no/off`, any ASCII case).
pub open spec fn parse_bool_spec(s: Seq<u8>) -> Option<bool> {
    if eq_ignore_case(s, lit_1()) || eq_ignore_case(s, lit_true()) || eq_ignore_case(s, lit_yes())
        || eq_ignore_case(s, lit_on()) {
        Some(true)
    } else if eq_ignore_case(s, lit_0()) || eq_ignore_case(s, lit_false()) || eq_ignore_case(
        s,
        lit_no(),
    ) || eq_ignore_case(s, lit_off()) {
        Some(false)
    } else {
        None
    }
}

// ---------------------------------------------------------------- lexical code

/// Whether `a` and `b` are equal up to ASCII case.
pub fn eq_ignore_ascii_case(a: &[u8], b: &[u8]) -> (r: bool)
    ensures
        r == eq_ignore_case(a@, b@),
{
    if a.len() != b.len() {
        return false;
    }
    let mut i: usize = 0;
    while i < a.len()
        invariant
            0 <= i <= a@.len(),
            a@.len() == b@.len(),
            forall|k: int| 0 <= k < i ==> ascii_lower(#[trigger] a@[k]) == ascii_lower(b@[k]),
        decreases a@.len() - i,
    {
        let x = a[i];
        let y = b[i];
        let lx = if 65 <= x && x <= 90 { x + 32 } else { x };
        let ly = if 65 <= y && y <= 90 { y + 32 } else { y };
        if lx != ly {
            assert(ascii_lower(a@[i as int]) != ascii_lower(b@[i as int]));
            return false;
        }
        i = i + 1;
    }
    true
}

/// `s` without leading and trailing spaces and tabs.
pub fn trim_ascii(s: &[u8]) -> (r: &[u8])
    ensures
        r@ == trim(s@),
{
    let mut start: usize = 0;
    let mut end: usize = s.len();
    assert(s@.subrange(0, end as int) =~= s@);
    while start < end && (s[start] == 32 || s[start] == 9)
        invariant
            0 <= start <= end,
            end == s@.len(),
            trim_start(s@) == trim_start(s@.subrange(start as int, end as int)),
        decreases end - start,
    {
        assert(s@.subrange(start as int, end as int).drop_first() =~= s@.subrange(
            start as int + 1,
            end as int,
        ));
        start = start + 1;
    }
    assert(trim_start(s@.subrange(start as int, end as int)) == s@.subrange(start as int, end as int));
    while end > start && (s[end - 1] == 32 || s[end - 1] == 9)
        invariant
            0 <= start <= end <= s@.len(),
            trim(s@) == trim_end(s@.subrange(start as int, end as int)),
        decreases end - start,
    {
        assert(s@.subrange(start as int, end as int).drop_last() =~= s@.subrange(
            start as int,
            end as int - 1,
        ));
        end = end - 1;
    }
    &s[start..end]
}

/// Parse a non-empty ASCII decimal number, saturating at `u64::MAX`.
pub fn parse_ascii_u64(val: &[u8]) -> (r: Option<u64>)
    ensures
        r == parse_u64_spec(val@),
{
    if val.len() == 0 {
        return None;
    }
    let mut n: u64 = 0;
    let mut i: usize = 0;
    while i < val.len()
        invariant
            0 <= i <= val@.len(),
            val@.len() > 0,
            all_digits(val@.take(i as int)),
            n == saturating_decimal(val@.take(i as int)),
        decreases val@.len() - i,
    {
        let b = val[i];
        if !(48 <= b && b <= 57) {
            assert(!all_digits(val@));
            return None;
        }
        let m = match n.checked_mul(10) {
            Some(v) => v,
            None => u64::MAX,
        };
        let d = (b - 48) as u64;
        let next = m.saturating_add(d);
        assert(val@.take(i as int + 1).drop_last() =~= val@.take(i as int));
        assert(all_digits(val@.take(i as int + 1)));
        n = next;
        i = i + 1;
    }
    assert(val@.take(i as int) =~= val@);
    Some(n)
}

/// Parse a decimal number that fits a byte.
pub fn parse_ascii_u8(val: &[u8]) -> (r: Option<u8>)
    ensures
        r == parse_u8_spec(val@),
{
    let n = match parse_ascii_u64(val) {
        Some(n) => n,
        None => return None,
    };
    if n <= 255 {
        Some(n as u8)
    } else {
        None
    }
}

/// Parse `1/true/yes/on` or `0/false/no/off`, ignoring ASCII case.
pub fn parse_bool(val: &[u8]) -> (r: Option<bool>)
    ensures
        r == parse_bool_spec(val@),
{
    let w1: [u8; 1] = [49u8];
    let wtrue: [u8; 4] = [116u8, 114, 117, 101];
    let wyes: [u8; 3] = [121u8, 101, 115];
    let won: [u8; 2] = [111u8, 110];
    let w0: [u8; 1] = [48u8];
    let wfalse: [u8; 5] = [102u8, 97, 108, 115, 101];
    let wno: [u8; 2] = [110u8, 111];
    let woff: [u8; 3] = [111u8, 102, 102];
    assert(w1@ == lit_1() && wtrue@ == lit_true() && wyes@ == lit_yes() && won@ == lit_on());
    assert(w0@ == lit_0() && wfalse@ == lit_false() && wno@ == lit_no() && woff@ == lit_off());
    if eq_ignore_ascii_case(val, &w1) || eq_ignore_ascii_case(val, &wtrue) || eq_ignore_ascii_case(
        val,
        &wyes,
    ) || eq_ignore_ascii_case(val, &won) {
        return Some(true);
    }
    if eq_ignore_ascii_case(val, &w0) || eq_ignore_ascii_case(val, &wfalse) || eq_ignore_ascii_case(
        val,
        &wno,
    ) || eq_ignore_ascii_case(val, &woff) {
        return Some(false);
    }
    None
}

/// `s` is the lower-case word `w` written in any ASCII case: each letter of `w` may appear
/// in upper case, every other byte as it is.
pub open spec fn spelled_as(s: Seq<u8>, w: Seq<u8>) -> bool {
    &&& s.len() == w.len()
    &&& forall|i: int| #![trigger s[i]] 0 <= i < w.len() ==> s[i] == w[i] || (97 <= w[i] <= 122 && s[i] + 32 == w[i])
}

proof fn lemma_spelled_as_matches(s: Seq<u8>, w: Seq<u8>)
    requires
        spelled_as(s, w),
    ensures
        eq_ignore_case(s, w),
        s.len() > 0 ==> ascii_lower(s[0]) == ascii_lower(w[0]),
{
    assert forall|i: int| 0 <= i < s.len() implies ascii_lower(#[trigger] s[i]) == ascii_lower(w[i]) by {
        assert(s[i] == w[i] || (97 <= w[i] <= 122 && s[i] + 32 == w[i]));
    }
}

/// Each boolean word means what it says, in any ASCII case: `true`, `yes`, `on` and `1`
/// read as true, `false`, `no`, `off` and `0` as false (so `REMEMBER_LAST=false` or
/// `CHAINLOAD=off` turns the flag off).
pub proof fn lemma_parse_bool_words(s: Seq<u8>)
    ensures
        spelled_as(s, seq![116u8, 114, 117, 101]) ==> parse_bool_spec(s) == Some(true),
        spelled_as(s, seq![121u8, 101, 115]) ==> parse_bool_spec(s) == Some(true),
        spelled_as(s, seq![111u8, 110]) ==> parse_bool_spec(s) == Some(true),
        spelled_as(s, seq![49u8]) ==> parse_bool_spec(s) == Some(true),
        spelled_as(s, seq![102u8, 97, 108, 115, 101]) ==> parse_bool_spec(s) == Some(false),
        spelled_as(s, seq![110u8, 111]) ==> parse_bool_spec(s) == Some(false),
        spelled_as(s, seq![111u8, 102, 102]) ==> parse_bool_spec(s) == Some(false),
        spelled_as(s, seq![48u8]) ==> parse_bool_spec(s) == Some(false),
{
    let words: Seq<Seq<u8>> = seq![
        seq![116u8, 114, 117, 101],
        seq![121u8, 101, 115],
        seq![111u8, 110],
        seq![49u8],
        seq![102u8, 97, 108, 115, 101],
        seq![110u8, 111],
        seq![111u8, 102, 102],
        seq![48u8],
    ];
    assert(words[0] == lit_true() && words[1] == lit_yes() && words[2] == lit_on() && words[3] == lit_1());
    assert(words[4] == lit_false() && words[5] == lit_no() && words[6] == lit_off() && words[7] == lit_0());
    assert forall|k: int| 0 <= k < 8 && spelled_as(s, #[trigger] words[k]) implies parse_bool_spec(s) == (if k < 4 { Some(true) } else { Some(false) }) by {
        lemma_spelled_as_matches(s, words[k]);
        assert(ascii_lower(s[0]) == words[k][0]);
        if k >= 4 {
            assert(!eq_ignore_case(s, lit_1()) && !eq_ignore_case(s, lit_true()));
            assert(!eq_ignore_case(s, lit_yes()) && !eq_ignore_case(s, lit_on()));
        }
    }
    assert(spelled_as(s, words[0]) ==> parse_bool_spec(s) == Some(true));
    assert(spelled_as(s, words[1]) ==> parse_bool_spec(s) == Some(true));
    assert(spelled_as(s, words[2]) ==> parse_bool_spec(s) == Some(true));
    assert(spelled_as(s, words[3]) ==> parse_bool_spec(s) == Some(true));
    assert(spelled_as(s, words[4]) ==> parse_bool_spec(s) == Some(false));
    assert(spelled_as(s, words[5]) ==> parse_bool_spec(s) == Some(false));
    assert(spelled_as(s, words[6]) ==> parse_bool_spec(s) == Some(false));
    assert(spelled_as(s, words[7]) ==> parse_bool_spec(s) == Some(false));
}

/// The external `core::str::from_utf8`: `Some` exactly when `bytes` are valid UTF-8, and
/// then the text they encode.
#[verifier::external_body]
fn str_from_utf8(bytes: &[u8]) -> (r: Option<&str>)
    ensures
        r is Some <==> valid_utf8(bytes@),
        r matches Some(s) ==> s@ == decode_utf8(bytes@),
{
    core::str::from_utf8(bytes).ok()
}

// ---------------------------------------------------------------- configuration

/// Parsed boot policy.
#[derive(Clone, Copy, Debug)]
pub struct Zbm10Cfg {
    /// Kernel file name within `EFI/ZirconOSFluent/` (e.g. `NT10KRNL.BIN`).
    pub kernel_name: [u8; NAME_MAX],
    pub kernel_name_len: usize,
    /// 0 disables timed auto-boot; otherwise seconds.
    pub auto_boot_seconds: u64,
    /// Initial selection index.
    pub default_entry: u8,
    pub remember_last: bool,
    /// Offer the menu row that chain-loads another UEFI loader.
    pub chainload_enabled: bool,
    /// Backslashes or slashes, relative to the ESP root (ASCII).
    pub chainload_path: [u8; CHAIN_PATH_MAX],
    pub chainload_path_len: usize,
}

/// Mathematical model of a [`Zbm10Cfg`].
pub struct CfgModel {
    pub kernel_name: Seq<u8>,
    pub kernel_name_len: nat,
    pub auto_boot_seconds: u64,
    pub default_entry: u8,
    pub remember_last: bool,
    pub chainload_enabled: bool,
    pub chainload_path: Seq<u8>,
    pub chainload_path_len: nat,
}

impl View for Zbm10Cfg {
    type V = CfgModel;

    open spec fn view(&self) -> CfgModel {
        CfgModel {
            kernel_name: self.kernel_name@,
            kernel_name_len: self.kernel_name_len as nat,
            auto_boot_seconds: self.auto_boot_seconds,
            default_entry: self.default_entry,
            remember_last: self.remember_last,
            chainload_enabled: self.chainload_enabled,
            chainload_path: self.chainload_path@,
            chainload_path_len: self.chainload_path_len as nat,
        }
    }
}

impl CfgModel {
    /// The kernel file name bytes in use.
    pub open spec fn kernel_name_bytes(self) -> Seq<u8> {
        self.kernel_name.take(self.kernel_name_len as int)
    }

    /// The chain-load path bytes in use.
    pub open spec fn chainload_path_bytes(self) -> Seq<u8> {
        self.chainload_path.take(self.chainload_path_len as int)
    }
}

/// `kernel`.
pub open spec fn kw_kernel() -> Seq<u8> {
    seq![107u8, 101, 114, 110, 101, 108]
}

/// `AUTO_BOOT_SECONDS`.
pub open spec fn kw_auto_boot_seconds() -> Seq<u8> {
    seq![65u8, 85, 84, 79, 95, 66, 79, 79, 84, 95, 83, 69, 67, 79, 78, 68, 83]
}

/// `DEFAULT_ENTRY`.
pub open spec fn kw_default_entry() -> Seq<u8> {
    seq![68u8, 69, 70, 65, 85, 76, 84, 95, 69, 78, 84, 82, 89]
}

/// `REMEMBER_LAST`.
pub open spec fn kw_remember_last() -> Seq<u8> {
    seq![82u8, 69, 77, 69, 77, 66, 69, 82, 95, 76, 65, 83, 84]
}

/// `CHAINLOAD`.
pub open spec fn kw_chainload() -> Seq<u8> {
    seq![67u8, 72, 65, 73, 78, 76, 79, 65, 68]
}

/// `CHAINLOAD_PATH`.
pub open spec fn kw_chainload_path() -> Seq<u8> {
    seq![67u8, 72, 65, 73, 78, 76, 79, 65, 68, 95, 80, 65, 84, 72]
}

/// `EFI\Microsoft\Boot\bootmgfw.efi`, the default chain-load target.
pub open spec fn default_chain() -> Seq<u8> {
    seq![
        69u8, 70, 73, 92, 77, 105, 99, 114, 111, 115, 111, 102, 116, 92, 66, 111, 111, 116, 92,
        98, 111, 111, 116, 109, 103, 102, 119, 46, 101, 102, 105,
    ]
}

/// The smaller of two naturals.
pub open spec fn min_nat(a: nat, b: nat) -> nat {
    if a <= b {
        a
    } else {
        b
    }
}

/// `buf` with its first `min(val.len(), max)` bytes replaced by the front of `val`.
pub open spec fn overwrite_prefix(buf: Seq<u8>, val: Seq<u8>, max: nat) -> Seq<u8> {
    let n = min_nat(val.len(), max) as int;
    val.take(n) + buf.skip(n)
}

/// Apply one `key = value` pair (both already trimmed); unknown keys and bad values are ignored.
pub open spec fn apply_setting(m: CfgModel, key: Seq<u8>, val: Seq<u8>) -> CfgModel {
    if eq_ignore_case(key, kw_kernel()) {
        CfgModel {
            kernel_name: overwrite_prefix(m.kernel_name, val, NAME_MAX as nat),
            kernel_name_len: min_nat(val.len(), NAME_MAX as nat),
            ..m
        }
    } else if eq_ignore_case(key, kw_auto_boot_seconds()) {
        match parse_u64_spec(val) {
            Some(v) => CfgModel {
                auto_boot_seconds: if v <= AUTO_BOOT_MAX_SECONDS { v } else { AUTO_BOOT_MAX_SECONDS },
                ..m
            },
            None => m,
        }
    } else if eq_ignore_case(key, kw_default_entry()) {
        match parse_u8_spec(val) {
            Some(v) => CfgModel { default_entry: v, ..m },
            None => m,
        }
    } else if eq_ignore_case(key, kw_remember_last()) {
        match parse_bool_spec(val) {
            Some(b) => CfgModel { remember_last: b, ..m },
            None => m,
        }
    } else if eq_ignore_case(key, kw_chainload()) {
        match parse_bool_spec(val) {
            Some(b) => CfgModel { chainload_enabled: b, ..m },
            None => m,
        }
    } else if eq_ignore_case(key, kw_chainload_path()) {
        CfgModel {
            chainload_path: overwrite_prefix(m.chainload_path, val, CHAIN_PATH_MAX as nat),
            chainload_path_len: min_nat(val.len(), CHAIN_PATH_MAX as nat),
            ..m
        }
    } else {
        m
    }
}

/// Apply one raw line: blank lines, `#` comments and lines without `=` change nothing;
/// otherwise the text before the first `=` is the key and the rest the value, both trimmed.
pub open spec fn apply_line(m: CfgModel, raw: Seq<u8>) -> CfgModel {
    let line = trim(raw);
    if line.len() == 0 || line[0] == 35 {
        m
    } else {
        let eq = find_byte_from(line, 61, 0);
        if eq >= line.len() {
            m
        } else {
            apply_setting(m, trim(line.take(eq)), trim(line.skip(eq + 1)))
        }
    }
}

/// Apply every line of `data` (split at each CR and each LF) in order.
pub open spec fn apply_lines(m: CfgModel, data: Seq<u8>) -> CfgModel
    decreases data.len(),
{
    let i = find_break_from(data, 0);
    if 0 <= i < data.len() {
        apply_lines(apply_line(m, data.take(i)), data.skip(i + 1))
    } else {
        apply_line(m, data)
    }
}

/// The policy used when no configuration file can be read.
pub open spec fn default_model(m: CfgModel) -> bool {
    &&& m.kernel_name == Seq::new(NAME_MAX as nat, |i: int| 0u8)
    &&& m.kernel_name_len == 0
    &&& m.auto_boot_seconds == 10
    &&& m.default_entry == 0
    &&& m.remember_last
    &&& m.chainload_enabled
    &&& m.chainload_path == Seq::new(CHAIN_PATH_MAX as nat, |i: int| 0u8)
    &&& m.chainload_path_len == 0
}

/// `m` after filling in an unset chain-load path with the default target.
pub open spec fn with_defaults(m: CfgModel) -> CfgModel {
    if m.chainload_path_len == 0 {
        CfgModel {
            chainload_path: overwrite_prefix(m.chainload_path, default_chain(), CHAIN_PATH_MAX as nat),
            chainload_path_len: default_chain().len(),
            ..m
        }
    } else {
        m
    }
}

/// Copy the first `n` bytes of `src` over the front of `dst`.
fn copy_prefix<const N: usize>(dst: &mut [u8; N], src: &[u8], n: usize)
    requires
        n <= N,
        n <= src@.len(),
    ensures
        final(dst)@ == src@.take(n as int) + old(dst)@.skip(n as int),
{
    let mut i: usize = 0;
    while i < n
        invariant
            0 <= i <= n,
            n <= N,
            n <= src@.len(),
            dst@.len() == N,
            forall|k: int| 0 <= k < i ==> dst@[k] == src@[k],
            forall|k: int| i <= k < N ==> dst@[k] == old(dst)@[k],
        decreases n - i,
    {
        dst[i] = src[i];
        i = i + 1;
    }
    assert(dst@ =~= src@.take(n as int) + old(dst)@.skip(n as int));
}

impl Zbm10Cfg {
    /// Lengths stay within their buffers.
    pub open spec fn wf(&self) -> bool {
        &&& self.kernel_name_len <= NAME_MAX
        &&& self.chainload_path_len <= CHAIN_PATH_MAX
    }

    /// The built-in policy: 10 s auto-boot, entry 0, remember last, chain-loading on, no names.
    pub fn new() -> (c: Self)
        ensures
            c.wf(),
            default_model(c@),
            c@ == builtin_model(),
    {
        let c = Zbm10Cfg {
            kernel_name: [0u8; NAME_MAX],
            kernel_name_len: 0,
            auto_boot_seconds: 10,
            default_entry: 0,
            remember_last: true,
            chainload_enabled: true,
            chainload_path: [0u8; CHAIN_PATH_MAX],
            chainload_path_len: 0,
        };
        assert(c.kernel_name@ =~= Seq::new(NAME_MAX as nat, |i: int| 0u8));
        assert(c.chainload_path@ =~= Seq::new(CHAIN_PATH_MAX as nat, |i: int| 0u8));
        c
    }

    /// The policy loaded from the bytes of a configuration file: the built-in policy with
    /// every line of `data` applied in order, then the default chain-load path when none
    /// was set.
    pub fn from_file_bytes(data: &[u8]) -> (c: Self)
        ensures
            c.wf(),
            c@ == with_defaults(apply_lines(builtin_model(), data@)),
    {
        let mut c = Zbm10Cfg::new();
        parse_cfg(data, &mut c);
        c.apply_defaults();
        c
    }

    /// Use `EFI\Microsoft\Boot\bootmgfw.efi` when no chain-load path was configured.
    pub fn apply_defaults(&mut self)
        requires
            old(self).wf(),
        ensures
            final(self).wf(),
            final(self)@ == with_defaults(old(self)@),
    {
        if self.chainload_path_len == 0 {
            let chain: [u8; 31] = [
                69u8, 70, 73, 92, 77, 105, 99, 114, 111, 115, 111, 102, 116, 92, 66, 111, 111, 116,
                92, 98, 111, 111, 116, 109, 103, 102, 119, 46, 101, 102, 105,
            ];
            assert(chain@ == default_chain());
            let n: usize = 31;
            copy_prefix(&mut self.chainload_path, &chain, n);
            self.chainload_path_len = n;
            assert(self.chainload_path@ =~= overwrite_prefix(
                old(self).chainload_path@,
                default_chain(),
                CHAIN_PATH_MAX as nat,
            ));
        }
    }

    /// The kernel file name as text; `None` when unset or not valid UTF-8.
    pub fn kernel_name_str(&self) -> (r: Option<&str>)
        requires
            self.wf(),
        ensures
            r is Some <==> (self@.kernel_name_len > 0 && valid_utf8(self@.kernel_name_bytes())),
            r matches Some(s) ==> s@ == decode_utf8(self@.kernel_name_bytes()),
    {
        if self.kernel_name_len == 0 {
            return None;
        }
        let bytes = &self.kernel_name[0..self.kernel_name_len];
        assert(bytes@ =~= self@.kernel_name_bytes());
        str_from_utf8(bytes)
    }

    /// The chain-load path as text; `None` when unset or not valid UTF-8.
    pub fn chainload_path_str(&self) -> (r: Option<&str>)
        requires
            self.wf(),
        ensures
            r is Some <==> (self@.chainload_path_len > 0 && valid_utf8(self@.chainload_path_bytes())),
            r matches Some(s) ==> s@ == decode_utf8(self@.chainload_path_bytes()),
    {
        if self.chainload_path_len == 0 {
            return None;
        }
        let bytes = &self.chainload_path[0..self.chainload_path_len];
        assert(bytes@ =~= self@.chainload_path_bytes());
        str_from_utf8(bytes)
    }

    /// The configured default entry, clamped to `0..entry_count` (0 when there are no entries).
    pub fn clamp_default_entry(&self, entry_count: u8) -> (r: u8)
        ensures
            r == if entry_count == 0 {
                0
            } else if self.default_entry < entry_count - 1 {
                self.default_entry as int
            } else {
                entry_count - 1
            },
    {
        let max = entry_count.saturating_sub(1);
        if self.default_entry < max {
            self.default_entry
        } else {
            max
        }
    }
}

/// Apply one trimmed `key = value` pair to `out`.
fn apply_setting_exec(out: &mut Zbm10Cfg, key: &[u8], val: &[u8])
    requires
        old(out).wf(),
    ensures
        final(out).wf(),
        final(out)@ == apply_setting(old(out)@, key@, val@),
{
    let k_kernel: [u8; 6] = [107u8, 101, 114, 110, 101, 108];
    let k_auto: [u8; 17] = [65u8, 85, 84, 79, 95, 66, 79, 79, 84, 95, 83, 69, 67, 79, 78, 68, 83];
    let k_default: [u8; 13] = [68u8, 69, 70, 65, 85, 76, 84, 95, 69, 78, 84, 82, 89];
    let k_remember: [u8; 13] = [82u8, 69, 77, 69, 77, 66, 69, 82, 95, 76, 65, 83, 84];
    let k_chain: [u8; 9] = [67u8, 72, 65, 73, 78, 76, 79, 65, 68];
    let k_chain_path: [u8; 14] = [67u8, 72, 65, 73, 78, 76, 79, 65, 68, 95, 80, 65, 84, 72];
    assert(k_kernel@ == kw_kernel() && k_auto@ == kw_auto_boot_seconds() && k_default@
        == kw_default_entry());
    assert(k_remember@ == kw_remember_last() && k_chain@ == kw_chainload() && k_chain_path@
        == kw_chainload_path());
    if eq_ignore_ascii_case(key, &k_kernel) {
        let n = if val.len() < NAME_MAX { val.len() } else { NAME_MAX };
        copy_prefix(&mut out.kernel_name, val, n);
        out.kernel_name_len = n;
    } else if eq_ignore_ascii_case(key, &k_auto) {
        if let Some(v) = parse_ascii_u64(val) {
            out.auto_boot_seconds = if v <= AUTO_BOOT_MAX_SECONDS { v } else { AUTO_BOOT_MAX_SECONDS };
        }
    } else if eq_ignore_ascii_case(key, &k_default) {
        if let Some(v) = parse_ascii_u8(val) {
            out.default_entry = v;
        }
    } else if eq_ignore_ascii_case(key, &k_remember) {
        if let Some(b) = parse_bool(val) {
            out.remember_last = b;
        }
    } else if eq_ignore_ascii_case(key, &k_chain) {
        if let Some(b) = parse_bool(val) {
            out.chainload_enabled = b;
        }
    } else if eq_ignore_ascii_case(key, &k_chain_path) {
        let n = if val.len() < CHAIN_PATH_MAX { val.len() } else { CHAIN_PATH_MAX };
        copy_prefix(&mut out.chainload_path, val, n);
        out.chainload_path_len = n;
    }
}

/// Index of the first `=` in `line`, if any.
fn find_equals(line: &[u8]) -> (r: Option<usize>)
    ensures
        match r {
            Some(i) => i == find_byte_from(line@, 61, 0) && i < line@.len(),
            None => find_byte_from(line@, 61, 0) >= line@.len(),
        },
{
    let mut i: usize = 0;
    while i < line.len()
        invariant
            0 <= i <= line@.len(),
            find_byte_from(line@, 61, 0) == find_byte_from(line@, 61, i as int),
        decreases line@.len() - i,
    {
        if line[i] == 61 {
            return Some(i);
        }
        i = i + 1;
    }
    None
}

/// Apply one raw configuration line to `out`.
fn apply_line_exec(out: &mut Zbm10Cfg, raw: &[u8])
    requires
        old(out).wf(),
    ensures
        final(out).wf(),
        final(out)@ == apply_line(old(out)@, raw@),
{
    let line = trim_ascii(raw);
    if line.len() == 0 || line[0] == 35 {
        return;
    }
    let eq = match find_equals(line) {
        Some(e) => e,
        None => return,
    };
    let key = trim_ascii(&line[0..eq]);
    let val = trim_ascii(&line[eq + 1..line.len()]);
    assert(line@.subrange(0, eq as int) =~= line@.take(eq as int));
    assert(line@.subrange(eq as int + 1, line@.len() as int) =~= line@.skip(eq as int + 1));
    apply_setting_exec(out, key, val);
}

/// Apply every `KEY=value` line of `data` to `out`, in order.
pub fn parse_cfg(data: &[u8], out: &mut Zbm10Cfg)
    requires
        old(out).wf(),
    ensures
        final(out).wf(),
        final(out)@ == apply_lines(old(out)@, data@),
{
    let ghost goal = apply_lines(out@, data@);
    let len = data.len();
    let mut start: usize = 0;
    assert(data@.skip(0) =~= data@);
    loop
        invariant_except_break
            0 <= start <= len,
            len == data@.len(),
            out.wf(),
            goal == apply_lines(out@, data@.skip(start as int)),
        ensures
            out.wf(),
            out@ == goal,
        decreases len - start,
    {
        let ghost rest = data@.skip(start as int);
        let mut j = start;
        while j < len && !(data[j] == 10 || data[j] == 13)
            invariant
                start <= j <= len,
                len == data@.len(),
                rest == data@.skip(start as int),
                find_break_from(rest, 0) == find_break_from(rest, j - start),
            decreases len - j,
        {
            j = j + 1;
        }
        let line = &data[start..j];
        apply_line_exec(out, line);
        if j >= len {
            assert(rest =~= line@);
            break;
        }
        assert(rest.take(j - start) =~= line@);
        assert(rest.skip(j - start + 1) =~= data@.skip(j as int + 1));
        start = j + 1;
    }
}

// ---------------------------------------------------------------- decimal formatting

/// `10^k`.
pub open spec fn pow10(k: nat) -> nat
    decreases k,
{
    if k == 0 {
        1
    } else {
        10 * pow10((k - 1) as nat)
    }
}

/// The shortest decimal spelling of `n` (`"0"` for zero).
pub open spec fn dec_digits(n: nat) -> Seq<u8>
    decreases n,
{
    if n < 10 {
        seq![(48 + n) as u8]
    } else {
        dec_digits(n / 10).push((48 + n % 10) as u8)
    }
}

/// A number below `10^k` has at most `k` digits.
pub proof fn lemma_dec_digits_len(n: nat, k: nat)
    requires
        k >= 1,
        n < pow10(k),
    ensures
        1 <= dec_digits(n).len() <= k,
    decreases n,
{
    if n >= 10 {
        assert(n / 10 < pow10((k - 1) as nat)) by (nonlinear_arith)
            requires
                n < pow10(k),
                k >= 1,
                pow10(k) == 10 * pow10((k - 1) as nat),
        ;
        if k == 1 {
            assert(pow10(1) == 10) by {
                reveal_with_fuel(pow10, 2);
            }
        } else {
            lemma_dec_digits_len(n / 10, (k - 1) as nat);
        }
    }
}

/// Every `u64` has at most 20 decimal digits.
pub proof fn lemma_u64_digits(n: u64)
    ensures
        1 <= dec_digits(n as nat).len() <= 20,
{
    assert(pow10(20) == 100000000000000000000nat) by {
        reveal_with_fuel(pow10, 21);
    }
    lemma_dec_digits_len(n as nat, 20);
}

/// The digits of `n` are all decimal digits and spell `n`.
pub proof fn lemma_dec_digits_value(n: nat)
    ensures
        all_digits(dec_digits(n)),
        decimal_value(dec_digits(n)) == n,
    decreases n,
{
    if n >= 10 {
        lemma_dec_digits_value(n / 10);
        assert((n / 10) * 10 + n % 10 == n) by (nonlinear_arith);
        let d = dec_digits(n / 10);
        assert(dec_digits(n).last() == (48 + n % 10) as u8);
        assert((dec_digits(n).last() - 48) as nat == n % 10);
        assert(dec_digits(n).drop_last() =~= d);
        assert forall|i: int| 0 <= i < dec_digits(n).len() implies is_digit(
            #[trigger] dec_digits(n)[i],
        ) by {
            if i < d.len() {
                assert(dec_digits(n)[i] == d[i]);
            }
        }
    } else {
        assert(dec_digits(n).drop_last() =~= Seq::<u8>::empty());
        assert(decimal_value(Seq::<u8>::empty()) == 0);
        assert(dec_digits(n).last() == (48 + n) as u8);
    }
}

/// Saturating accumulation is exact while the value fits a `u64`.
pub proof fn lemma_saturating_decimal_exact(s: Seq<u8>)
    requires
        all_digits(s),
        decimal_value(s) <= u64::MAX,
    ensures
        saturating_decimal(s) == decimal_value(s),
    decreases s.len(),
{
    if s.len() > 0 {
        let p = s.drop_last();
        assert(all_digits(p)) by {
            assert forall|i: int| 0 <= i < p.len() implies is_digit(#[trigger] p[i]) by {
                assert(p[i] == s[i]);
            }
        }
        assert(is_digit(s[s.len() - 1]));
        lemma_saturating_decimal_exact(p);
    }
}

/// Write the decimal spelling of `n` at the end of `tmp` and return it.
pub(crate) fn fmt_decimal<const N: usize>(n: u64, tmp: &mut [u8; N]) -> (r: &[u8])
    requires
        N >= 20,
    ensures
        r@ == dec_digits(n as nat),
{
    proof {
        lemma_u64_digits(n);
    }
    if n == 0 {
        tmp[0] = 48;
        return &tmp[0..1];
    }
    let mut v = n;
    let mut i: usize = N;
    while v > 0
        invariant
            0 <= i <= N,
            N >= 20,
            tmp@.len() == N,
            dec_digits(n as nat).len() <= 20,
            v > 0 ==> dec_digits(n as nat) == dec_digits(v as nat) + tmp@.subrange(i as int, N as int)
                && dec_digits(v as nat).len() + (N - i) == dec_digits(n as nat).len(),
            v == 0 ==> dec_digits(n as nat) == tmp@.subrange(i as int, N as int),
        decreases v,
    {
        let ghost suffix = tmp@.subrange(i as int, N as int);
        let d = (v % 10) as u8;
        i = i - 1;
        tmp[i] = 48 + d;
        assert(tmp@.subrange(i as int, N as int) =~= seq![(48 + v % 10) as u8] + suffix);
        if v >= 10 {
            assert(dec_digits(v as nat) == dec_digits((v / 10) as nat).push((48 + v % 10) as u8));
            assert(dec_digits(v as nat) + suffix =~= dec_digits((v / 10) as nat) + tmp@.subrange(
                i as int,
                N as int,
            ));
        } else {
            assert(dec_digits(v as nat) =~= seq![(48 + v % 10) as u8]);
        }
        v = v / 10;
    }
    &tmp[i..N]
}

/// Decimal spelling of `n` into the tail of a 24-byte scratch buffer.
pub fn fmt_u64(n: u64, tmp: &mut [u8; 24]) -> (r: &[u8])
    ensures
        r@ == dec_digits(n as nat),
{
    fmt_decimal(n, tmp)
}

// ---------------------------------------------------------------- writing the file

/// `CR LF`.
pub open spec fn crlf() -> Seq<u8> {
    seq![13u8, 10]
}

/// First comment line of a written configuration.
pub open spec fn header_title() -> Seq<u8> {
    seq![
        35u8, 32, 90, 105, 114, 99, 111, 110, 32, 66, 111, 111, 116, 32, 77, 97, 110, 97, 103, 101,
        114, 32, 40, 90, 66, 77, 49, 48, 41, 32, 99, 111, 110, 102, 105, 103, 117, 114, 97, 116,
        105, 111, 110,
    ]
}

/// Second comment line of a written configuration.
pub open spec fn header_format() -> Seq<u8> {
    seq![
        35u8, 32, 65, 83, 67, 73, 73, 32, 75, 69, 89, 61, 118, 97, 108, 117, 101, 32, 112, 101, 114,
        32, 108, 105, 110, 101,
    ]
}

/// `NT10KRNL.BIN`, written when no kernel name is set.
pub open spec fn default_kernel_name() -> Seq<u8> {
    seq![78u8, 84, 49, 48, 75, 82, 78, 76, 46, 66, 73, 78]
}

/// `KEY=value CR LF`.
pub open spec fn setting_line(key: Seq<u8>, val: Seq<u8>) -> Seq<u8> {
    key.push(61) + val + crlf()
}

/// `0` or `1`.
pub open spec fn flag_text(b: bool) -> Seq<u8> {
    if b {
        lit_1()
    } else {
        lit_0()
    }
}

/// The text written for the policy `m`.
pub open spec fn cfg_text(m: CfgModel) -> Seq<u8> {
    let kn = written_kernel_name(m);
    let cp = written_chain_path(m);
    header_title() + crlf() + header_format() + crlf() + setting_line(kw_kernel(), kn)
        + setting_line(kw_auto_boot_seconds(), dec_digits(m.auto_boot_seconds as nat))
        + setting_line(kw_default_entry(), dec_digits(m.default_entry as nat)) + setting_line(
        kw_remember_last(),
        flag_text(m.remember_last),
    ) + setting_line(kw_chainload(), flag_text(m.chainload_enabled)) + setting_line(
        kw_chainload_path(),
        cp,
    )
}

/// Append `s` at `*used` when it fits; returns whether it was written.
pub fn push_bytes(buf: &mut [u8], used: &mut usize, s: &[u8]) -> (ok: bool)
    requires
        *old(used) <= old(buf)@.len(),
    ensures
        final(buf)@.len() == old(buf)@.len(),
        ok == (*old(used) + s@.len() <= old(buf)@.len()),
        ok ==> *final(used) == *old(used) + s@.len() && final(buf)@.take(*final(used) as int)
            == old(buf)@.take(*old(used) as int) + s@ && final(buf)@.skip(*final(used) as int)
            == old(buf)@.skip(*final(used) as int),
        !ok ==> *final(used) == *old(used) && final(buf)@ == old(buf)@,
{
    if s.len() > buf.len() - *used {
        return false;
    }
    let u0 = *used;
    let cap = buf.len();
    let mut i: usize = 0;
    while i < s.len()
        invariant
            0 <= i <= s@.len(),
            cap == buf@.len(),
            u0 + s@.len() <= buf@.len(),
            buf@.len() == old(buf)@.len(),
            forall|k: int| 0 <= k < u0 ==> buf@[k] == old(buf)@[k],
            forall|k: int| 0 <= k < i ==> buf@[u0 + k] == s@[k],
            forall|k: int| u0 + s@.len() <= k < buf@.len() ==> buf@[k] == old(buf)@[k],
        decreases s@.len() - i,
    {
        buf[u0 + i] = s[i];
        i = i + 1;
    }
    *used = u0 + s.len();
    assert(buf@.take(*used as int) =~= old(buf)@.take(u0 as int) + s@);
    assert(buf@.skip(*used as int) =~= old(buf)@.skip(*used as int));
    true
}

/// Append `line` and `CR LF`; the terminator is written only after the line itself fits.
pub fn push_line(buf: &mut [u8], used: &mut usize, line: &[u8]) -> (ok: bool)
    requires
        *old(used) <= old(buf)@.len(),
    ensures
        final(buf)@.len() == old(buf)@.len(),
        ok == (*old(used) + line@.len() + 2 <= old(buf)@.len()),
        ok ==> *final(used) == *old(used) + line@.len() + 2 && final(buf)@.take(*final(used) as int)
            == old(buf)@.take(*old(used) as int) + line@ + crlf(),
        *old(used) + line@.len() > old(buf)@.len() ==> *final(used) == *old(used) && final(buf)@
            == old(buf)@,
        *old(used) <= *final(used) <= old(buf)@.len(),
        final(buf)@.take(*old(used) as int) == old(buf)@.take(*old(used) as int),
{
    let nl: [u8; 2] = [13u8, 10];
    assert(nl@ == crlf());
    let ghost u0: int = *used as int;
    if !push_bytes(buf, used, line) {
        return false;
    }
    let ghost mid = buf@;
    let ok = push_bytes(buf, used, &nl);
    proof {
        if ok {
            assert(buf@.take(u0) =~= mid.take(u0));
            assert(buf@.take(*used as int) =~= old(buf)@.take(u0) + line@ + crlf());
        } else {
            assert(buf@.take(u0) =~= old(buf)@.take(u0));
        }
    }
    ok
}

/// Append `key`, `val` and `CR LF` when all three fit.
fn push_setting(out: &mut [u8; CFG_MAX], used: &mut usize, key: &[u8], val: &[u8])
    requires
        *old(used) + key@.len() + val@.len() + 2 <= CFG_MAX,
    ensures
        *final(used) == *old(used) + key@.len() + val@.len() + 2,
        final(out)@.take(*final(used) as int) == old(out)@.take(*old(used) as int) + key@ + val@
            + crlf(),
{
    let nl: [u8; 2] = [13u8, 10];
    assert(nl@ == crlf());
    let ghost u0: int = *used as int;
    let ghost o0 = out@;
    let _ = push_bytes(out, used, key);
    let ghost o1 = out@;
    let _ = push_bytes(out, used, val);
    let ghost o2 = out@;
    let _ = push_bytes(out, used, &nl);
    assert(o2.take(u0 + key@.len()) =~= o1.take(u0 + key@.len()));
    assert(out@.take(u0 + key@.len() + val@.len()) =~= o2.take(u0 + key@.len() + val@.len()));
    assert(out@.take(*used as int) =~= o0.take(u0) + key@ + val@ + crlf());
}

/// The written configuration of any well-formed policy fits the configuration buffer.
pub proof fn lemma_cfg_text_fits(m: CfgModel)
    requires
        m.kernel_name.len() == NAME_MAX,
        m.chainload_path.len() == CHAIN_PATH_MAX,
        m.kernel_name_len <= NAME_MAX,
        m.chainload_path_len <= CHAIN_PATH_MAX,
    ensures
        cfg_text(m).len() <= CFG_MAX,
{
    lemma_u64_digits(m.auto_boot_seconds);
    lemma_u64_digits(m.default_entry as u64);
    assert(written_kernel_name(m).len() <= NAME_MAX) by {
        assert(default_kernel_name().len() == 12);
    }
    assert(written_chain_path(m).len() <= CHAIN_PATH_MAX) by {
        assert(default_chain().len() == 31);
    }
    assert(flag_text(m.remember_last).len() == 1 && flag_text(m.chainload_enabled).len() == 1);
}

/// Lay out the configuration text for `cfg` in `out`; returns the number of bytes used.
#[verifier::rlimit(80)]
pub fn render_zbm10_cfg(cfg: &Zbm10Cfg, out: &mut [u8; CFG_MAX]) -> (used: usize)
    requires
        cfg.wf(),
    ensures
        used == cfg_text(cfg@).len(),
        used <= CFG_MAX,
        final(out)@.take(used as int) == cfg_text(cfg@),
{
    proof {
        lemma_cfg_text_fits(cfg@);
    }
    let title: [u8; 43] = [
        35u8, 32, 90, 105, 114, 99, 111, 110, 32, 66, 111, 111, 116, 32, 77, 97, 110, 97, 103, 101,
        114, 32, 40, 90, 66, 77, 49, 48, 41, 32, 99, 111, 110, 102, 105, 103, 117, 114, 97, 116,
        105, 111, 110,
    ];
    let format: [u8; 26] = [
        35u8, 32, 65, 83, 67, 73, 73, 32, 75, 69, 89, 61, 118, 97, 108, 117, 101, 32, 112, 101, 114,
        32, 108, 105, 110, 101,
    ];
    let k_kernel: [u8; 7] = [107u8, 101, 114, 110, 101, 108, 61];
    let k_auto: [u8; 18] = [65u8, 85, 84, 79, 95, 66, 79, 79, 84, 95, 83, 69, 67, 79, 78, 68, 83, 61];
    let k_default: [u8; 14] = [68u8, 69, 70, 65, 85, 76, 84, 95, 69, 78, 84, 82, 89, 61];
    let remember_on: [u8; 15] = [82u8, 69, 77, 69, 77, 66, 69, 82, 95, 76, 65, 83, 84, 61, 49];
    let remember_off: [u8; 15] = [82u8, 69, 77, 69, 77, 66, 69, 82, 95, 76, 65, 83, 84, 61, 48];
    let chain_on: [u8; 11] = [67u8, 72, 65, 73, 78, 76, 79, 65, 68, 61, 49];
    let chain_off: [u8; 11] = [67u8, 72, 65, 73, 78, 76, 79, 65, 68, 61, 48];
    let k_path: [u8; 15] = [67u8, 72, 65, 73, 78, 76, 79, 65, 68, 95, 80, 65, 84, 72, 61];
    let default_kernel: [u8; 12] = [78u8, 84, 49, 48, 75, 82, 78, 76, 46, 66, 73, 78];
    let default_path: [u8; 31] = [
        69u8, 70, 73, 92, 77, 105, 99, 114, 111, 115, 111, 102, 116, 92, 66, 111, 111, 116, 92, 98,
        111, 111, 116, 109, 103, 102, 119, 46, 101, 102, 105,
    ];
    assert(title@ == header_title() && format@ == header_format());
    assert(k_kernel@ == kw_kernel().push(61) && k_auto@ == kw_auto_boot_seconds().push(61));
    assert(k_default@ == kw_default_entry().push(61) && k_path@ == kw_chainload_path().push(61));
    assert(remember_on@ == kw_remember_last().push(61) + lit_1());
    assert(remember_off@ == kw_remember_last().push(61) + lit_0());
    assert(chain_on@ == kw_chainload().push(61) + lit_1());
    assert(chain_off@ == kw_chainload().push(61) + lit_0());
    assert(default_kernel@ == default_kernel_name() && default_path@ == default_chain());
    proof {
        lemma_u64_digits(cfg.auto_boot_seconds);
        lemma_u64_digits(cfg.default_entry as u64);
    }
    let ghost m = cfg@;
    let mut u: usize = 0;
    let empty: [u8; 0] = [];
    let ghost o0 = out@;
    push_setting(out, &mut u, &title, &empty);
    let ghost o1 = out@;
    push_setting(out, &mut u, &format, &empty);
    let ghost t0 = header_title() + crlf() + header_format() + crlf();
    assert(o1.take(45) =~= o0.take(0) + title@ + empty@ + crlf());
    assert(out@.take(45) =~= o1.take(45));
    assert(out@.take(u as int) =~= t0);
    let kn: &[u8] = if cfg.kernel_name_len > 0 {
        &cfg.kernel_name[0..cfg.kernel_name_len]
    } else {
        &default_kernel
    };
    assert(kn@ == written_kernel_name(m));
    let ghost u1: int = u as int;
    push_setting(out, &mut u, &k_kernel, kn);
    let ghost t1 = t0 + setting_line(kw_kernel(), kn@);
    assert(out@.take(u as int) =~= t1);
    let mut nbuf = [0u8; 24];
    let digits = fmt_u64(cfg.auto_boot_seconds, &mut nbuf);
    push_setting(out, &mut u, &k_auto, digits);
    let ghost t2 = t1 + setting_line(kw_auto_boot_seconds(), dec_digits(m.auto_boot_seconds as nat));
    assert(out@.take(u as int) =~= t2);
    let digits = fmt_u64(cfg.default_entry as u64, &mut nbuf);
    push_setting(out, &mut u, &k_default, digits);
    let ghost t3 = t2 + setting_line(kw_default_entry(), dec_digits(m.default_entry as nat));
    assert(out@.take(u as int) =~= t3);
    push_setting(out, &mut u, if cfg.remember_last { &remember_on } else { &remember_off }, &empty);
    let ghost t4 = t3 + setting_line(kw_remember_last(), flag_text(m.remember_last));
    assert(out@.take(u as int) =~= t4);
    push_setting(out, &mut u, if cfg.chainload_enabled { &chain_on } else { &chain_off }, &empty);
    let ghost t5 = t4 + setting_line(kw_chainload(), flag_text(m.chainload_enabled));
    assert(out@.take(u as int) =~= t5);
    let cp: &[u8] = if cfg.chainload_path_len > 0 {
        &cfg.chainload_path[0..cfg.chainload_path_len]
    } else {
        &default_path
    };
    assert(cp@ == written_chain_path(m));
    push_setting(out, &mut u, &k_path, cp);
    assert(out@.take(u as int) =~= cfg_text(m));
    u
}

// ---------------------------------------------------------------- reading back what was written

/// No byte of `s` is a line break.
pub open spec fn no_line_breaks(s: Seq<u8>) -> bool {
    forall|i: int| 0 <= i < s.len() ==> !is_line_break(#[trigger] s[i])
}

/// `s` is empty, or neither starts nor ends with a blank.
pub open spec fn blank_free_ends(s: Seq<u8>) -> bool {
    s.len() == 0 || (!is_blank(s[0]) && !is_blank(s.last()))
}

/// A value that survives being written on a line of its own and read back.
pub open spec fn storable_value(s: Seq<u8>) -> bool {
    no_line_breaks(s) && blank_free_ends(s)
}

/// The model of a [`Zbm10Cfg`] that keeps its lengths within its buffers.
pub open spec fn valid_model(m: CfgModel) -> bool {
    &&& m.kernel_name.len() == NAME_MAX
    &&& m.chainload_path.len() == CHAIN_PATH_MAX
    &&& m.kernel_name_len <= NAME_MAX
    &&& m.chainload_path_len <= CHAIN_PATH_MAX
}

/// The built-in policy as a model.
pub open spec fn builtin_model() -> CfgModel {
    CfgModel {
        kernel_name: Seq::new(NAME_MAX as nat, |i: int| 0u8),
        kernel_name_len: 0,
        auto_boot_seconds: 10,
        default_entry: 0,
        remember_last: true,
        chainload_enabled: true,
        chainload_path: Seq::new(CHAIN_PATH_MAX as nat, |i: int| 0u8),
        chainload_path_len: 0,
    }
}

/// Trimming leaves a string with non-blank ends as it is.
proof fn lemma_trim_keeps(s: Seq<u8>)
    requires
        blank_free_ends(s),
    ensures
        trim(s) == s,
{
    assert(trim_start(s) == s);
    assert(trim_end(s) == s);
}

/// The first line break at or after `k` is at `j`.
proof fn lemma_find_break(s: Seq<u8>, k: int, j: int)
    requires
        0 <= k <= j < s.len(),
        is_line_break(s[j]),
        forall|i: int| k <= i < j ==> !is_line_break(#[trigger] s[i]),
    ensures
        find_break_from(s, k) == j,
    decreases j - k,
{
    if k < j {
        lemma_find_break(s, k + 1, j);
    }
}

/// The first byte `b` at or after `k` is at `j`.
proof fn lemma_find_byte(s: Seq<u8>, b: u8, k: int, j: int)
    requires
        0 <= k <= j < s.len(),
        s[j] == b,
        forall|i: int| k <= i < j ==> #[trigger] s[i] != b,
    ensures
        find_byte_from(s, b, k) == j,
    decreases j - k,
{
    if k < j {
        lemma_find_byte(s, b, k + 1, j);
    }
}

/// An empty line, and an empty text, change nothing.
proof fn lemma_apply_empty(m: CfgModel)
    ensures
        apply_line(m, Seq::<u8>::empty()) == m,
        apply_lines(m, Seq::<u8>::empty()) == m,
{
    let e = Seq::<u8>::empty();
    assert(trim_start(e) == e);
    assert(trim_end(e) == e);
    assert(find_break_from(e, 0) == 0);
}

/// A line without breaks followed by `CR LF` is applied on its own, then the rest.
proof fn lemma_apply_lines_step(m: CfgModel, l: Seq<u8>, rest: Seq<u8>)
    requires
        no_line_breaks(l),
    ensures
        apply_lines(m, l + crlf() + rest) == apply_lines(apply_line(m, l), rest),
{
    let d = l + crlf() + rest;
    let n = l.len() as int;
    assert(d[n] == 13u8);
    assert forall|i: int| 0 <= i < n implies !is_line_break(#[trigger] d[i]) by {
        assert(d[i] == l[i]);
    }
    lemma_find_break(d, 0, n);
    assert(d.take(n) =~= l);
    let d2 = d.skip(n + 1);
    assert(d2 =~= seq![10u8] + rest);
    assert(find_break_from(d2, 0) == 0);
    assert(d2.take(0) =~= Seq::<u8>::empty());
    assert(d2.skip(1) =~= rest);
    let m1 = apply_line(m, l);
    assert(apply_lines(m, d) == apply_lines(m1, d2));
    lemma_apply_empty(m1);
    assert(apply_lines(m1, d2) == apply_lines(apply_line(m1, d2.take(0)), d2.skip(1)));
}

/// A `#` comment line changes nothing.
proof fn lemma_comment_line(m: CfgModel, l: Seq<u8>)
    requires
        l.len() > 0,
        l[0] == 35,
        !is_blank(l.last()),
    ensures
        apply_line(m, l) == m,
{
    lemma_trim_keeps(l);
}

/// A `KEY=value` line applies its setting.
proof fn lemma_setting_line(m: CfgModel, key: Seq<u8>, val: Seq<u8>)
    requires
        key.len() > 0,
        key[0] != 35,
        !is_blank(key[0]),
        !is_blank(key.last()),
        forall|i: int| 0 <= i < key.len() ==> #[trigger] key[i] != 61,
        blank_free_ends(val),
    ensures
        apply_line(m, key.push(61) + val) == apply_setting(m, key, val),
{
    let l = key.push(61) + val;
    let n = key.len() as int;
    assert(l[0] == key[0]);
    if val.len() > 0 {
        assert(l.last() == val.last());
    }
    lemma_trim_keeps(l);
    assert(l[n] == 61u8);
    assert forall|i: int| 0 <= i < n implies #[trigger] l[i] != 61u8 by {
        assert(l[i] == key[i]);
    }
    lemma_find_byte(l, 61, 0, n);
    assert(l.take(n) =~= key);
    assert(l.skip(n + 1) =~= val);
    lemma_trim_keeps(key);
    lemma_trim_keeps(val);
}

/// ASCII case folding makes every string equal to itself.
proof fn lemma_eq_ignore_case_refl(s: Seq<u8>)
    ensures
        eq_ignore_case(s, s),
{
}

/// Facts about the keywords used by the line lemma.
proof fn lemma_keywords()
    ensures
        forall|i: int| 0 <= i < kw_kernel().len() ==> #[trigger] kw_kernel()[i] != 61,
        forall|i: int|
            0 <= i < kw_auto_boot_seconds().len() ==> #[trigger] kw_auto_boot_seconds()[i] != 61,
        forall|i: int| 0 <= i < kw_default_entry().len() ==> #[trigger] kw_default_entry()[i] != 61,
        forall|i: int| 0 <= i < kw_remember_last().len() ==> #[trigger] kw_remember_last()[i] != 61,
        forall|i: int| 0 <= i < kw_chainload().len() ==> #[trigger] kw_chainload()[i] != 61,
        forall|i: int|
            0 <= i < kw_chainload_path().len() ==> #[trigger] kw_chainload_path()[i] != 61,
        !eq_ignore_case(kw_remember_last(), kw_default_entry()),
{
    assert(kw_remember_last()[0] == 82u8 && kw_default_entry()[0] == 68u8);
}

/// A decimal spelling is a storable value that parses back to its number.
proof fn lemma_digits_value(n: u64)
    ensures
        storable_value(dec_digits(n as nat)),
        parse_u64_spec(dec_digits(n as nat)) == Some(n),
{
    let d = dec_digits(n as nat);
    lemma_u64_digits(n);
    lemma_dec_digits_value(n as nat);
    lemma_saturating_decimal_exact(d);
    assert(is_digit(d[0]) && is_digit(d[d.len() - 1]));
    assert forall|i: int| 0 <= i < d.len() implies !is_line_break(#[trigger] d[i]) by {
        assert(is_digit(d[i]));
    }
}

/// Reading back a written number gives the number: the decimal spelling of any `u64`
/// parses to that `u64`.
pub proof fn lemma_decimal_round_trip(n: u64)
    ensures
        parse_u64_spec(dec_digits(n as nat)) == Some(n),
{
    lemma_digits_value(n);
}

/// A written flag is a storable value that parses back to the flag.
proof fn lemma_flag_value(b: bool)
    ensures
        storable_value(flag_text(b)),
        parse_bool_spec(flag_text(b)) == Some(b),
{
    lemma_eq_ignore_case_refl(flag_text(b));
    if !b {
        assert(lit_0()[0] == 48u8 && lit_1()[0] == 49u8);
        assert(!eq_ignore_case(lit_0(), lit_1()));
    }
}

/// The kernel name line carries the configured name, or the default name when none is set.
pub open spec fn written_kernel_name(m: CfgModel) -> Seq<u8> {
    if m.kernel_name_len > 0 {
        m.kernel_name_bytes()
    } else {
        default_kernel_name()
    }
}

/// The chain-load path line carries the configured path, or the default path when none is set.
pub open spec fn written_chain_path(m: CfgModel) -> Seq<u8> {
    if m.chainload_path_len > 0 {
        m.chainload_path_bytes()
    } else {
        default_chain()
    }
}

/// Writing a policy and parsing the file back restores it, both for the bare parse and for
/// the loader (which then adds no default, a chain-load path having been written): whatever
/// policy the parse starts from, the kernel name (or the default name written when none is set), the
/// auto-boot seconds, the default entry, both flags and the chain-load path (or the
/// default path) come back as written. Names with a line break or a blank at either
/// end, and countdowns above the loader's bound, are the exceptions.
#[verifier::rlimit(60)]
pub proof fn lemma_cfg_round_trip(m: CfgModel, start: CfgModel)
    requires
        valid_model(m),
        valid_model(start),
        m.auto_boot_seconds <= AUTO_BOOT_MAX_SECONDS,
        storable_value(m.kernel_name_bytes()),
        storable_value(m.chainload_path_bytes()),
    ensures
        with_defaults(apply_lines(start, cfg_text(m))).kernel_name_bytes() == written_kernel_name(
            m,
        ),
        with_defaults(apply_lines(start, cfg_text(m))).auto_boot_seconds == m.auto_boot_seconds,
        with_defaults(apply_lines(start, cfg_text(m))).default_entry == m.default_entry,
        with_defaults(apply_lines(start, cfg_text(m))).remember_last == m.remember_last,
        with_defaults(apply_lines(start, cfg_text(m))).chainload_enabled == m.chainload_enabled,
        with_defaults(apply_lines(start, cfg_text(m))).chainload_path_bytes() == written_chain_path(
            m,
        ),
        apply_lines(start, cfg_text(m)).kernel_name_bytes() == written_kernel_name(m),
        apply_lines(start, cfg_text(m)).auto_boot_seconds == m.auto_boot_seconds,
        apply_lines(start, cfg_text(m)).default_entry == m.default_entry,
        apply_lines(start, cfg_text(m)).remember_last == m.remember_last,
        apply_lines(start, cfg_text(m)).chainload_enabled == m.chainload_enabled,
        apply_lines(start, cfg_text(m)).chainload_path_bytes() == written_chain_path(m),
        with_defaults(apply_lines(start, cfg_text(m))) == apply_lines(start, cfg_text(m)),
{
    let kn = written_kernel_name(m);
    let cp = written_chain_path(m);
    let da = dec_digits(m.auto_boot_seconds as nat);
    let dd = dec_digits(m.default_entry as nat);
    let fr = flag_text(m.remember_last);
    let fc = flag_text(m.chainload_enabled);
    let l1 = kw_kernel().push(61) + kn;
    let l2 = kw_auto_boot_seconds().push(61) + da;
    let l3 = kw_default_entry().push(61) + dd;
    let l4 = kw_remember_last().push(61) + fr;
    let l5 = kw_chainload().push(61) + fc;
    let l6 = kw_chainload_path().push(61) + cp;
    let e = Seq::<u8>::empty();
    let r6 = l6 + crlf() + e;
    let r5 = l5 + crlf() + r6;
    let r4 = l4 + crlf() + r5;
    let r3 = l3 + crlf() + r4;
    let r2 = l2 + crlf() + r3;
    let r1 = l1 + crlf() + r2;
    let r0 = header_format() + crlf() + r1;
    assert(cfg_text(m) =~= header_title() + crlf() + r0);

    // the values
    lemma_digits_value(m.auto_boot_seconds);
    lemma_digits_value(m.default_entry as u64);
    lemma_flag_value(m.remember_last);
    lemma_flag_value(m.chainload_enabled);
    assert(storable_value(kn)) by {
        if m.kernel_name_len == 0 {
            assert(default_kernel_name()[0] == 78u8);
            assert(default_kernel_name().last() == 78u8);
        }
    }
    assert(storable_value(cp)) by {
        if m.chainload_path_len == 0 {
            assert(default_chain()[0] == 69u8);
            assert(default_chain().last() == 105u8);
        }
    }
    assert(kn.len() <= NAME_MAX);
    assert(cp.len() <= CHAIN_PATH_MAX);
    assert(kn.len() > 0 && cp.len() > 0) by {
        if m.kernel_name_len == 0 {
            assert(default_kernel_name().len() == 12);
        }
        if m.chainload_path_len == 0 {
            assert(default_chain().len() == 31);
        }
    }
    assert forall|i: int| 0 <= i < l1.len() implies !is_line_break(#[trigger] l1[i]) by {
        if i >= 7 {
            assert(l1[i] == kn[i - 7]);
        }
    }
    assert forall|i: int| 0 <= i < l2.len() implies !is_line_break(#[trigger] l2[i]) by {
        if i >= 18 {
            assert(l2[i] == da[i - 18]);
        }
    }
    assert forall|i: int| 0 <= i < l3.len() implies !is_line_break(#[trigger] l3[i]) by {
        if i >= 14 {
            assert(l3[i] == dd[i - 14]);
        }
    }
    assert forall|i: int| 0 <= i < l4.len() implies !is_line_break(#[trigger] l4[i]) by {
        if i >= 14 {
            assert(l4[i] == fr[i - 14]);
        }
    }
    assert forall|i: int| 0 <= i < l5.len() implies !is_line_break(#[trigger] l5[i]) by {
        if i >= 10 {
            assert(l5[i] == fc[i - 10]);
        }
    }
    assert forall|i: int| 0 <= i < l6.len() implies !is_line_break(#[trigger] l6[i]) by {
        if i >= 15 {
            assert(l6[i] == cp[i - 15]);
        }
    }
    assert forall|i: int| 0 <= i < header_title().len() implies !is_line_break(
        #[trigger] header_title()[i],
    ) by {}
    assert forall|i: int| 0 <= i < header_format().len() implies !is_line_break(
        #[trigger] header_format()[i],
    ) by {}

    // the lines, one at a time
    lemma_keywords();
    lemma_apply_lines_step(start, header_title(), r0);
    lemma_comment_line(start, header_title());
    lemma_apply_lines_step(start, header_format(), r1);
    lemma_comment_line(start, header_format());
    lemma_apply_lines_step(start, l1, r2);
    lemma_setting_line(start, kw_kernel(), kn);
    let m1 = apply_setting(start, kw_kernel(), kn);
    lemma_eq_ignore_case_refl(kw_kernel());
    lemma_apply_lines_step(m1, l2, r3);
    lemma_setting_line(m1, kw_auto_boot_seconds(), da);
    let m2 = apply_setting(m1, kw_auto_boot_seconds(), da);
    lemma_eq_ignore_case_refl(kw_auto_boot_seconds());
    lemma_apply_lines_step(m2, l3, r4);
    lemma_setting_line(m2, kw_default_entry(), dd);
    let m3 = apply_setting(m2, kw_default_entry(), dd);
    lemma_eq_ignore_case_refl(kw_default_entry());
    lemma_apply_lines_step(m3, l4, r5);
    lemma_setting_line(m3, kw_remember_last(), fr);
    let m4 = apply_setting(m3, kw_remember_last(), fr);
    lemma_eq_ignore_case_refl(kw_remember_last());
    lemma_apply_lines_step(m4, l5, r6);
    lemma_setting_line(m4, kw_chainload(), fc);
    let m5 = apply_setting(m4, kw_chainload(), fc);
    lemma_eq_ignore_case_refl(kw_chainload());
    lemma_apply_lines_step(m5, l6, e);
    lemma_setting_line(m5, kw_chainload_path(), cp);
    let m6 = apply_setting(m5, kw_chainload_path(), cp);
    lemma_eq_ignore_case_refl(kw_chainload_path());
    lemma_apply_empty(m6);
    assert(apply_lines(start, cfg_text(m)) == m6);
    assert(m6.kernel_name_bytes() =~= kn);
    assert(m6.chainload_path_bytes() =~= cp);
    assert(m6.chainload_path_len > 0);
}

/// `v` is one of the words that read as `b`, in any ASCII case.
pub open spec fn bool_word(v: Seq<u8>, b: bool) -> bool {
    if b {
        spelled_as(v, seq![116u8, 114, 117, 101]) || spelled_as(v, seq![121u8, 101, 115])
            || spelled_as(v, seq![111u8, 110]) || spelled_as(v, seq![49u8])
    } else {
        spelled_as(v, seq![102u8, 97, 108, 115, 101]) || spelled_as(v, seq![110u8, 111])
            || spelled_as(v, seq![111u8, 102, 102]) || spelled_as(v, seq![48u8])
    }
}

/// A `REMEMBER_LAST=` or `CHAINLOAD=` line whose value is a boolean word sets that flag to
/// the word's meaning and leaves the rest of the policy alone; so `REMEMBER_LAST=false`
/// and `CHAINLOAD=off` turn their flags off, `REMEMBER_LAST=Yes` turns it on.
pub proof fn lemma_flag_lines(m: CfgModel, v: Seq<u8>, b: bool)
    requires
        bool_word(v, b),
    ensures
        apply_line(m, seq![82u8, 69, 77, 69, 77, 66, 69, 82, 95, 76, 65, 83, 84, 61] + v)
            == (CfgModel { remember_last: b, ..m }),
        apply_line(m, seq![67u8, 72, 65, 73, 78, 76, 79, 65, 68, 61] + v)
            == (CfgModel { chainload_enabled: b, ..m }),
{
    lemma_parse_bool_words(v);
    assert(parse_bool_spec(v) == Some(b));
    assert(v.len() > 0);
    assert(v[0] == v[0]);
    assert(v[v.len() - 1] == v.last());
    assert(blank_free_ends(v));
    lemma_keywords();
    let rk = kw_remember_last();
    let ck = kw_chainload();
    assert(rk.push(61) =~= seq![82u8, 69, 77, 69, 77, 66, 69, 82, 95, 76, 65, 83, 84, 61]);
    assert(ck.push(61) =~= seq![67u8, 72, 65, 73, 78, 76, 79, 65, 68, 61]);
    assert(rk[0] == 82u8 && rk.last() == 84u8 && ck[0] == 67u8 && ck.last() == 68u8);
    lemma_setting_line(m, rk, v);
    lemma_setting_line(m, ck, v);
    lemma_eq_ignore_case_refl(rk);
    lemma_eq_ignore_case_refl(ck);
    assert(!eq_ignore_case(rk, kw_kernel()) && !eq_ignore_case(rk, kw_auto_boot_seconds()));
    assert(!eq_ignore_case(ck, kw_kernel()) && !eq_ignore_case(ck, kw_auto_boot_seconds()));
    assert(!eq_ignore_case(ck, kw_default_entry()) && !eq_ignore_case(ck, kw_remember_last()));
}


} // verus!
