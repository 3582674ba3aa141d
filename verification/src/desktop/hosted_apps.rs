//! Per-application state of the hosted Fluent windows, window-stack persistence and the hit
//! tests of each window's controls.
use vstd::prelude::*;
use crate::desktop::app_host::{AppId, WindowStack, MAX_HOSTED_WINDOWS, app_code, app_of_code};
use crate::desktop::explorer_view::{
    ExplorerLayout, MAX_FILE_ROWS, STATIC_ENTRY_COUNT, frame_spec, depth_offset, surface_ok,
    layout_for_stack_depth, row_hit, row_at_y_spec,
};
use crate::boot::boot_config::dec_digits;
use crate::boot::boot_menu::fmt_u64_to_buf;
use crate::desktop::draw::{ops_view, push_fill, push_text, rgb, DrawCmd, DrawOp, Rgb};
use crate::desktop::taskbar::{HitRect, TaskbarLayout, TASK_SLOT_COUNT, min_u32};

verus! {

/// Width of one listing row buffer.
pub const FILE_ROW_BYTES: usize = 80;

/// One directory listing as produced by the file system.
#[derive(Clone, Debug)]
pub struct FileListing {
    pub rows: Vec<Vec<u8>>,
}

/// Files / This PC listing.
#[derive(Clone, Debug)]
pub struct FilesState {
    pub sel: usize,
    pub row_count: usize,
    pub rows: Vec<Vec<u8>>,
}

impl Default for FilesState {
    fn default() -> (s: Self)
        ensures
            s.sel == 0,
            s.row_count == STATIC_ENTRY_COUNT,
            s.rows@.len() == 0,
    {
        FilesState { sel: 0, row_count: STATIC_ENTRY_COUNT, rows: Vec::new() }
    }
}

impl FilesState {
    /// Take a fresh listing (at most `MAX_FILE_ROWS` rows) and keep the selection on a row.
    pub fn refresh_from_vfs(&mut self, listing: FileListing)
        ensures
            final(self).rows@ == if listing.rows@.len() <= MAX_FILE_ROWS { listing.rows@ } else { listing.rows@.take(MAX_FILE_ROWS as int) },
            final(self).row_count == final(self).rows@.len(),
            final(self).sel == if old(self).sel as int <= (if final(self).row_count >= 1 { final(self).row_count - 1 } else { 0int }) {
                old(self).sel as int
            } else if final(self).row_count >= 1 {
                final(self).row_count - 1
            } else {
                0
            },
    {
        let mut rows = listing.rows;
        if rows.len() > MAX_FILE_ROWS {
            rows.truncate(MAX_FILE_ROWS);
        }
        self.row_count = rows.len();
        self.rows = rows;
        let last = if self.row_count >= 1 { self.row_count - 1 } else { 0 };
        self.sel = if self.sel <= last { self.sel } else { last };
    }
}

/// Task Manager tab and selected row.
#[derive(Clone, Copy, Debug)]
pub struct TaskMgrState {
    pub tab: u8,
    pub sel: usize,
}

impl Default for TaskMgrState {
    fn default() -> (s: Self)
        ensures
            s.tab == 0 && s.sel == 0,
    {
        TaskMgrState { tab: 0, sel: 0 }
    }
}

/// Settings category and stub toggles.
#[derive(Clone, Copy, Debug)]
pub struct SettingsState {
    pub cat: usize,
    pub toggles: [bool; 6],
}

impl Default for SettingsState {
    fn default() -> (s: Self)
        ensures
            s.cat == 0,
            s.toggles@ == seq![false, true, false, true, false, false],
    {
        let s = SettingsState { cat: 0, toggles: [false, true, false, true, false, false] };
        assert(s.toggles@ =~= seq![false, true, false, true, false, false]);
        s
    }
}

/// Control Panel sub-page and selection.
#[derive(Clone, Copy, Debug)]
pub struct ControlPanelState {
    pub open_sub: Option<u8>,
    pub sel: usize,
}

impl Default for ControlPanelState {
    fn default() -> (s: Self)
        ensures
            s.open_sub is None && s.sel == 0,
    {
        ControlPanelState { open_sub: None, sel: 0 }
    }
}

/// Run dialog input line.
#[derive(Clone, Debug)]
pub struct RunState {
    pub buf: [u8; 128],
    pub len: usize,
}

impl Default for RunState {
    fn default() -> (s: Self)
        ensures
            s.len == 0,
            s.buf@ == Seq::new(128, |i: int| 0u8),
    {
        let s = RunState { buf: [0u8; 128], len: 0 };
        assert(s.buf@ =~= Seq::new(128, |i: int| 0u8));
        s
    }
}

/// Notepad text.
#[derive(Clone, Debug)]
pub struct NotepadState {
    pub buf: [u8; 512],
    pub len: usize,
}

impl Default for NotepadState {
    fn default() -> (s: Self)
        ensures
            s.len == 0,
            s.buf@ == Seq::new(512, |i: int| 0u8),
    {
        let s = NotepadState { buf: [0u8; 512], len: 0 };
        assert(s.buf@ =~= Seq::new(512, |i: int| 0u8));
        s
    }
}

/// Calculator registers.
#[derive(Clone, Copy, Debug)]
pub struct CalcState {
    pub acc: i64,
    pub entry: i64,
    pub op: u8,
    pub fresh: bool,
}

impl Default for CalcState {
    fn default() -> (s: Self)
        ensures
            s.acc == 0 && s.entry == 0 && s.op == 0 && !s.fresh,
    {
        CalcState { acc: 0, entry: 0, op: 0, fresh: false }
    }
}

/// About box (no state).
#[derive(Clone, Copy, Debug)]
pub struct AboutState {}

impl Default for AboutState {
    fn default() -> (s: Self) {
        AboutState {}
    }
}

/// Properties sheet target.
#[derive(Clone, Copy, Debug)]
pub struct PropertiesState {
    pub target_line: usize,
}

impl Default for PropertiesState {
    fn default() -> (s: Self)
        ensures
            s.target_line == 0,
    {
        PropertiesState { target_line: 0 }
    }
}

/// All hosted-application state of a desktop session.
#[derive(Clone, Debug)]
pub struct HostUiState {
    pub files: FilesState,
    pub taskmgr: TaskMgrState,
    pub settings: SettingsState,
    pub control: ControlPanelState,
    pub run: RunState,
    pub notepad: NotepadState,
    pub calculator: CalcState,
    pub about: AboutState,
    pub properties: PropertiesState,
}

impl HostUiState {
    /// Every application in its initial state, with the Files window showing `listing`.
    pub fn with_listing(listing: FileListing) -> (s: Self)
        ensures
            s.files.rows@ == if listing.rows@.len() <= MAX_FILE_ROWS { listing.rows@ } else { listing.rows@.take(MAX_FILE_ROWS as int) },
            s.files.row_count == s.files.rows@.len(),
            s.files.sel == 0,
            s.taskmgr.tab == 0 && s.taskmgr.sel == 0,
            s.settings.cat == 0,
            s.run.len == 0,
            s.notepad.len == 0,
            s.properties.target_line == 0,
    {
        let mut files = FilesState::default();
        files.refresh_from_vfs(listing);
        HostUiState {
            files,
            taskmgr: TaskMgrState::default(),
            settings: SettingsState::default(),
            control: ControlPanelState::default(),
            run: RunState::default(),
            notepad: NotepadState::default(),
            calculator: CalcState::default(),
            about: AboutState::default(),
            properties: PropertiesState::default(),
        }
    }
}

/// The stack encoded by `len` and `bytes`: at most eight entries, unknown codes read as Files.
pub open spec fn decoded_stack(len: u8, bytes: Seq<u8>) -> Seq<AppId> {
    let n: nat = if (len as nat) <= 8 { len as nat } else { 8 };
    Seq::new(n, |i: int| match app_of_code(bytes[i] as nat) {
        Some(a) => a,
        None => AppId::Files,
    })
}

/// Rebuild a window stack from its persisted form.
pub fn stack_from_bytes(len: u8, bytes: &[u8; 8]) -> (s: WindowStack)
    ensures
        s.wf(),
        s@ == decoded_stack(len, bytes@),
{
    let mut s = WindowStack::new();
    let n: usize = if (len as usize) <= 8 { len as usize } else { 8 };
    let mut i: usize = 0;
    while i < n
        invariant
            0 <= i <= n,
            n <= 8,
            s.len == 0,
            forall|k: int| 0 <= k < i ==> s.ids[k] == match app_of_code(bytes@[k] as nat) {
                Some(a) => a,
                None => AppId::Files,
            },
        decreases n - i,
    {
        s.ids[i] = match AppId::from_u8(bytes[i]) {
            Some(a) => a,
            None => AppId::Files,
        };
        i = i + 1;
    }
    s.len = n as u8;
    assert(s@ =~= decoded_stack(len, bytes@));
    s
}

/// Persist a window stack: its length and the codes of its entries (zero-padded).
pub fn stack_to_bytes(stack: &WindowStack) -> (r: (u8, [u8; 8]))
    requires
        stack.wf(),
    ensures
        r.0 == stack.len,
        forall|i: int| 0 <= i < stack@.len() ==> #[trigger] r.1[i] as nat == app_code(stack@[i]),
        forall|i: int| stack@.len() <= i < 8 ==> #[trigger] r.1[i] == 0,
{
    let mut b = [0u8; 8];
    let n = stack.len as usize;
    let mut i: usize = 0;
    while i < n
        invariant
            0 <= i <= n,
            n == stack.len,
            n <= 8,
            forall|k: int| 0 <= k < i ==> #[trigger] b[k] as nat == app_code(stack.ids[k]),
            forall|k: int| i <= k < 8 ==> #[trigger] b[k] == 0,
        decreases n - i,
    {
        b[i] = stack.ids[i].to_u8();
        i = i + 1;
    }
    (stack.len, b)
}

/// Persisting a stack and reading it back gives the same windows in the same order.
pub proof fn lemma_stack_bytes_round_trip(s: Seq<AppId>, len: u8, bytes: Seq<u8>)
    requires
        s.len() <= MAX_HOSTED_WINDOWS,
        len as nat == s.len(),
        bytes.len() == 8,
        forall|i: int| 0 <= i < s.len() ==> #[trigger] bytes[i] as nat == app_code(s[i]),
    ensures
        decoded_stack(len, bytes) == s,
{
    assert forall|i: int| 0 <= i < s.len() implies #[trigger] decoded_stack(len, bytes)[i] == s[i] by {
        assert(bytes[i] as nat == app_code(s[i]));
    }
    assert(decoded_stack(len, bytes) =~= s);
}

/// The topmost stacked window (highest index below `n`) whose frame contains `(px, py)`.
pub open spec fn top_hit(px: u32, py: u32, layout: TaskbarLayout, n: nat) -> Option<nat>
    decreases n,
{
    if n == 0 {
        None
    } else if frame_spec(layout, depth_offset((n - 1) as nat), depth_offset((n - 1) as nat)).window.contains_spec(px, py) {
        Some((n - 1) as nat)
    } else {
        top_hit(px, py, layout, (n - 1) as nat)
    }
}

/// Hit-test the topmost window at `(px, py)`: its stack index and application.
pub fn hit_window_at(px: u32, py: u32, layout: &TaskbarLayout, stack: &WindowStack) -> (r: Option<(usize, AppId)>)
    requires
        stack.wf(),
        surface_ok(*layout),
    ensures
        match top_hit(px, py, *layout, stack@.len()) {
            Some(i) => r == Some((i as usize, stack@[i as int])),
            None => r is None,
        },
{
    let n = stack.len as usize;
    let mut j: usize = 0;
    while j < n
        invariant
            0 <= j <= n,
            n == stack@.len(),
            n <= 8,
            stack.wf(),
            surface_ok(*layout),
            top_hit(px, py, *layout, n as nat) == top_hit(px, py, *layout, (n - j) as nat),
        decreases n - j,
    {
        let i = n - 1 - j;
        let el = layout_for_stack_depth(layout, i);
        if el.window.contains(px, py) {
            return Some((i, stack.ids[i]));
        }
        j = j + 1;
    }
    None
}

/// Whether `(px, py)` is on the close box.
pub fn hit_close(el: &ExplorerLayout, px: u32, py: u32) -> (r: bool)
    ensures
        r == el.close_btn.contains_spec(px, py),
{
    el.close_btn.contains(px, py)
}

/// The Files row under `(px, py)` with `row_count` rows listed.
pub open spec fn files_row_at(el: ExplorerLayout, px: u32, py: u32, row_count: nat) -> Option<usize> {
    if px < el.client.x || px >= el.client.x + el.client.w {
        None
    } else {
        row_at_y_spec(el.client, py, row_count)
    }
}

/// The Files row under `(px, py)`.
pub fn hit_files_row(el: &ExplorerLayout, px: u32, py: u32, row_count: usize) -> (r: Option<usize>)
    requires
        el.client.y + el.client.h <= u32::MAX,
        el.client.x + el.client.w <= u32::MAX,
    ensures
        r == files_row_at(*el, px, py, row_count as nat),
{
    row_hit(el.client, px, py, row_count)
}

/// Task Manager tab under `(px, py)`: 0 = Processes, 1 = Performance.
pub open spec fn taskmgr_tab_at(el: ExplorerLayout, px: u32, py: u32) -> Option<u8> {
    if px < el.client.x || py < el.client.y || py >= el.client.y + 28 {
        None
    } else if el.client.x + 6 <= px < el.client.x + 106 {
        Some(0u8)
    } else if el.client.x + 112 <= px < el.client.x + 222 {
        Some(1u8)
    } else {
        None
    }
}

/// Hit-test the Task Manager tab strip.
pub fn hit_taskmgr_tab(el: &ExplorerLayout, px: u32, py: u32) -> (r: Option<u8>)
    requires
        el.client.x + 222 <= u32::MAX,
        el.client.y + 28 <= u32::MAX,
    ensures
        r == taskmgr_tab_at(*el, px, py),
{
    let cl = el.client;
    if px < cl.x || py < cl.y || py >= cl.y + 28 {
        return None;
    }
    if px >= cl.x + 6 && px < cl.x + 106 {
        return Some(0);
    }
    if px >= cl.x + 112 && px < cl.x + 222 {
        return Some(1);
    }
    None
}

/// Process row under `(px, py)` on the Processes tab with `n_threads` threads listed (at most
/// eight rows).
pub open spec fn taskmgr_row_at(el: ExplorerLayout, px: u32, py: u32, n_threads: nat) -> Option<usize> {
    if px < el.client.x + 4 || px >= el.client.x + el.client.w - 4 || py < el.client.y + 52 {
        None
    } else {
        let idx = ((py - (el.client.y + 52)) / 22) as nat;
        if idx < (if n_threads < 8 { n_threads } else { 8 }) { Some(idx as usize) } else { None }
    }
}

/// Process row under `(px, py)` on the Processes tab (at most eight rows).
pub fn hit_taskmgr_row(el: &ExplorerLayout, px: u32, py: u32, n_threads: usize) -> (r: Option<usize>)
    requires
        el.client.x + el.client.w <= u32::MAX,
        el.client.x + 4 <= u32::MAX,
        el.client.y + 52 <= u32::MAX,
        px >= el.client.x + 4 ==> el.client.x + el.client.w >= 4,
    ensures
        r == taskmgr_row_at(*el, px, py, n_threads as nat),
{
    let cl = el.client;
    let body_y = cl.y + 28 + 6;
    if px < cl.x + 4 || px >= cl.x + cl.w - 4 || py < body_y + 18 {
        return None;
    }
    let rel = py - (body_y + 18);
    let row = 22u32;
    let idx = (rel / row) as usize;
    let cap = if n_threads < 8 { n_threads } else { 8 };
    if idx < cap {
        Some(idx)
    } else {
        None
    }
}

/// Width of the Settings category column.
pub open spec fn settings_split(cl: HitRect) -> u32 {
    min_u32(140, cl.w / 3)
}

/// Settings category under `(px, py)` (six categories, 32 px apart).
pub open spec fn settings_cat_at(el: ExplorerLayout, px: u32, py: u32) -> Option<usize> {
    if px < el.client.x + 4 || px >= el.client.x + settings_split(el.client) - 4 || py < el.client.y + 8 {
        None
    } else {
        let i = ((py - (el.client.y + 8)) / 32) as nat;
        if i < 6 { Some(i as usize) } else { None }
    }
}

/// Hit-test the Settings category list.
pub fn hit_settings_cat(el: &ExplorerLayout, px: u32, py: u32) -> (r: Option<usize>)
    requires
        el.client.x + 140 <= u32::MAX,
        el.client.y + 8 <= u32::MAX,
        px >= el.client.x + 4 ==> el.client.x + settings_split(el.client) >= 4,
    ensures
        r == settings_cat_at(*el, px, py),
{
    let cl = el.client;
    let split = if 140 <= cl.w / 3 { 140 } else { cl.w / 3 };
    if px < cl.x + 4 || px >= cl.x + split - 4 || py < cl.y + 8 {
        return None;
    }
    let rel = py - (cl.y + 8);
    let i = (rel / 32) as usize;
    if i < 6 {
        Some(i)
    } else {
        None
    }
}

/// `py` is on toggle row `k` of a client area starting at `cl_y`.
pub open spec fn toggle_row_hit(cl_y: u32, py: u32, k: int) -> bool {
    cl_y + 40 + k * 36 <= py < cl_y + 40 + k * 36 + 30
}

/// The first of the toggle rows `k..4` that `py` is on.
pub open spec fn toggle_from(cl_y: u32, py: u32, k: nat) -> Option<usize>
    decreases 4 - k,
{
    if k >= 4 {
        None
    } else if toggle_row_hit(cl_y, py, k as int) {
        Some(k as usize)
    } else {
        toggle_from(cl_y, py, k + 1)
    }
}

/// The Settings toggle row under `(px, py)`.
pub open spec fn settings_toggle_at(el: ExplorerLayout, px: u32, py: u32) -> Option<usize> {
    let rx = el.client.x + settings_split(el.client) + 8;
    let rw = el.client.w.saturating_sub((settings_split(el.client) + 16) as u32);
    if px < rx || px >= rx + rw {
        None
    } else {
        toggle_from(el.client.y, py, 0)
    }
}

/// Settings toggle row under `(px, py)` (four rows of 30 px, 36 px apart).
pub fn hit_settings_toggle(el: &ExplorerLayout, px: u32, py: u32) -> (r: Option<usize>)
    requires
        el.client.x + settings_split(el.client) + 8 + el.client.w <= u32::MAX,
        el.client.y + 40 + 3 * 36 + 30 <= u32::MAX,
    ensures
        r == settings_toggle_at(*el, px, py),
{
    let cl = el.client;
    let split = if 140 <= cl.w / 3 { 140 } else { cl.w / 3 };
    let rx = cl.x + split + 8;
    let rw = cl.w.saturating_sub(split + 16);
    if px < rx || px >= rx + rw {
        return None;
    }
    let mut i: usize = 0;
    while i < 4
        invariant
            0 <= i <= 4,
            el.client.y + 40 + 3 * 36 + 30 <= u32::MAX,
            cl == el.client,
            rx == el.client.x + settings_split(el.client) + 8,
            rw == el.client.w.saturating_sub((settings_split(el.client) + 16) as u32),
            rx <= px < rx + rw,
            toggle_from(cl.y, py, 0) == toggle_from(cl.y, py, i as nat),
        decreases 4 - i,
    {
        let ry = cl.y + 40 + (i as u32) * 36;
        if py >= ry && py < ry + 30 {
            assert(toggle_row_hit(cl.y, py, i as int));
            return Some(i);
        }
        assert(!toggle_row_hit(cl.y, py, i as int));
        i = i + 1;
    }
    None
}

/// Control Panel tile `i` (2 x 2 grid) in client area `cl`.
pub open spec fn control_tile(cl: HitRect, i: nat) -> HitRect {
    let gw = ((cl.w - 40) / 2) as u32;
    let gh = ((cl.h - 40) / 2) as u32;
    HitRect {
        x: (cl.x + 12 + (i % 2) * (gw + 8)) as u32,
        y: (cl.y + 12 + (i / 2) * (gh + 8)) as u32,
        w: gw,
        h: gh,
    }
}

/// The first of the Control Panel tiles `k..4` that contains `(px, py)`.
pub open spec fn tile_from(cl: HitRect, px: u32, py: u32, k: nat) -> Option<usize>
    decreases 4 - k,
{
    if k >= 4 {
        None
    } else if control_tile(cl, k).contains_spec(px, py) {
        Some(k as usize)
    } else {
        tile_from(cl, px, py, k + 1)
    }
}

/// Control Panel tile under `(px, py)`.
pub fn hit_controlpanel_tile(el: &ExplorerLayout, px: u32, py: u32) -> (r: Option<usize>)
    requires
        el.client.w >= 40,
        el.client.h >= 40,
        el.client.x + el.client.w <= u32::MAX,
        el.client.y + el.client.h <= u32::MAX,
    ensures
        r == tile_from(el.client, px, py, 0),
{
    let cl = el.client;
    let gw = (cl.w - 40) / 2;
    let gh = (cl.h - 40) / 2;
    let mut i: usize = 0;
    while i < 4
        invariant
            0 <= i <= 4,
            cl == el.client,
            cl.w >= 40,
            cl.h >= 40,
            cl.x + cl.w <= u32::MAX,
            cl.y + cl.h <= u32::MAX,
            gw == (cl.w - 40) / 2,
            gh == (cl.h - 40) / 2,
            tile_from(cl, px, py, 0) == tile_from(cl, px, py, i as nat),
        decreases 4 - i,
    {
        let col = (i % 2) as u32;
        let row = (i / 2) as u32;
        assert(col * (gw + 8) <= gw + 8 && row * (gh + 8) <= gh + 8) by (nonlinear_arith)
            requires
                col <= 1,
                row <= 1,
        ;
        let r = HitRect { x: cl.x + 12 + col * (gw + 8), y: cl.y + 12 + row * (gh + 8), w: gw, h: gh };
        assert(r == control_tile(cl, i as nat));
        if r.contains(px, py) {
            return Some(i);
        }
        i = i + 1;
    }
    None
}

/// The OK and Cancel buttons of the Run dialog.
pub open spec fn run_buttons(cl: HitRect) -> (HitRect, HitRect) {
    let y = (cl.y + cl.h.saturating_sub(40)) as u32;
    let ok_x = (cl.x + cl.w.saturating_sub(168)) as u32;
    (HitRect { x: ok_x, y, w: 72, h: 28 }, HitRect { x: (ok_x + 80) as u32, y, w: 72, h: 28 })
}

/// Run dialog button under `(px, py)`: `true` = OK, `false` = Cancel.
pub open spec fn run_button_at(el: ExplorerLayout, px: u32, py: u32) -> Option<bool> {
    if run_buttons(el.client).0.contains_spec(px, py) {
        Some(true)
    } else if run_buttons(el.client).1.contains_spec(px, py) {
        Some(false)
    } else {
        None
    }
}

/// Hit-test the Run dialog's OK and Cancel buttons.
pub fn hit_run_ok_cancel(el: &ExplorerLayout, px: u32, py: u32) -> (r: Option<bool>)
    requires
        el.client.x + el.client.w + 80 <= u32::MAX,
        el.client.y + el.client.h <= u32::MAX,
    ensures
        r == run_button_at(*el, px, py),
{
    let cl = el.client;
    let y = cl.y + cl.h.saturating_sub(40);
    let ok_x = cl.x + cl.w.saturating_sub(168);
    let ok = HitRect { x: ok_x, y, w: 72, h: 28 };
    let cancel = HitRect { x: ok_x + 80, y, w: 72, h: 28 };
    if ok.contains(px, py) {
        return Some(true);
    }
    if cancel.contains(px, py) {
        return Some(false);
    }
    None
}

/// Application on taskbar button `visual_slot` (front-most windows from the left).
pub fn task_slot_app(stack: &WindowStack, visual_slot: usize) -> (r: Option<AppId>)
    requires
        stack.wf(),
    ensures
        r == if visual_slot < TASK_SLOT_COUNT && visual_slot < stack@.len() {
            Some(stack@[stack@.len() - 1 - visual_slot])
        } else {
            None::<AppId>
        },
{
    let n = stack.len as usize;
    if n == 0 || visual_slot >= TASK_SLOT_COUNT {
        return None;
    }
    if visual_slot >= n {
        return None;
    }
    let idx = n - 1 - visual_slot;
    Some(stack.ids[idx])
}

// ---------------------------------------------------------------- Task Manager painting

/// `Processes`.
pub open spec fn txt_processes() -> Seq<u8> {
    seq![80u8, 114, 111, 99, 101, 115, 115, 101, 115]
}

/// `Performance`.
pub open spec fn txt_performance() -> Seq<u8> {
    seq![80u8, 101, 114, 102, 111, 114, 109, 97, 110, 99, 101]
}

/// `Name          PID   State`.
pub open spec fn txt_thread_header() -> Seq<u8> {
    seq![78u8, 97, 109, 101, 32, 32, 32, 32, 32, 32, 32, 32, 32, 32, 80, 73, 68, 32, 32, 32, 83, 116, 97, 116, 101]
}

/// `(no RR threads - run non-UEFI timer path)`.
pub open spec fn txt_no_threads() -> Seq<u8> {
    seq![
        40u8, 110, 111, 32, 82, 82, 32, 116, 104, 114, 101, 97, 100, 115, 32, 45, 32, 114, 117, 110, 32, 110, 111,
        110, 45, 85, 69, 70, 73, 32, 116, 105, 109, 101, 114, 32, 112, 97, 116, 104, 41
    ]
}

/// `Thread `.
pub open spec fn txt_thread() -> Seq<u8> {
    seq![84u8, 104, 114, 101, 97, 100, 32]
}

/// `  Ready`.
pub open spec fn txt_ready() -> Seq<u8> {
    seq![32u8, 32, 82, 101, 97, 100, 121]
}

/// `Timer ticks: `.
pub open spec fn txt_timer_ticks() -> Seq<u8> {
    seq![84u8, 105, 109, 101, 114, 32, 116, 105, 99, 107, 115, 58, 32]
}

/// The last (at most) `k` decimal digits of a positive `v`, most significant first; nothing
/// for 0.
pub open spec fn low_digits(v: nat, k: nat) -> Seq<u8>
    decreases k,
{
    if v == 0 || k == 0 {
        Seq::empty()
    } else {
        low_digits(v / 10, (k - 1) as nat).push((48 + v % 10) as u8)
    }
}

/// A counter as the Task Manager prints it: `0`, or its last (at most) 12 decimal digits.
pub open spec fn counter_text(v: nat) -> Seq<u8> {
    if v == 0 {
        seq![48u8]
    } else {
        low_digits(v, 12)
    }
}

/// The row text of a ready thread.
pub open spec fn thread_line(tid: u64) -> Seq<u8> {
    txt_thread() + counter_text(tid as nat) + txt_ready()
}

/// Thread row `i` of the Processes tab in client area `cl` (`sel` is the clamped selection).
pub open spec fn thread_row_cmds(cl: HitRect, tids: Seq<u64>, sel: nat, i: nat) -> Seq<DrawCmd> {
    let ry = (cl.y + 52 + i * 22) as u32;
    seq![
        DrawCmd::Fill {
            x: (cl.x + 4) as u32,
            y: ry,
            w: (cl.w - 8) as u32,
            h: 20,
            color: if i == sel { rgb(0x00, 0x58, 0xa0) } else { rgb(0x32, 0x32, 0x3c) },
        },
        DrawCmd::Text { x: (cl.x + 10) as u32, y: (ry + 6) as u32, max_w: (cl.w - 20) as u32, text: thread_line(tids[i as int]), color: rgb(0xee, 0xee, 0xf4), scale: 1 },
    ]
}

/// Thread rows `0..n`.
pub open spec fn thread_rows_upto(cl: HitRect, tids: Seq<u64>, sel: nat, n: nat) -> Seq<DrawCmd>
    decreases n,
{
    if n == 0 {
        Seq::empty()
    } else {
        thread_rows_upto(cl, tids, sel, (n - 1) as nat) + thread_row_cmds(cl, tids, sel, (n - 1) as nat)
    }
}

/// The Task Manager client area: background, tab strip with the selected tab lit, then either
/// the ready threads (one row each, the selection clamped to the last row, or a hint when there
/// are none) or the timer tick count with a bar.
pub open spec fn taskmgr_client_plan(el: ExplorerLayout, ui: HostUiState, tids: Seq<u64>, ticks: u64) -> Seq<DrawCmd> {
    let cl = el.client;
    let t0 = ui.taskmgr.tab == 0;
    let body_y = cl.y + 34;
    let n = tids.len();
    let sel: nat = if ui.taskmgr.sel as nat <= (if n >= 1 { (n - 1) as nat } else { 0 }) {
        ui.taskmgr.sel as nat
    } else if n >= 1 {
        (n - 1) as nat
    } else {
        0
    };
    let lit = rgb(0x00, 0x78, 0xd7);
    let dim = rgb(0x40, 0x40, 0x48);
    let white = rgb(0xff, 0xff, 0xff);
    seq![
        DrawCmd::Fill { x: cl.x, y: cl.y, w: cl.w, h: cl.h, color: rgb(0x24, 0x24, 0x2e) },
        DrawCmd::Fill { x: cl.x, y: cl.y, w: cl.w, h: 28, color: rgb(0x1e, 0x1e, 0x28) },
        DrawCmd::Fill { x: (cl.x + 6) as u32, y: (cl.y + 4) as u32, w: 100, h: 20, color: if t0 { lit } else { dim } },
        DrawCmd::Text { x: (cl.x + 12) as u32, y: (cl.y + 8) as u32, max_w: 90, text: txt_processes(), color: white, scale: 1 },
        DrawCmd::Fill { x: (cl.x + 112) as u32, y: (cl.y + 4) as u32, w: 110, h: 20, color: if !t0 { lit } else { dim } },
        DrawCmd::Text { x: (cl.x + 118) as u32, y: (cl.y + 8) as u32, max_w: 100, text: txt_performance(), color: white, scale: 1 },
    ] + if t0 {
        seq![DrawCmd::Text { x: (cl.x + 8) as u32, y: body_y as u32, max_w: (cl.w - 16) as u32, text: txt_thread_header(), color: rgb(0xc8, 0xc8, 0xd0), scale: 1 }]
            + thread_rows_upto(cl, tids, sel, n)
            + if n == 0 {
            seq![DrawCmd::Text { x: (cl.x + 8) as u32, y: (body_y + 24) as u32, max_w: (cl.w - 16) as u32, text: txt_no_threads(), color: rgb(0x88, 0x88, 0x90), scale: 1 }]
        } else {
            Seq::empty()
        }
    } else {
        seq![
            DrawCmd::Text { x: (cl.x + 12) as u32, y: (body_y + 12) as u32, max_w: (cl.w - 24) as u32, text: txt_timer_ticks() + counter_text(ticks as nat), color: rgb(0xdd, 0xdd, 0xe6), scale: 1 },
            DrawCmd::Fill { x: (cl.x + 12) as u32, y: (body_y + 40) as u32, w: min_u32((cl.w - 24) as u32, 200), h: 8, color: lit },
        ]
    }
}

/// The painting of the Task Manager fits: the client is wide enough for its insets and its
/// rows fit in 32-bit coordinates.
pub open spec fn taskmgr_fits(cl: HitRect) -> bool {
    &&& cl.w >= 24
    &&& cl.x + cl.w + 222 <= u32::MAX
    &&& cl.y + 256 <= u32::MAX
}

fn append_bytes(v: &mut Vec<u8>, a: &[u8])
    ensures
        final(v)@ == old(v)@ + a@,
{
    let mut i: usize = 0;
    while i < a.len()
        invariant
            i <= a.len(),
            v@ == old(v)@ + a@.take(i as int),
        decreases a.len() - i,
    {
        v.push(a[i]);
        i = i + 1;
        assert(v@ =~= old(v)@ + a@.take(i as int));
    }
    assert(a@.take(a.len() as int) =~= a@);
}

fn append_low_digits(v: &mut Vec<u8>, x: u64, k: u32)
    ensures
        final(v)@ == old(v)@ + low_digits(x as nat, k as nat),
    decreases k,
{
    if x == 0 || k == 0 {
        assert(old(v)@ + Seq::<u8>::empty() =~= old(v)@);
        return;
    }
    append_low_digits(v, x / 10, k - 1);
    let d = (x % 10) as u8;
    v.push(48 + d);
    assert(v@ =~= old(v)@ + low_digits(x as nat, k as nat));
}

fn append_counter(v: &mut Vec<u8>, x: u64)
    ensures
        final(v)@ == old(v)@ + counter_text(x as nat),
{
    if x == 0 {
        v.push(48);
        assert(v@ =~= old(v)@ + counter_text(0));
    } else {
        append_low_digits(v, x, 12);
    }
}

fn push_thread_row(ops: &mut Vec<DrawOp>, cl: HitRect, tids: &[u64], sel: usize, i: usize)
    requires
        taskmgr_fits(cl),
        i < tids.len(),
        tids.len() <= 8,
    ensures
        ops_view(final(ops)@) == ops_view(old(ops)@) + thread_row_cmds(cl, tids@, sel as nat, i as nat),
{
    let ghost before = ops_view(ops@);
    let ry = cl.y + 52 + (i as u32) * 22;
    let c = if i == sel { Rgb { r: 0x00, g: 0x58, b: 0xa0 } } else { Rgb { r: 0x32, g: 0x32, b: 0x3c } };
    push_fill(ops, cl.x + 4, ry, cl.w - 8, 20, c);
    let head: [u8; 7] = [84u8, 104, 114, 101, 97, 100, 32];
    let tail: [u8; 7] = [32u8, 32, 82, 101, 97, 100, 121];
    assert(head@ == txt_thread() && tail@ == txt_ready());
    let mut line: Vec<u8> = Vec::new();
    append_bytes(&mut line, &head);
    append_counter(&mut line, tids[i]);
    append_bytes(&mut line, &tail);
    assert(line@ =~= thread_line(tids@[i as int]));
    push_text(ops, cl.x + 10, ry + 6, cl.w - 20, line.as_slice(), Rgb { r: 0xee, g: 0xee, b: 0xf4 }, 1);
    assert(ops_view(ops@) =~= before + thread_row_cmds(cl, tids@, sel as nat, i as nat));
}

fn push_processes_tab(ops: &mut Vec<DrawOp>, cl: HitRect, tids: &[u64], sel: usize)
    requires
        taskmgr_fits(cl),
        tids.len() <= 8,
    ensures
        ops_view(final(ops)@) == ops_view(old(ops)@) + seq![DrawCmd::Text {
            x: (cl.x + 8) as u32,
            y: (cl.y + 34) as u32,
            max_w: (cl.w - 16) as u32,
            text: txt_thread_header(),
            color: rgb(0xc8, 0xc8, 0xd0),
            scale: 1,
        }] + thread_rows_upto(cl, tids@, sel as nat, tids.len() as nat) + if tids.len() == 0 {
            seq![DrawCmd::Text {
                x: (cl.x + 8) as u32,
                y: (cl.y + 34 + 24) as u32,
                max_w: (cl.w - 16) as u32,
                text: txt_no_threads(),
                color: rgb(0x88, 0x88, 0x90),
                scale: 1,
            }]
        } else {
            Seq::<DrawCmd>::empty()
        },
{
    let ghost before = ops_view(ops@);
    let hdr: [u8; 25] = [78u8, 97, 109, 101, 32, 32, 32, 32, 32, 32, 32, 32, 32, 32, 80, 73, 68, 32, 32, 32, 83, 116, 97, 116, 101];
    assert(hdr@ == txt_thread_header());
    push_text(ops, cl.x + 8, cl.y + 34, cl.w - 16, &hdr, Rgb { r: 0xc8, g: 0xc8, b: 0xd0 }, 1);
    let ghost head = ops_view(ops@);
    let mut i: usize = 0;
    assert(head + thread_rows_upto(cl, tids@, sel as nat, 0) =~= head);
    while i < tids.len()
        invariant
            i <= tids.len(),
            tids.len() <= 8,
            taskmgr_fits(cl),
            ops_view(ops@) == head + thread_rows_upto(cl, tids@, sel as nat, i as nat),
        decreases tids.len() - i,
    {
        push_thread_row(ops, cl, tids, sel, i);
        assert(ops_view(ops@) =~= head + thread_rows_upto(cl, tids@, sel as nat, (i + 1) as nat));
        i = i + 1;
    }
    let ghost mid = ops_view(ops@);
    if tids.len() == 0 {
        let none: [u8; 41] = [
            40u8, 110, 111, 32, 82, 82, 32, 116, 104, 114, 101, 97, 100, 115, 32, 45, 32, 114, 117, 110, 32, 110, 111,
            110, 45, 85, 69, 70, 73, 32, 116, 105, 109, 101, 114, 32, 112, 97, 116, 104, 41,
        ];
        assert(none@ == txt_no_threads());
        push_text(ops, cl.x + 8, cl.y + 34 + 24, cl.w - 16, &none, Rgb { r: 0x88, g: 0x88, b: 0x90 }, 1);
    }
    assert(ops_view(ops@) =~= before + seq![DrawCmd::Text {
        x: (cl.x + 8) as u32,
        y: (cl.y + 34) as u32,
        max_w: (cl.w - 16) as u32,
        text: txt_thread_header(),
        color: rgb(0xc8, 0xc8, 0xd0),
        scale: 1,
    }] + thread_rows_upto(cl, tids@, sel as nat, tids.len() as nat) + if tids.len() == 0 {
        seq![DrawCmd::Text {
            x: (cl.x + 8) as u32,
            y: (cl.y + 34 + 24) as u32,
            max_w: (cl.w - 16) as u32,
            text: txt_no_threads(),
            color: rgb(0x88, 0x88, 0x90),
            scale: 1,
        }]
    } else {
        Seq::<DrawCmd>::empty()
    });
}

/// Plan the painting of the Task Manager client area of window frame `el`: `ready_tids` are
/// the ready threads of the scheduler's snapshot (at most eight), `timer_ticks` the timer
/// count shown on the Performance tab.
pub fn paint_taskmgr_client(el: &ExplorerLayout, ui: &HostUiState, ready_tids: &[u64], timer_ticks: u64) -> (ops: Vec<DrawOp>)
    requires
        taskmgr_fits(el.client),
        ready_tids.len() <= 8,
    ensures
        ops_view(ops@) == taskmgr_client_plan(*el, *ui, ready_tids@, timer_ticks),
{
    let cl = el.client;
    let mut ops: Vec<DrawOp> = Vec::new();
    let lit = Rgb { r: 0x00, g: 0x78, b: 0xd7 };
    let dim = Rgb { r: 0x40, g: 0x40, b: 0x48 };
    let white = Rgb { r: 0xff, g: 0xff, b: 0xff };
    push_fill(&mut ops, cl.x, cl.y, cl.w, cl.h, Rgb { r: 0x24, g: 0x24, b: 0x2e });
    push_fill(&mut ops, cl.x, cl.y, cl.w, 28, Rgb { r: 0x1e, g: 0x1e, b: 0x28 });
    let t0 = ui.taskmgr.tab == 0;
    push_fill(&mut ops, cl.x + 6, cl.y + 4, 100, 20, if t0 { lit } else { dim });
    let processes: [u8; 9] = [80u8, 114, 111, 99, 101, 115, 115, 101, 115];
    let performance: [u8; 11] = [80u8, 101, 114, 102, 111, 114, 109, 97, 110, 99, 101];
    assert(processes@ == txt_processes() && performance@ == txt_performance());
    push_text(&mut ops, cl.x + 12, cl.y + 8, 90, &processes, white, 1);
    push_fill(&mut ops, cl.x + 112, cl.y + 4, 110, 20, if !t0 { lit } else { dim });
    push_text(&mut ops, cl.x + 118, cl.y + 8, 100, &performance, white, 1);
    let ghost head = ops_view(ops@);
    if t0 {
        let n = ready_tids.len();
        let last = if n >= 1 { n - 1 } else { 0 };
        let sel = if ui.taskmgr.sel <= last { ui.taskmgr.sel } else { last };
        push_processes_tab(&mut ops, cl, ready_tids, sel);
    } else {
        let prefix: [u8; 13] = [84u8, 105, 109, 101, 114, 32, 116, 105, 99, 107, 115, 58, 32];
        assert(prefix@ == txt_timer_ticks());
        let mut line: Vec<u8> = Vec::new();
        append_bytes(&mut line, &prefix);
        append_counter(&mut line, timer_ticks);
        push_text(&mut ops, cl.x + 12, cl.y + 34 + 12, cl.w - 24, line.as_slice(), Rgb { r: 0xdd, g: 0xdd, b: 0xe6 }, 1);
        let bar_w = if cl.w - 24 <= 200 { cl.w - 24 } else { 200 };
        push_fill(&mut ops, cl.x + 12, cl.y + 34 + 40, bar_w, 8, lit);
    }
    assert(ops_view(ops@) =~= taskmgr_client_plan(*el, *ui, ready_tids@, timer_ticks));
    ops
}

// ---------------------------------------------------------------- Run and Calculator painting

/// `Open:`.
pub open spec fn txt_open() -> Seq<u8> {
    seq![79u8, 112, 101, 110, 58]
}

/// `OK`.
pub open spec fn txt_ok() -> Seq<u8> {
    seq![79u8, 75]
}

/// `Cancel`.
pub open spec fn txt_cancel() -> Seq<u8> {
    seq![67u8, 97, 110, 99, 101, 108]
}

/// `Keys: 0-9 + - * / = Enter  C clear  Esc close`.
pub open spec fn txt_calc_keys() -> Seq<u8> {
    seq![
        75u8, 101, 121, 115, 58, 32, 48, 45, 57, 32, 43, 32, 45, 32, 42, 32, 47, 32, 61, 32, 69, 110, 116, 101, 114,
        32, 32, 67, 32, 99, 108, 101, 97, 114, 32, 32, 69, 115, 99, 32, 99, 108, 111, 115, 101
    ]
}

/// The Run dialog: background, `Open:` label, the input box with the typed command (when
/// there is one), and the OK and Cancel buttons with their labels.
pub open spec fn run_client_plan(el: ExplorerLayout, ui: HostUiState) -> Seq<DrawCmd> {
    let cl = el.client;
    let (ok, cancel) = run_buttons(cl);
    let n: int = if ui.run.len <= 128 { ui.run.len as int } else { 128 };
    seq![
        DrawCmd::Fill { x: cl.x, y: cl.y, w: cl.w, h: cl.h, color: rgb(0x28, 0x28, 0x32) },
        DrawCmd::Text { x: (cl.x + 12) as u32, y: (cl.y + 16) as u32, max_w: (cl.w - 24) as u32, text: txt_open(), color: rgb(0xcc, 0xcc, 0xd4), scale: 1 },
        DrawCmd::Fill { x: (cl.x + 12) as u32, y: (cl.y + 40) as u32, w: (cl.w - 24) as u32, h: 28, color: rgb(0x10, 0x10, 0x18) },
    ] + (if ui.run.len > 0 {
        seq![DrawCmd::Text { x: (cl.x + 16) as u32, y: (cl.y + 48) as u32, max_w: (cl.w - 32) as u32, text: ui.run.buf@.take(n), color: rgb(0xee, 0xee, 0xf6), scale: 1 }]
    } else {
        Seq::empty()
    }) + seq![
        DrawCmd::Fill { x: ok.x, y: ok.y, w: ok.w, h: ok.h, color: rgb(0x00, 0x78, 0xd7) },
        DrawCmd::Text { x: (ok.x + 24) as u32, y: (ok.y + 8) as u32, max_w: ok.w, text: txt_ok(), color: rgb(0xff, 0xff, 0xff), scale: 1 },
        DrawCmd::Fill { x: cancel.x, y: cancel.y, w: cancel.w, h: cancel.h, color: rgb(0x44, 0x44, 0x50) },
        DrawCmd::Text { x: (cancel.x + 12) as u32, y: (cancel.y + 8) as u32, max_w: cancel.w, text: txt_cancel(), color: rgb(0xee, 0xee, 0xf4), scale: 1 },
    ]
}

/// The Run dialog's painting fits: its insets fit in the client and its buttons in 32-bit
/// coordinates.
pub open spec fn run_client_fits(cl: HitRect, typed: bool) -> bool {
    &&& cl.w >= (if typed { 32u32 } else { 24u32 })
    &&& cl.x + cl.w + 128 <= u32::MAX
    &&& cl.y + cl.h + 64 <= u32::MAX
}

/// Plan the painting of the Run dialog's client area.
pub fn paint_run_client(el: &ExplorerLayout, ui: &HostUiState) -> (ops: Vec<DrawOp>)
    requires
        run_client_fits(el.client, ui.run.len > 0),
    ensures
        ops_view(ops@) == run_client_plan(*el, *ui),
{
    let cl = el.client;
    let mut ops: Vec<DrawOp> = Vec::new();
    push_fill(&mut ops, cl.x, cl.y, cl.w, cl.h, Rgb { r: 0x28, g: 0x28, b: 0x32 });
    let open: [u8; 5] = [79u8, 112, 101, 110, 58];
    let ok_t: [u8; 2] = [79u8, 75];
    let cancel_t: [u8; 6] = [67u8, 97, 110, 99, 101, 108];
    assert(open@ == txt_open() && ok_t@ == txt_ok() && cancel_t@ == txt_cancel());
    push_text(&mut ops, cl.x + 12, cl.y + 16, cl.w - 24, &open, Rgb { r: 0xcc, g: 0xcc, b: 0xd4 }, 1);
    let iy = cl.y + 40;
    push_fill(&mut ops, cl.x + 12, iy, cl.w - 24, 28, Rgb { r: 0x10, g: 0x10, b: 0x18 });
    if ui.run.len > 0 {
        let n = if ui.run.len <= 128 { ui.run.len } else { 128 };
        let typed = &ui.run.buf[0..n];
        assert(typed@ =~= ui.run.buf@.take(n as int));
        push_text(&mut ops, cl.x + 16, iy + 8, cl.w - 32, typed, Rgb { r: 0xee, g: 0xee, b: 0xf6 }, 1);
    }
    let y = cl.y + cl.h.saturating_sub(40);
    let ok_x = cl.x + cl.w.saturating_sub(168);
    let ok = HitRect { x: ok_x, y, w: 72, h: 28 };
    let cancel = HitRect { x: ok_x + 80, y, w: 72, h: 28 };
    assert((ok, cancel) == run_buttons(cl));
    push_fill(&mut ops, ok.x, ok.y, ok.w, ok.h, Rgb { r: 0x00, g: 0x78, b: 0xd7 });
    push_text(&mut ops, ok.x + 24, ok.y + 8, ok.w, &ok_t, Rgb { r: 0xff, g: 0xff, b: 0xff }, 1);
    push_fill(&mut ops, cancel.x, cancel.y, cancel.w, cancel.h, Rgb { r: 0x44, g: 0x44, b: 0x50 });
    push_text(&mut ops, cancel.x + 12, cancel.y + 8, cancel.w, &cancel_t, Rgb { r: 0xee, g: 0xee, b: 0xf4 }, 1);
    assert(ops_view(ops@) =~= run_client_plan(*el, *ui));
    ops
}

/// The Calculator display: `0`, or the value in decimal with a leading `-` when negative.
pub open spec fn calc_display(e: i64) -> Seq<u8> {
    if e == 0 {
        seq![48u8]
    } else if e < 0 {
        seq![45u8] + dec_digits((-e) as nat)
    } else {
        dec_digits(e as nat)
    }
}

/// The Calculator: background, display box with the current entry, and the key help line.
pub open spec fn calc_client_plan(el: ExplorerLayout, ui: HostUiState) -> Seq<DrawCmd> {
    let cl = el.client;
    seq![
        DrawCmd::Fill { x: cl.x, y: cl.y, w: cl.w, h: cl.h, color: rgb(0x28, 0x28, 0x32) },
        DrawCmd::Fill { x: (cl.x + 12) as u32, y: (cl.y + 12) as u32, w: (cl.w - 24) as u32, h: 36, color: rgb(0x10, 0x10, 0x18) },
        DrawCmd::Text { x: (cl.x + 20) as u32, y: (cl.y + 24) as u32, max_w: (cl.w - 40) as u32, text: calc_display(ui.calculator.entry), color: rgb(0x00, 0xff, 0x90), scale: 1 },
        DrawCmd::Text { x: (cl.x + 12) as u32, y: (cl.y + 56) as u32, max_w: (cl.w - 24) as u32, text: txt_calc_keys(), color: rgb(0x99, 0x99, 0xa2), scale: 1 },
    ]
}

/// Plan the painting of the Calculator's client area (at least 40 pixels wide).
pub fn paint_calc_client(el: &ExplorerLayout, ui: &HostUiState) -> (ops: Vec<DrawOp>)
    requires
        el.client.w >= 40,
        el.client.x + 20 <= u32::MAX,
        el.client.y + 56 <= u32::MAX,
    ensures
        ops_view(ops@) == calc_client_plan(*el, *ui),
{
    let cl = el.client;
    let mut ops: Vec<DrawOp> = Vec::new();
    push_fill(&mut ops, cl.x, cl.y, cl.w, cl.h, Rgb { r: 0x28, g: 0x28, b: 0x32 });
    push_fill(&mut ops, cl.x + 12, cl.y + 12, cl.w - 24, 36, Rgb { r: 0x10, g: 0x10, b: 0x18 });
    let e = ui.calculator.entry;
    let mut disp: Vec<u8> = Vec::new();
    if e == 0 {
        disp.push(48);
    } else {
        let mag: u64 = if e < 0 { (-(e as i128)) as u64 } else { e as u64 };
        if e < 0 {
            disp.push(45);
        }
        let mut tmp = [0u8; 20];
        let digits = fmt_u64_to_buf(mag, &mut tmp);
        let mut i: usize = 0;
        let ghost start = disp@;
        while i < digits.len()
            invariant
                i <= digits.len(),
                disp@ == start + digits@.take(i as int),
            decreases digits.len() - i,
        {
            disp.push(digits[i]);
            i = i + 1;
            assert(disp@ =~= start + digits@.take(i as int));
        }
        assert(digits@.take(digits.len() as int) =~= digits@);
    }
    assert(disp@ =~= calc_display(e));
    push_text(&mut ops, cl.x + 20, cl.y + 24, cl.w - 40, disp.as_slice(), Rgb { r: 0x00, g: 0xff, b: 0x90 }, 1);
    let keys: [u8; 45] = [
        75u8, 101, 121, 115, 58, 32, 48, 45, 57, 32, 43, 32, 45, 32, 42, 32, 47, 32, 61, 32, 69, 110, 116, 101, 114,
        32, 32, 67, 32, 99, 108, 101, 97, 114, 32, 32, 69, 115, 99, 32, 99, 108, 111, 115, 101,
    ];
    assert(keys@ == txt_calc_keys());
    push_text(&mut ops, cl.x + 12, cl.y + 56, cl.w - 24, &keys, Rgb { r: 0x99, g: 0x99, b: 0xa2 }, 1);
    assert(ops_view(ops@) =~= calc_client_plan(*el, *ui));
    ops
}

// ---------------------------------------------------------------- Settings painting

/// Name of settings category `i`.
pub open spec fn settings_cat_label(i: nat) -> Seq<u8> {
    if i == 0 {
        seq![83u8, 121, 115, 116, 101, 109]
    } else if i == 1 {
        seq![68u8, 101, 118, 105, 99, 101, 115]
    } else if i == 2 {
        seq![80u8, 101, 114, 115, 111, 110, 97, 108, 105, 122, 97, 116, 105, 111, 110]
    } else if i == 3 {
        seq![80u8, 114, 105, 118, 97, 99, 121]
    } else if i == 4 {
        seq![85u8, 112, 100, 97, 116, 101]
    } else {
        seq![78u8, 101, 116, 119, 111, 114, 107]
    }
}

/// Name of settings toggle `i`.
pub open spec fn settings_toggle_label(i: nat) -> Seq<u8> {
    if i == 0 {
        seq![78u8, 105, 103, 104, 116, 32, 109, 111, 100, 101]
    } else if i == 1 {
        seq![66u8, 108, 117, 101, 116, 111, 111, 116, 104]
    } else if i == 2 {
        seq![78u8, 111, 116, 105, 102, 105, 99, 97, 116, 105, 111, 110, 115]
    } else {
        seq![76u8, 111, 99, 97, 116, 105, 111, 110]
    }
}

/// `Category options (stub toggles)`.
pub open spec fn txt_category_options() -> Seq<u8> {
    seq![
        67u8, 97, 116, 101, 103, 111, 114, 121, 32, 111, 112, 116, 105, 111, 110, 115, 32, 40, 115, 116, 117, 98, 32,
        116, 111, 103, 103, 108, 101, 115, 41
    ]
}

/// Width of the category column of a client `w` pixels wide.
pub open spec fn settings_split_w(w: u32) -> u32 {
    min_u32(140, w / 3)
}

/// Category row `i` (lit when it is the selected category).
pub open spec fn settings_cat_cmds(cl: HitRect, cat: usize, i: nat) -> Seq<DrawCmd> {
    let split = settings_split_w(cl.w);
    let ry = (cl.y + 8 + i * 32) as u32;
    seq![
        DrawCmd::Fill {
            x: (cl.x + 4) as u32,
            y: ry,
            w: (split - 8) as u32,
            h: 28,
            color: if i == cat { rgb(0x00, 0x78, 0xd7) } else { rgb(0x2e, 0x2e, 0x36) },
        },
        DrawCmd::Text { x: (cl.x + 12) as u32, y: (ry + 10) as u32, max_w: (split - 20) as u32, text: settings_cat_label(i), color: rgb(0xf0, 0xf0, 0xf8), scale: 1 },
    ]
}

/// Category rows `0..n`.
pub open spec fn settings_cats_upto(cl: HitRect, cat: usize, n: nat) -> Seq<DrawCmd>
    decreases n,
{
    if n == 0 {
        Seq::empty()
    } else {
        settings_cats_upto(cl, cat, (n - 1) as nat) + settings_cat_cmds(cl, cat, (n - 1) as nat)
    }
}

/// Toggle row `i` with its switch (lit when on) and label.
pub open spec fn settings_toggle_cmds(cl: HitRect, on: bool, i: nat) -> Seq<DrawCmd> {
    let split = settings_split_w(cl.w);
    let rx = (cl.x + split + 8) as u32;
    let rw = cl.w.saturating_sub((split + 16) as u32);
    let ry = (cl.y + 40 + i * 36) as u32;
    seq![
        DrawCmd::Fill { x: rx, y: ry, w: rw, h: 30, color: rgb(0x32, 0x32, 0x3c) },
        DrawCmd::Fill { x: (rx + rw - 48) as u32, y: (ry + 6) as u32, w: 36, h: 18, color: if on { rgb(0x00, 0x78, 0xd7) } else { rgb(0x55, 0x78, 0xd7) } },
        DrawCmd::Text { x: (rx + 8) as u32, y: (ry + 8) as u32, max_w: (rw - 60) as u32, text: settings_toggle_label(i), color: rgb(0xe8, 0xe8, 0xf0), scale: 1 },
    ]
}

/// Toggle rows `0..n`.
pub open spec fn settings_toggles_upto(cl: HitRect, toggles: Seq<bool>, n: nat) -> Seq<DrawCmd>
    decreases n,
{
    if n == 0 {
        Seq::empty()
    } else {
        settings_toggles_upto(cl, toggles, (n - 1) as nat) + settings_toggle_cmds(cl, toggles[n - 1], (n - 1) as nat)
    }
}

/// The Settings window: background, category column with six categories, the options
/// caption and four toggles.
pub open spec fn settings_client_plan(el: ExplorerLayout, ui: HostUiState) -> Seq<DrawCmd> {
    let cl = el.client;
    let split = settings_split_w(cl.w);
    let rx = (cl.x + split + 8) as u32;
    let rw = cl.w.saturating_sub((split + 16) as u32);
    seq![
        DrawCmd::Fill { x: cl.x, y: cl.y, w: cl.w, h: cl.h, color: rgb(0x26, 0x26, 0x30) },
        DrawCmd::Fill { x: cl.x, y: cl.y, w: split, h: cl.h, color: rgb(0x1c, 0x1c, 0x26) },
    ] + settings_cats_upto(cl, ui.settings.cat, 6) + seq![
        DrawCmd::Text { x: rx, y: (cl.y + 12) as u32, max_w: rw, text: txt_category_options(), color: rgb(0xd0, 0xd0, 0xd8), scale: 1 },
    ] + settings_toggles_upto(cl, ui.settings.toggles@, 4)
}

/// The Settings painting fits: wide enough for both columns' insets, and in 32-bit
/// coordinates.
pub open spec fn settings_client_fits(cl: HitRect) -> bool {
    &&& cl.w >= 60
    &&& cl.w - settings_split_w(cl.w) >= 76
    &&& cl.x + cl.w <= u32::MAX
    &&& cl.y + 256 <= u32::MAX
}

fn push_settings_cat(ops: &mut Vec<DrawOp>, cl: HitRect, cat: usize, i: usize)
    requires
        settings_client_fits(cl),
        i < 6,
    ensures
        ops_view(final(ops)@) == ops_view(old(ops)@) + settings_cat_cmds(cl, cat, i as nat),
{
    let ghost before = ops_view(ops@);
    let split = if 140 <= cl.w / 3 { 140 } else { cl.w / 3 };
    let ry = cl.y + 8 + (i as u32) * 32;
    let c = if i == cat { Rgb { r: 0x00, g: 0x78, b: 0xd7 } } else { Rgb { r: 0x2e, g: 0x2e, b: 0x36 } };
    push_fill(ops, cl.x + 4, ry, split - 8, 28, c);
    let fg = Rgb { r: 0xf0, g: 0xf0, b: 0xf8 };
    let (x, y, w) = (cl.x + 12, ry + 10, split - 20);
    if i == 0 {
        let a: [u8; 6] = [83u8, 121, 115, 116, 101, 109];
        assert(a@ == settings_cat_label(0));
        push_text(ops, x, y, w, &a, fg, 1);
    } else if i == 1 {
        let a: [u8; 7] = [68u8, 101, 118, 105, 99, 101, 115];
        assert(a@ == settings_cat_label(1));
        push_text(ops, x, y, w, &a, fg, 1);
    } else if i == 2 {
        let a: [u8; 15] = [80u8, 101, 114, 115, 111, 110, 97, 108, 105, 122, 97, 116, 105, 111, 110];
        assert(a@ == settings_cat_label(2));
        push_text(ops, x, y, w, &a, fg, 1);
    } else if i == 3 {
        let a: [u8; 7] = [80u8, 114, 105, 118, 97, 99, 121];
        assert(a@ == settings_cat_label(3));
        push_text(ops, x, y, w, &a, fg, 1);
    } else if i == 4 {
        let a: [u8; 6] = [85u8, 112, 100, 97, 116, 101];
        assert(a@ == settings_cat_label(4));
        push_text(ops, x, y, w, &a, fg, 1);
    } else {
        let a: [u8; 7] = [78u8, 101, 116, 119, 111, 114, 107];
        assert(a@ == settings_cat_label(5));
        push_text(ops, x, y, w, &a, fg, 1);
    }
    assert(ops_view(ops@) =~= before + settings_cat_cmds(cl, cat, i as nat));
}

fn push_settings_toggle(ops: &mut Vec<DrawOp>, cl: HitRect, on: bool, i: usize)
    requires
        settings_client_fits(cl),
        i < 4,
    ensures
        ops_view(final(ops)@) == ops_view(old(ops)@) + settings_toggle_cmds(cl, on, i as nat),
{
    let ghost before = ops_view(ops@);
    let split = if 140 <= cl.w / 3 { 140 } else { cl.w / 3 };
    let rx = cl.x + split + 8;
    let rw = cl.w.saturating_sub(split + 16);
    let ry = cl.y + 40 + (i as u32) * 36;
    push_fill(ops, rx, ry, rw, 30, Rgb { r: 0x32, g: 0x32, b: 0x3c });
    push_fill(ops, rx + rw - 48, ry + 6, 36, 18, if on { Rgb { r: 0x00, g: 0x78, b: 0xd7 } } else { Rgb { r: 0x55, g: 0x78, b: 0xd7 } });
    let fg = Rgb { r: 0xe8, g: 0xe8, b: 0xf0 };
    let (x, y, w) = (rx + 8, ry + 8, rw - 60);
    if i == 0 {
        let a: [u8; 10] = [78u8, 105, 103, 104, 116, 32, 109, 111, 100, 101];
        assert(a@ == settings_toggle_label(0));
        push_text(ops, x, y, w, &a, fg, 1);
    } else if i == 1 {
        let a: [u8; 9] = [66u8, 108, 117, 101, 116, 111, 111, 116, 104];
        assert(a@ == settings_toggle_label(1));
        push_text(ops, x, y, w, &a, fg, 1);
    } else if i == 2 {
        let a: [u8; 13] = [78u8, 111, 116, 105, 102, 105, 99, 97, 116, 105, 111, 110, 115];
        assert(a@ == settings_toggle_label(2));
        push_text(ops, x, y, w, &a, fg, 1);
    } else {
        let a: [u8; 8] = [76u8, 111, 99, 97, 116, 105, 111, 110];
        assert(a@ == settings_toggle_label(3));
        push_text(ops, x, y, w, &a, fg, 1);
    }
    assert(ops_view(ops@) =~= before + settings_toggle_cmds(cl, on, i as nat));
}

/// Plan the painting of the Settings window's client area.
pub fn paint_settings_client(el: &ExplorerLayout, ui: &HostUiState) -> (ops: Vec<DrawOp>)
    requires
        settings_client_fits(el.client),
    ensures
        ops_view(ops@) == settings_client_plan(*el, *ui),
{
    let cl = el.client;
    let mut ops: Vec<DrawOp> = Vec::new();
    push_fill(&mut ops, cl.x, cl.y, cl.w, cl.h, Rgb { r: 0x26, g: 0x26, b: 0x30 });
    let split = if 140 <= cl.w / 3 { 140 } else { cl.w / 3 };
    push_fill(&mut ops, cl.x, cl.y, split, cl.h, Rgb { r: 0x1c, g: 0x1c, b: 0x26 });
    let ghost head = ops_view(ops@);
    let mut i: usize = 0;
    assert(head + settings_cats_upto(cl, ui.settings.cat, 0) =~= head);
    while i < 6
        invariant
            i <= 6,
            settings_client_fits(cl),
            ops_view(ops@) == head + settings_cats_upto(cl, ui.settings.cat, i as nat),
        decreases 6 - i,
    {
        push_settings_cat(&mut ops, cl, ui.settings.cat, i);
        assert(ops_view(ops@) =~= head + settings_cats_upto(cl, ui.settings.cat, (i + 1) as nat));
        i = i + 1;
    }
    let caption: [u8; 31] = [
        67u8, 97, 116, 101, 103, 111, 114, 121, 32, 111, 112, 116, 105, 111, 110, 115, 32, 40, 115, 116, 117, 98, 32,
        116, 111, 103, 103, 108, 101, 115, 41,
    ];
    assert(caption@ == txt_category_options());
    push_text(&mut ops, cl.x + split + 8, cl.y + 12, cl.w.saturating_sub(split + 16), &caption, Rgb { r: 0xd0, g: 0xd0, b: 0xd8 }, 1);
    let ghost mid = ops_view(ops@);
    let mut k: usize = 0;
    assert(mid + settings_toggles_upto(cl, ui.settings.toggles@, 0) =~= mid);
    while k < 4
        invariant
            k <= 4,
            settings_client_fits(cl),
            ops_view(ops@) == mid + settings_toggles_upto(cl, ui.settings.toggles@, k as nat),
        decreases 4 - k,
    {
        push_settings_toggle(&mut ops, cl, ui.settings.toggles[k], k);
        assert(ops_view(ops@) =~= mid + settings_toggles_upto(cl, ui.settings.toggles@, (k + 1) as nat));
        k = k + 1;
    }
    assert(ops_view(ops@) =~= settings_client_plan(*el, *ui));
    ops
}

// ---------------------------------------------------------------- Control Panel painting

/// Name of Control Panel tile `i`.
pub open spec fn controlpanel_label(i: nat) -> Seq<u8> {
    if i == 0 {
        seq![68u8, 105, 115, 112, 108, 97, 121]
    } else if i == 1 {
        seq![83u8, 111, 117, 110, 100]
    } else if i == 2 {
        seq![78u8, 101, 116, 119, 111, 114, 107]
    } else {
        seq![80u8, 114, 111, 103, 114, 97, 109, 115]
    }
}

/// The message of the open Control Panel sub-page `sub`.
pub open spec fn controlpanel_sub_message(sub: u8) -> Seq<u8> {
    if sub == 0 {
        seq![68u8, 105, 115, 112, 108, 97, 121, 32, 115, 101, 116, 116, 105, 110, 103, 115, 32, 40, 115, 116, 117, 98, 41]
    } else if sub == 1 {
        seq![83u8, 111, 117, 110, 100, 32, 115, 101, 116, 116, 105, 110, 103, 115, 32, 40, 115, 116, 117, 98, 41]
    } else if sub == 2 {
        seq![78u8, 101, 116, 119, 111, 114, 107, 32, 40, 115, 116, 117, 98, 41]
    } else {
        seq![80u8, 114, 111, 103, 114, 97, 109, 115, 32, 40, 115, 116, 117, 98, 41]
    }
}

/// Tile `i` of the 2 x 2 Control Panel grid (lit when selected), with its centred label.
pub open spec fn controlpanel_tile_cmds(cl: HitRect, sel: usize, i: nat) -> Seq<DrawCmd> {
    let gw = ((cl.w - 40) / 2) as u32;
    let gh = ((cl.h - 40) / 2) as u32;
    let gx = (cl.x + 12 + (if i % 2 == 1 { gw + 8 } else { 0 })) as u32;
    let gy = (cl.y + 12 + (if i / 2 == 1 { gh + 8 } else { 0 })) as u32;
    seq![
        DrawCmd::Fill { x: gx, y: gy, w: gw, h: gh, color: if i == sel { rgb(0x00, 0x78, 0xd7) } else { rgb(0x36, 0x36, 0x40) } },
        DrawCmd::Text { x: (gx + gw / 2 - 40) as u32, y: (gy + gh / 2 - 4) as u32, max_w: (gw - 8) as u32, text: controlpanel_label(i), color: rgb(0xff, 0xff, 0xff), scale: 1 },
    ]
}

/// Tiles `0..n`.
pub open spec fn controlpanel_tiles_upto(cl: HitRect, sel: usize, n: nat) -> Seq<DrawCmd>
    decreases n,
{
    if n == 0 {
        Seq::empty()
    } else {
        controlpanel_tiles_upto(cl, sel, (n - 1) as nat) + controlpanel_tile_cmds(cl, sel, (n - 1) as nat)
    }
}

/// The Control Panel: background, then either the open sub-page's panel and message or
/// the four tiles.
pub open spec fn controlpanel_client_plan(el: ExplorerLayout, ui: HostUiState) -> Seq<DrawCmd> {
    let cl = el.client;
    let bg = DrawCmd::Fill { x: cl.x, y: cl.y, w: cl.w, h: cl.h, color: rgb(0x26, 0x26, 0x30) };
    match ui.control.open_sub {
        Some(sub) => seq![
            bg,
            DrawCmd::Fill { x: (cl.x + 8) as u32, y: (cl.y + 8) as u32, w: (cl.w - 16) as u32, h: (cl.h - 16) as u32, color: rgb(0x1a, 0x1a, 0x24) },
            DrawCmd::Text { x: (cl.x + 20) as u32, y: (cl.y + 24) as u32, max_w: (cl.w - 40) as u32, text: controlpanel_sub_message(sub), color: rgb(0xdd, 0xdd, 0xe6), scale: 1 },
        ],
        None => seq![bg] + controlpanel_tiles_upto(cl, ui.control.sel, 4),
    }
}

/// The Control Panel painting fits: an open sub-page needs a 40 x 40 client, the tile
/// grid a 200 x 56 one (so that each label can be centred), both in 32-bit coordinates.
pub open spec fn controlpanel_client_fits(cl: HitRect, grid: bool) -> bool {
    &&& cl.w >= 40
    &&& cl.h >= 40
    &&& grid ==> cl.w >= 200 && cl.h >= 56
    &&& cl.x + cl.w <= u32::MAX
    &&& cl.y + cl.h <= u32::MAX
}

fn push_controlpanel_tile(ops: &mut Vec<DrawOp>, cl: HitRect, sel: usize, i: usize)
    requires
        controlpanel_client_fits(cl, true),
        i < 4,
    ensures
        ops_view(final(ops)@) == ops_view(old(ops)@) + controlpanel_tile_cmds(cl, sel, i as nat),
{
    let ghost before = ops_view(ops@);
    let gw = (cl.w - 40) / 2;
    let gh = (cl.h - 40) / 2;
    let gx = cl.x + 12 + if i % 2 == 1 { gw + 8 } else { 0 };
    let gy = cl.y + 12 + if i / 2 == 1 { gh + 8 } else { 0 };
    let c = if i == sel { Rgb { r: 0x00, g: 0x78, b: 0xd7 } } else { Rgb { r: 0x36, g: 0x36, b: 0x40 } };
    push_fill(ops, gx, gy, gw, gh, c);
    let fg = Rgb { r: 0xff, g: 0xff, b: 0xff };
    let (x, y, w) = (gx + gw / 2 - 40, gy + gh / 2 - 4, gw - 8);
    if i == 0 {
        let a: [u8; 7] = [68u8, 105, 115, 112, 108, 97, 121];
        assert(a@ == controlpanel_label(0));
        push_text(ops, x, y, w, &a, fg, 1);
    } else if i == 1 {
        let a: [u8; 5] = [83u8, 111, 117, 110, 100];
        assert(a@ == controlpanel_label(1));
        push_text(ops, x, y, w, &a, fg, 1);
    } else if i == 2 {
        let a: [u8; 7] = [78u8, 101, 116, 119, 111, 114, 107];
        assert(a@ == controlpanel_label(2));
        push_text(ops, x, y, w, &a, fg, 1);
    } else {
        let a: [u8; 8] = [80u8, 114, 111, 103, 114, 97, 109, 115];
        assert(a@ == controlpanel_label(3));
        push_text(ops, x, y, w, &a, fg, 1);
    }
    assert(ops_view(ops@) =~= before + controlpanel_tile_cmds(cl, sel, i as nat));
}

/// Plan the painting of the Control Panel's client area.
pub fn paint_controlpanel_client(el: &ExplorerLayout, ui: &HostUiState) -> (ops: Vec<DrawOp>)
    requires
        controlpanel_client_fits(el.client, ui.control.open_sub is None),
    ensures
        ops_view(ops@) == controlpanel_client_plan(*el, *ui),
{
    let cl = el.client;
    let mut ops: Vec<DrawOp> = Vec::new();
    push_fill(&mut ops, cl.x, cl.y, cl.w, cl.h, Rgb { r: 0x26, g: 0x26, b: 0x30 });
    if let Some(sub) = ui.control.open_sub {
        push_fill(&mut ops, cl.x + 8, cl.y + 8, cl.w - 16, cl.h - 16, Rgb { r: 0x1a, g: 0x1a, b: 0x24 });
        let fg = Rgb { r: 0xdd, g: 0xdd, b: 0xe6 };
        let (x, y, w) = (cl.x + 20, cl.y + 24, cl.w - 40);
        if sub == 0 {
            let a: [u8; 23] = [68u8, 105, 115, 112, 108, 97, 121, 32, 115, 101, 116, 116, 105, 110, 103, 115, 32, 40, 115, 116, 117, 98, 41];
            assert(a@ == controlpanel_sub_message(0));
            push_text(&mut ops, x, y, w, &a, fg, 1);
        } else if sub == 1 {
            let a: [u8; 21] = [83u8, 111, 117, 110, 100, 32, 115, 101, 116, 116, 105, 110, 103, 115, 32, 40, 115, 116, 117, 98, 41];
            assert(a@ == controlpanel_sub_message(1));
            push_text(&mut ops, x, y, w, &a, fg, 1);
        } else if sub == 2 {
            let a: [u8; 14] = [78u8, 101, 116, 119, 111, 114, 107, 32, 40, 115, 116, 117, 98, 41];
            assert(a@ == controlpanel_sub_message(2));
            push_text(&mut ops, x, y, w, &a, fg, 1);
        } else {
            let a: [u8; 15] = [80u8, 114, 111, 103, 114, 97, 109, 115, 32, 40, 115, 116, 117, 98, 41];
            assert(a@ == controlpanel_sub_message(sub));
            push_text(&mut ops, x, y, w, &a, fg, 1);
        }
        assert(ops_view(ops@) =~= controlpanel_client_plan(*el, *ui));
        return ops;
    }
    let ghost head = ops_view(ops@);
    let mut i: usize = 0;
    assert(head + controlpanel_tiles_upto(cl, ui.control.sel, 0) =~= head);
    while i < 4
        invariant
            i <= 4,
            controlpanel_client_fits(cl, true),
            ops_view(ops@) == head + controlpanel_tiles_upto(cl, ui.control.sel, i as nat),
        decreases 4 - i,
    {
        push_controlpanel_tile(&mut ops, cl, ui.control.sel, i);
        assert(ops_view(ops@) =~= head + controlpanel_tiles_upto(cl, ui.control.sel, (i + 1) as nat));
        i = i + 1;
    }
    assert(ops_view(ops@) =~= controlpanel_client_plan(*el, *ui));
    ops
}

// ---------------------------------------------------------------- Properties painting

/// `Item properties (stub)`.
pub open spec fn txt_item_properties() -> Seq<u8> {
    seq![73u8, 116, 101, 109, 32, 112, 114, 111, 112, 101, 114, 116, 105, 101, 115, 32, 40, 115, 116, 117, 98, 41]
}

/// `Target row index: `.
pub open spec fn txt_target_row() -> Seq<u8> {
    seq![84u8, 97, 114, 103, 101, 116, 32, 114, 111, 119, 32, 105, 110, 100, 101, 120, 58, 32]
}

/// The target line as the Properties window prints it: the index taken as a 32-bit
/// value, then `0` or its last (at most) eight decimal digits.
pub open spec fn properties_line(target: usize) -> Seq<u8> {
    let v = target as u32;
    txt_target_row() + if v == 0 { seq![48u8] } else { low_digits(v as nat, 8) }
}

/// The Properties window: background, caption and the target line.
pub open spec fn properties_client_plan(el: ExplorerLayout, ui: HostUiState) -> Seq<DrawCmd> {
    let cl = el.client;
    seq![
        DrawCmd::Fill { x: cl.x, y: cl.y, w: cl.w, h: cl.h, color: rgb(0x26, 0x26, 0x30) },
        DrawCmd::Text { x: (cl.x + 12) as u32, y: (cl.y + 16) as u32, max_w: (cl.w - 24) as u32, text: txt_item_properties(), color: rgb(0xd8, 0xd8, 0xe0), scale: 1 },
        DrawCmd::Text { x: (cl.x + 12) as u32, y: (cl.y + 40) as u32, max_w: (cl.w - 24) as u32, text: properties_line(ui.properties.target_line), color: rgb(0xaa, 0xaa, 0xb4), scale: 1 },
    ]
}

/// Plan the painting of the Properties window's client area (at least 24 pixels wide).
pub fn paint_properties_client(el: &ExplorerLayout, ui: &HostUiState) -> (ops: Vec<DrawOp>)
    requires
        el.client.w >= 24,
        el.client.x + 12 <= u32::MAX,
        el.client.y + 40 <= u32::MAX,
    ensures
        ops_view(ops@) == properties_client_plan(*el, *ui),
{
    let cl = el.client;
    let mut ops: Vec<DrawOp> = Vec::new();
    push_fill(&mut ops, cl.x, cl.y, cl.w, cl.h, Rgb { r: 0x26, g: 0x26, b: 0x30 });
    let cap: [u8; 22] = [73u8, 116, 101, 109, 32, 112, 114, 111, 112, 101, 114, 116, 105, 101, 115, 32, 40, 115, 116, 117, 98, 41];
    assert(cap@ == txt_item_properties());
    push_text(&mut ops, cl.x + 12, cl.y + 16, cl.w - 24, &cap, Rgb { r: 0xd8, g: 0xd8, b: 0xe0 }, 1);
    let mut line: Vec<u8> = Vec::new();
    let head: [u8; 18] = [84u8, 97, 114, 103, 101, 116, 32, 114, 111, 119, 32, 105, 110, 100, 101, 120, 58, 32];
    let mut j: usize = 0;
    while j < 18
        invariant
            j <= 18,
            line@ == head@.take(j as int),
        decreases 18 - j,
    {
        line.push(head[j]);
        assert(line@ =~= head@.take(j + 1));
        j = j + 1;
    }
    assert(head@.take(18) =~= txt_target_row());
    let v: u32 = ui.properties.target_line as u32;
    if v == 0 {
        line.push(48);
    } else {
        append_low_digits(&mut line, v as u64, 8);
    }
    assert(line@ =~= properties_line(ui.properties.target_line));
    push_text(&mut ops, cl.x + 12, cl.y + 40, cl.w - 24, line.as_slice(), Rgb { r: 0xaa, g: 0xaa, b: 0xb4 }, 1);
    assert(ops_view(ops@) =~= properties_client_plan(*el, *ui));
    ops
}


// ---------------------------------------------------------------- Notepad painting

/// Characters per Notepad line in a client `w` pixels wide (at least four).
pub open spec fn notepad_max_cols(w: u32) -> int {
    let c = w.saturating_sub(32) / 9;
    if c < 4 { 4 } else { c as int }
}

/// The text lines of the Notepad page from scan position `i`, the current line starting at
/// `beg` and drawn at height `y`: a line ends at a newline (which is not drawn), at the
/// end of the text, or after `max_c` characters; empty lines take their height but draw
/// nothing; lines stop once `y` reaches the bottom margin.
pub open spec fn notepad_text_cmds(buf: Seq<u8>, n: int, max_c: int, cl: HitRect, i: int, beg: int, y: int) -> Seq<DrawCmd>
    decreases n + 1 - i, i - beg,
{
    if !(0 <= beg <= i <= n && max_c >= 1 && y < cl.y + cl.h - 18) {
        Seq::empty()
    } else {
        let at_end = i == n;
        let nl = !at_end && buf[i] == 10;
        let wrap = !at_end && !nl && i > beg && i - beg >= max_c;
        if at_end || nl || wrap {
            let end = if wrap { beg + max_c } else { i };
            let line = if end > beg {
                seq![DrawCmd::Text { x: (cl.x + 16) as u32, y: y as u32, max_w: (cl.w - 32) as u32, text: buf.subrange(beg, end), color: rgb(0x10, 0x10, 0x18), scale: 1 }]
            } else {
                Seq::empty()
            };
            if nl {
                line + notepad_text_cmds(buf, n, max_c, cl, i + 1, i + 1, y + 10)
            } else if wrap {
                line + notepad_text_cmds(buf, n, max_c, cl, i, end, y + 10)
            } else {
                line
            }
        } else {
            notepad_text_cmds(buf, n, max_c, cl, i + 1, beg, y)
        }
    }
}

/// Notepad: background, the white page, and the text (at most the buffer's 512 bytes)
/// broken into lines.
pub open spec fn notepad_client_plan(el: ExplorerLayout, ui: HostUiState) -> Seq<DrawCmd> {
    let cl = el.client;
    let n = if ui.notepad.len < 512 { ui.notepad.len as int } else { 512 };
    seq![
        DrawCmd::Fill { x: cl.x, y: cl.y, w: cl.w, h: cl.h, color: rgb(0x22, 0x22, 0x2c) },
        DrawCmd::Fill { x: (cl.x + 8) as u32, y: (cl.y + 8) as u32, w: (cl.w - 16) as u32, h: (cl.h - 16) as u32, color: rgb(0xfa, 0xfa, 0xfc) },
    ] + notepad_text_cmds(ui.notepad.buf@, n, notepad_max_cols(cl.w), cl, 0, 0, cl.y + 16)
}

fn copy_range(buf: &[u8; 512], beg: usize, end: usize) -> (v: Vec<u8>)
    requires
        beg <= end <= 512,
    ensures
        v@ == buf@.subrange(beg as int, end as int),
{
    let mut v: Vec<u8> = Vec::new();
    let mut k: usize = beg;
    while k < end
        invariant
            beg <= k <= end <= 512,
            v@ == buf@.subrange(beg as int, k as int),
        decreases end - k,
    {
        v.push(buf[k]);
        assert(v@ =~= buf@.subrange(beg as int, k + 1));
        k = k + 1;
    }
    v
}

/// Plan the painting of Notepad's client area.
pub fn paint_notepad_client(el: &ExplorerLayout, ui: &HostUiState) -> (ops: Vec<DrawOp>)
    requires
        el.client.w >= 32,
        el.client.h >= 16,
        el.client.y + el.client.h >= 18,
        el.client.x + 16 <= u32::MAX,
        el.client.y + el.client.h <= u32::MAX,
    ensures
        ops_view(ops@) == notepad_client_plan(*el, *ui),
{
    let cl = el.client;
    let mut ops: Vec<DrawOp> = Vec::new();
    push_fill(&mut ops, cl.x, cl.y, cl.w, cl.h, Rgb { r: 0x22, g: 0x22, b: 0x2c });
    push_fill(&mut ops, cl.x + 8, cl.y + 8, cl.w - 16, cl.h - 16, Rgb { r: 0xfa, g: 0xfa, b: 0xfc });
    let mc = cl.w.saturating_sub(32) / 9;
    let max_c: usize = if mc < 4 { 4 } else { mc as usize };
    let n: usize = if ui.notepad.len < 512 { ui.notepad.len } else { 512 };
    let bottom: u32 = cl.y + cl.h - 18;
    let buf = &ui.notepad.buf;
    let ghost total = ops_view(ops@) + notepad_text_cmds(buf@, n as int, max_c as int, cl, 0, 0, cl.y + 16);
    assert(total == notepad_client_plan(*el, *ui));
    let mut y: u32 = cl.y + 16;
    let mut i: usize = 0;
    let mut beg: usize = 0;
    loop
        invariant_except_break
            beg <= i <= n,
            i - beg <= max_c,
            ops_view(ops@) + notepad_text_cmds(buf@, n as int, max_c as int, cl, i as int, beg as int, y as int) == total,
        invariant
            n <= 512,
            max_c >= 4,
            max_c == notepad_max_cols(cl.w),
            bottom == cl.y + cl.h - 18,
            cl == el.client,
            cl.w >= 32,
            cl.x + 16 <= u32::MAX,
            cl.y + cl.h <= u32::MAX,
            buf@ == ui.notepad.buf@,
        ensures
            ops_view(ops@) == total,
        decreases 2 * (n + 1 - i) + (if i > beg { 1int } else { 0int }),
    {
        if y >= bottom {
            assert(ops_view(ops@) =~= total);
            break;
        }
        let at_end = i == n;
        let nl = !at_end && buf[i] == 10u8;
        let wrap = !at_end && !nl && i > beg && i - beg >= max_c;
        if at_end || nl || wrap {
            let end = if wrap { beg + max_c } else { i };
            let ghost before = ops_view(ops@);
            if end > beg {
                let text = copy_range(buf, beg, end);
                push_text(&mut ops, cl.x + 16, y, cl.w - 32, text.as_slice(), Rgb { r: 0x10, g: 0x10, b: 0x18 }, 1);
            }
            if nl {
                assert(ops_view(ops@) + notepad_text_cmds(buf@, n as int, max_c as int, cl, i + 1, i + 1, y + 10) =~= total);
                y = y + 10;
                beg = i + 1;
                i = i + 1;
            } else if wrap {
                assert(ops_view(ops@) + notepad_text_cmds(buf@, n as int, max_c as int, cl, i as int, end as int, y + 10) =~= total);
                y = y + 10;
                beg = end;
            } else {
                assert(ops_view(ops@) =~= total);
                break;
            }
        } else {
            i = i + 1;
        }
    }
    ops
}


} // verus!
