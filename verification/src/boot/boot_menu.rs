//! Boot selection model: entries, focus movement, key handling, settings editing and the
//! auto-boot countdown. Drawing and firmware calls stay with the caller.
use vstd::prelude::*;
use crate::boot::boot_config::{Zbm10Cfg, dec_digits, AUTO_BOOT_MAX_SECONDS, CHAIN_PATH_MAX, default_chain};
use crate::boot::boot_ui_gfx::{Rect, TileLayout, ENTRY_COUNT};

verus! {

/// UEFI scan code: cursor up.
pub const SCAN_UP: u16 = 0x0001;
/// UEFI scan code: cursor down.
pub const SCAN_DOWN: u16 = 0x0002;
/// UEFI scan code: Home.
pub const SCAN_HOME: u16 = 0x0005;
/// UEFI scan code: End.
pub const SCAN_END: u16 = 0x0006;
/// UEFI scan code: Escape.
pub const SCAN_ESC: u16 = 0x0017;
/// UEFI scan code: F10.
pub const SCAN_F10: u16 = 0x0012;
/// Rows of the settings screen (four settings and "Save and return").
pub const SETTINGS_LINES: usize = 5;

/// What a boot menu row does.
#[derive(Clone, Copy, Debug, PartialEq, Eq, Structural)]
pub enum EntryId {
    FluentNt10,
    Reserved,
    ChainBootMgr,
    Reboot,
    Shutdown,
}

/// The entry shown in row `i`.
pub open spec fn entry_at(i: nat) -> EntryId {
    if i == 0 {
        EntryId::FluentNt10
    } else if i == 1 {
        EntryId::Reserved
    } else if i == 2 {
        EntryId::ChainBootMgr
    } else if i == 3 {
        EntryId::Reboot
    } else {
        EntryId::Shutdown
    }
}

/// The entry shown in row `i` (`i < ENTRY_COUNT`).
pub fn entry_id(i: usize) -> (e: EntryId)
    requires
        i < ENTRY_COUNT,
    ensures
        e == entry_at(i as nat),
{
    match i {
        0 => EntryId::FluentNt10,
        1 => EntryId::Reserved,
        2 => EntryId::ChainBootMgr,
        3 => EntryId::Reboot,
        _ => EntryId::Shutdown,
    }
}

/// Keyboard / pointer focus on the graphical menu.
#[derive(Clone, Copy, Debug, PartialEq, Eq, Structural)]
pub enum Focus {
    Entry(usize),
    Footer,
}

/// One keystroke from the firmware console.
#[derive(Clone, Copy, Debug, PartialEq, Eq, Structural)]
pub struct MenuKey {
    pub scan_code: u16,
    pub unicode_char: u16,
}

/// Pointer hit test over the layout: the footer first, then the tiles in order.
pub open spec fn hit_spec(layout: TileLayout, x: i32, y: i32) -> Option<Focus> {
    if layout.footer.contains_spec(x, y) {
        Some(Focus::Footer)
    } else if layout.tiles[0].contains_spec(x, y) {
        Some(Focus::Entry(0))
    } else if layout.tiles[1].contains_spec(x, y) {
        Some(Focus::Entry(1))
    } else if layout.tiles[2].contains_spec(x, y) {
        Some(Focus::Entry(2))
    } else if layout.tiles[3].contains_spec(x, y) {
        Some(Focus::Entry(3))
    } else if layout.tiles[4].contains_spec(x, y) {
        Some(Focus::Entry(4))
    } else {
        None
    }
}

/// Every rectangle of the layout has representable far edges.
pub open spec fn layout_wf(layout: TileLayout) -> bool {
    &&& layout.footer.wf()
    &&& forall|i: int| 0 <= i < ENTRY_COUNT ==> (#[trigger] layout.tiles[i]).wf()
}

/// Which menu element lies under the pointer.
pub fn hit_test(layout: &TileLayout, x: i32, y: i32) -> (r: Option<Focus>)
    requires
        layout_wf(*layout),
    ensures
        r == hit_spec(*layout, x, y),
{
    if layout.footer.contains(x, y) {
        return Some(Focus::Footer);
    }
    let mut i: usize = 0;
    while i < ENTRY_COUNT
        invariant
            0 <= i <= ENTRY_COUNT,
            layout_wf(*layout),
            !layout.footer.contains_spec(x, y),
            forall|k: int| 0 <= k < i ==> !(#[trigger] layout.tiles[k]).contains_spec(x, y),
        decreases ENTRY_COUNT - i,
    {
        if layout.tiles[i].contains(x, y) {
            return Some(Focus::Entry(i));
        }
        i = i + 1;
    }
    None
}

/// A pointer sample on the graphical menu: while the button is held the element under the
/// pointer takes the focus; when it is released after a press, the element under the pointer
/// is focused and activated. Returns the new focus and whether to activate it.
pub open spec fn pointer_step_spec(layout: TileLayout, was_down: bool, down: bool, x: i32, y: i32, focus: Focus) -> (Focus, bool) {
    match hit_spec(layout, x, y) {
        Some(h) => if down {
            (h, false)
        } else if was_down {
            (h, true)
        } else {
            (focus, false)
        },
        None => (focus, false),
    }
}

/// Apply one pointer sample (button state `down`, previous state `was_down`, position
/// `(x, y)`) to the menu focus; see [`pointer_step_spec`].
pub fn pointer_menu_step(layout: &TileLayout, was_down: bool, down: bool, x: i32, y: i32, focus: Focus) -> (r: (Focus, bool))
    requires
        layout_wf(*layout),
    ensures
        r == pointer_step_spec(*layout, was_down, down, x, y, focus),
{
    if !down && !was_down {
        return (focus, false);
    }
    match hit_test(layout, x, y) {
        Some(h) => (h, !down),
        None => (focus, false),
    }
}

/// Initial row: the remembered entry when that policy is on and a value was stored, otherwise
/// the configured default; always a valid row.
pub open spec fn initial_row(default_entry: u8, remember_last: bool, remembered: Option<u8>) -> nat {
    let max: nat = (ENTRY_COUNT - 1) as nat;
    let def: nat = if default_entry < max { default_entry as nat } else { max };
    if remember_last {
        match remembered {
            Some(v) => if v < max { v as nat } else { max },
            None => def,
        }
    } else {
        def
    }
}

/// Focus when the menu opens; `remembered` is the last entry stored in NVRAM, if any.
pub fn initial_selection(cfg: &Zbm10Cfg, remembered: Option<u8>) -> (f: Focus)
    ensures
        f == Focus::Entry(initial_row(cfg.default_entry, cfg.remember_last, remembered) as usize),
{
    let def = cfg.clamp_default_entry(ENTRY_COUNT as u8) as usize;
    let idx = if cfg.remember_last {
        match remembered {
            Some(v) => if (v as usize) < ENTRY_COUNT - 1 { v as usize } else { ENTRY_COUNT - 1 },
            None => def,
        }
    } else {
        def
    };
    let idx = if idx < ENTRY_COUNT - 1 { idx } else { ENTRY_COUNT - 1 };
    Focus::Entry(idx)
}

/// The entry index to store in NVRAM for a boot of row `entry_idx`, if remembering is on.
pub fn persisted_entry(cfg: &Zbm10Cfg, entry_idx: u8) -> (r: Option<u8>)
    ensures
        r == if cfg.remember_last { Some(entry_idx) } else { None::<u8> },
{
    if cfg.remember_last {
        Some(entry_idx)
    } else {
        None
    }
}

/// What a key press asks of the graphical menu.
#[derive(Clone, Copy, Debug, PartialEq, Eq, Structural)]
pub enum MenuKeyAction {
    /// Move the focus.
    Focus(Focus),
    /// Activate the focused element.
    Activate,
    /// Open the settings screen.
    OpenSettings,
    /// Boot the first entry immediately.
    BootDefault,
    /// Nothing to do.
    Ignore,
}

/// Key handling of the graphical menu (any key also cancels the countdown).
pub open spec fn menu_key_spec(focus: Focus, k: MenuKey) -> MenuKeyAction {
    let last: usize = (ENTRY_COUNT - 1) as usize;
    if k.scan_code == SCAN_UP {
        MenuKeyAction::Focus(
            match focus {
                Focus::Entry(i) => if i > 0 { Focus::Entry((i - 1) as usize) } else { focus },
                Focus::Footer => Focus::Entry(last),
            },
        )
    } else if k.scan_code == SCAN_DOWN {
        MenuKeyAction::Focus(
            match focus {
                Focus::Entry(i) => if i + 1 < ENTRY_COUNT { Focus::Entry((i + 1) as usize) } else { Focus::Footer },
                Focus::Footer => focus,
            },
        )
    } else if k.scan_code == SCAN_HOME {
        MenuKeyAction::Focus(Focus::Entry(0))
    } else if k.scan_code == SCAN_END {
        MenuKeyAction::Focus(Focus::Footer)
    } else if k.unicode_char == 9 {
        MenuKeyAction::Focus(
            match focus {
                Focus::Entry(i) => if i + 1 < ENTRY_COUNT { Focus::Entry((i + 1) as usize) } else { Focus::Footer },
                Focus::Footer => Focus::Entry(0),
            },
        )
    } else if k.unicode_char == 13 || k.unicode_char == 10 {
        MenuKeyAction::Activate
    } else if k.scan_code == SCAN_ESC {
        MenuKeyAction::Focus(Focus::Footer)
    } else if k.unicode_char == 99 || k.unicode_char == 67 || k.scan_code == SCAN_F10 {
        MenuKeyAction::OpenSettings
    } else if 49 <= k.unicode_char <= 53 {
        MenuKeyAction::Focus(Focus::Entry((k.unicode_char - 49) as usize))
    } else if k.unicode_char == 98 || k.unicode_char == 66 {
        MenuKeyAction::BootDefault
    } else {
        MenuKeyAction::Ignore
    }
}

/// The arrow keys move the graphical menu's focus one row at a time: Down goes from entry
/// row `i` to row `i + 1`, and from the last entry row to the footer; Up undoes Down and
/// Down undoes Up between entry rows.
pub proof fn lemma_arrows_move_one_row(i: usize, down: MenuKey, up: MenuKey)
    requires
        down.scan_code == SCAN_DOWN,
        up.scan_code == SCAN_UP,
        i < ENTRY_COUNT,
    ensures
        i + 1 < ENTRY_COUNT ==> menu_key_spec(Focus::Entry(i), down) == MenuKeyAction::Focus(Focus::Entry((i + 1) as usize)),
        i + 1 == ENTRY_COUNT ==> menu_key_spec(Focus::Entry(i), down) == MenuKeyAction::Focus(Focus::Footer),
        menu_key_spec(Focus::Entry(i), down) matches MenuKeyAction::Focus(f) && menu_key_spec(f, up)
            == MenuKeyAction::Focus(Focus::Entry(i)),
        i > 0 ==> (menu_key_spec(Focus::Entry(i), up) matches MenuKeyAction::Focus(f) && menu_key_spec(f, down)
            == MenuKeyAction::Focus(Focus::Entry(i))),
{
}

/// On the console menu Down selects the next row (staying on the last one) and Up the
/// previous one (staying on the first); each undoes the other between rows.
pub proof fn lemma_text_arrows_move_one_row(i: usize, down: MenuKey, up: MenuKey)
    requires
        down.scan_code == SCAN_DOWN,
        up.scan_code == SCAN_UP,
        i < ENTRY_COUNT,
    ensures
        i + 1 < ENTRY_COUNT ==> text_menu_key_spec(i, down) == MenuKeyAction::Focus(Focus::Entry((i + 1) as usize)),
        i + 1 == ENTRY_COUNT ==> text_menu_key_spec(i, down) == MenuKeyAction::Focus(Focus::Entry(i)),
        i > 0 ==> text_menu_key_spec(i, up) == MenuKeyAction::Focus(Focus::Entry((i - 1) as usize)),
        i == 0 ==> text_menu_key_spec(i, up) == MenuKeyAction::Focus(Focus::Entry(0)),
        i + 1 < ENTRY_COUNT ==> text_menu_key_spec((i + 1) as usize, up) == MenuKeyAction::Focus(Focus::Entry(i)),
{
}

/// The character keys do the same on both menus, wherever the focus is: digit `1 + i`
/// focuses entry row `i`, Enter activates, `b`/`B` boots the default entry and `c`/`C`
/// opens the settings; Home focuses the first entry row.
pub proof fn lemma_menu_character_keys(focus: Focus, sel: usize, k: MenuKey, i: usize)
    requires
        k.scan_code == 0,
    ensures
        i < ENTRY_COUNT && k.unicode_char == 49 + i ==> menu_key_spec(focus, k) == MenuKeyAction::Focus(Focus::Entry(i))
            && text_menu_key_spec(sel, k) == MenuKeyAction::Focus(Focus::Entry(i)),
        k.unicode_char == 13 ==> menu_key_spec(focus, k) == MenuKeyAction::Activate && text_menu_key_spec(sel, k)
            == MenuKeyAction::Activate,
        k.unicode_char == 98 || k.unicode_char == 66 ==> menu_key_spec(focus, k) == MenuKeyAction::BootDefault
            && text_menu_key_spec(sel, k) == MenuKeyAction::BootDefault,
        k.unicode_char == 99 || k.unicode_char == 67 ==> menu_key_spec(focus, k) == MenuKeyAction::OpenSettings
            && text_menu_key_spec(sel, k) == MenuKeyAction::OpenSettings,
        menu_key_spec(focus, MenuKey { scan_code: SCAN_HOME, unicode_char: 0 }) == MenuKeyAction::Focus(Focus::Entry(0)),
        text_menu_key_spec(sel, MenuKey { scan_code: SCAN_HOME, unicode_char: 0 }) == MenuKeyAction::Focus(Focus::Entry(0)),
{
}

/// Decide what key `k` does on the graphical menu focused at `focus`.
pub fn menu_key(focus: Focus, k: MenuKey) -> (a: MenuKeyAction)
    ensures
        a == menu_key_spec(focus, k),
{
    let last = ENTRY_COUNT - 1;
    if k.scan_code == SCAN_UP {
        MenuKeyAction::Focus(
            match focus {
                Focus::Entry(i) => if i > 0 { Focus::Entry(i - 1) } else { focus },
                Focus::Footer => Focus::Entry(last),
            },
        )
    } else if k.scan_code == SCAN_DOWN {
        MenuKeyAction::Focus(
            match focus {
                Focus::Entry(i) => if i < ENTRY_COUNT - 1 { Focus::Entry(i + 1) } else { Focus::Footer },
                Focus::Footer => focus,
            },
        )
    } else if k.scan_code == SCAN_HOME {
        MenuKeyAction::Focus(Focus::Entry(0))
    } else if k.scan_code == SCAN_END {
        MenuKeyAction::Focus(Focus::Footer)
    } else if k.unicode_char == 9 {
        MenuKeyAction::Focus(
            match focus {
                Focus::Entry(i) => if i < ENTRY_COUNT - 1 { Focus::Entry(i + 1) } else { Focus::Footer },
                Focus::Footer => Focus::Entry(0),
            },
        )
    } else if k.unicode_char == 13 || k.unicode_char == 10 {
        MenuKeyAction::Activate
    } else if k.scan_code == SCAN_ESC {
        MenuKeyAction::Focus(Focus::Footer)
    } else if k.unicode_char == 99 || k.unicode_char == 67 || k.scan_code == SCAN_F10 {
        MenuKeyAction::OpenSettings
    } else if 49 <= k.unicode_char && k.unicode_char <= 53 {
        MenuKeyAction::Focus(Focus::Entry((k.unicode_char - 49) as usize))
    } else if k.unicode_char == 98 || k.unicode_char == 66 {
        MenuKeyAction::BootDefault
    } else {
        MenuKeyAction::Ignore
    }
}

/// Key handling of the console menu with row `sel` selected: it has no footer row, so the
/// selection stops at the first and last rows and Esc and Tab do nothing.
pub open spec fn text_menu_key_spec(sel: usize, k: MenuKey) -> MenuKeyAction {
    if k.scan_code == SCAN_UP {
        MenuKeyAction::Focus(Focus::Entry(if sel > 0 { (sel - 1) as usize } else { sel }))
    } else if k.scan_code == SCAN_DOWN {
        MenuKeyAction::Focus(Focus::Entry(if sel + 1 < ENTRY_COUNT { (sel + 1) as usize } else { sel }))
    } else if k.scan_code == SCAN_HOME {
        MenuKeyAction::Focus(Focus::Entry(0))
    } else if k.scan_code == SCAN_END {
        MenuKeyAction::Focus(Focus::Entry((ENTRY_COUNT - 1) as usize))
    } else if k.unicode_char == 99 || k.unicode_char == 67 || k.scan_code == SCAN_F10 {
        MenuKeyAction::OpenSettings
    } else if k.unicode_char == 13 || k.unicode_char == 10 {
        MenuKeyAction::Activate
    } else if 49 <= k.unicode_char <= 53 {
        MenuKeyAction::Focus(Focus::Entry((k.unicode_char - 49) as usize))
    } else if k.unicode_char == 98 || k.unicode_char == 66 {
        MenuKeyAction::BootDefault
    } else {
        MenuKeyAction::Ignore
    }
}

/// Decide what key `k` does on the console menu with row `sel` selected.
pub fn text_menu_key(sel: usize, k: MenuKey) -> (a: MenuKeyAction)
    requires
        sel < ENTRY_COUNT,
    ensures
        a == text_menu_key_spec(sel, k),
{
    if k.scan_code == SCAN_UP {
        MenuKeyAction::Focus(Focus::Entry(if sel > 0 { sel - 1 } else { sel }))
    } else if k.scan_code == SCAN_DOWN {
        MenuKeyAction::Focus(Focus::Entry(if sel + 1 < ENTRY_COUNT { sel + 1 } else { sel }))
    } else if k.scan_code == SCAN_HOME {
        MenuKeyAction::Focus(Focus::Entry(0))
    } else if k.scan_code == SCAN_END {
        MenuKeyAction::Focus(Focus::Entry(ENTRY_COUNT - 1))
    } else if k.unicode_char == 99 || k.unicode_char == 67 || k.scan_code == SCAN_F10 {
        MenuKeyAction::OpenSettings
    } else if k.unicode_char == 13 || k.unicode_char == 10 {
        MenuKeyAction::Activate
    } else if 49 <= k.unicode_char && k.unicode_char <= 53 {
        MenuKeyAction::Focus(Focus::Entry((k.unicode_char - 49) as usize))
    } else if k.unicode_char == 98 || k.unicode_char == 66 {
        MenuKeyAction::BootDefault
    } else {
        MenuKeyAction::Ignore
    }
}

/// What activating a menu element does.
#[derive(Clone, Copy, Debug, PartialEq, Eq, Structural)]
pub enum Activation {
    /// Open the settings screen.
    OpenSettings,
    /// Boot the NT10 kernel; `remember` is the entry to store in NVRAM, if any.
    BootKernel { remember: Option<u8> },
    /// Explain that the reserved row is not installed.
    ShowReserved,
    /// Explain that chain-loading is disabled in the configuration.
    ShowChainDisabled,
    /// Chain-load the configured loader.
    Chainload,
    /// Cold reset.
    Reboot,
    /// Power off.
    Shutdown,
}

/// The effect of activating `focus` under policy `cfg`.
pub open spec fn activation_spec(cfg: Zbm10Cfg, focus: Focus) -> Activation {
    match focus {
        Focus::Footer => Activation::OpenSettings,
        Focus::Entry(i) => match entry_at(i as nat) {
            EntryId::FluentNt10 => Activation::BootKernel {
                remember: if cfg.remember_last { Some(i as u8) } else { None },
            },
            EntryId::Reserved => Activation::ShowReserved,
            EntryId::ChainBootMgr => if cfg.chainload_enabled {
                Activation::Chainload
            } else {
                Activation::ShowChainDisabled
            },
            EntryId::Reboot => Activation::Reboot,
            EntryId::Shutdown => Activation::Shutdown,
        },
    }
}

/// What each menu row does when activated: the first row boots the kernel (remembering
/// row 0 exactly when the policy says so), the second is the reserved row, the third
/// chain-loads when the policy enables it, the fourth reboots, the fifth shuts down, and
/// the footer opens the settings.
pub proof fn lemma_rows_activate(cfg: Zbm10Cfg)
    ensures
        activation_spec(cfg, Focus::Entry(0)) == (Activation::BootKernel {
            remember: if cfg.remember_last { Some(0u8) } else { None },
        }),
        activation_spec(cfg, Focus::Entry(1)) == Activation::ShowReserved,
        cfg.chainload_enabled ==> activation_spec(cfg, Focus::Entry(2)) == Activation::Chainload,
        !cfg.chainload_enabled ==> activation_spec(cfg, Focus::Entry(2)) == Activation::ShowChainDisabled,
        activation_spec(cfg, Focus::Entry(3)) == Activation::Reboot,
        activation_spec(cfg, Focus::Entry(4)) == Activation::Shutdown,
        activation_spec(cfg, Focus::Footer) == Activation::OpenSettings,
{
}

/// Decide what activating `focus` does (`Entry` indices are menu rows).
pub fn activation(cfg: &Zbm10Cfg, focus: Focus) -> (a: Activation)
    requires
        focus matches Focus::Entry(i) ==> i < ENTRY_COUNT,
    ensures
        a == activation_spec(*cfg, focus),
{
    match focus {
        Focus::Footer => Activation::OpenSettings,
        Focus::Entry(i) => match entry_id(i) {
            EntryId::FluentNt10 => Activation::BootKernel { remember: persisted_entry(cfg, i as u8) },
            EntryId::Reserved => Activation::ShowReserved,
            EntryId::ChainBootMgr => if cfg.chainload_enabled {
                Activation::Chainload
            } else {
                Activation::ShowChainDisabled
            },
            EntryId::Reboot => Activation::Reboot,
            EntryId::Shutdown => Activation::Shutdown,
        },
    }
}

/// The loader path to chain-load: the configured one, or the default boot manager.
pub fn chainload_target(cfg: &Zbm10Cfg) -> (path: Vec<u8>)
    requires
        cfg.wf(),
    ensures
        path@ == if cfg.chainload_path_len > 0 { cfg@.chainload_path_bytes() } else { default_chain() },
{
    let mut out: Vec<u8> = Vec::new();
    if cfg.chainload_path_len > 0 {
        let n = cfg.chainload_path_len;
        let mut i: usize = 0;
        while i < n
            invariant
                0 <= i <= n,
                n == cfg.chainload_path_len,
                n <= CHAIN_PATH_MAX,
                out@ == cfg.chainload_path@.take(i as int),
            decreases n - i,
        {
            out.push(cfg.chainload_path[i]);
            assert(cfg.chainload_path@.take(i as int + 1) =~= cfg.chainload_path@.take(i as int).push(
                cfg.chainload_path@[i as int],
            ));
            i = i + 1;
        }
        return out;
    }
    let chain: [u8; 31] = [
        69u8, 70, 73, 92, 77, 105, 99, 114, 111, 115, 111, 102, 116, 92, 66, 111, 111, 116, 92, 98,
        111, 111, 116, 109, 103, 102, 119, 46, 101, 102, 105,
    ];
    assert(chain@ == default_chain());
    let mut i: usize = 0;
    while i < 31
        invariant
            0 <= i <= 31,
            chain@ == default_chain(),
            out@ == chain@.take(i as int),
        decreases 31 - i,
    {
        out.push(chain[i]);
        assert(chain@.take(i as int + 1) =~= chain@.take(i as int).push(chain@[i as int]));
        i = i + 1;
    }
    assert(chain@.take(31) =~= chain@);
    out
}

/// Change setting row `line` of the settings screen (`inc` = `+`, otherwise `-`).
pub open spec fn adjusted(cfg: Zbm10Cfg, line: nat, inc: bool) -> Zbm10Cfg {
    if line == 0 {
        Zbm10Cfg {
            auto_boot_seconds: if inc {
                if cfg.auto_boot_seconds + 5 <= AUTO_BOOT_MAX_SECONDS {
                    (cfg.auto_boot_seconds + 5) as u64
                } else {
                    AUTO_BOOT_MAX_SECONDS
                }
            } else if cfg.auto_boot_seconds >= 5 {
                (cfg.auto_boot_seconds - 5) as u64
            } else {
                0
            },
            ..cfg
        }
    } else if line == 1 {
        Zbm10Cfg {
            default_entry: if inc {
                if cfg.default_entry + 1 <= ENTRY_COUNT - 1 {
                    (cfg.default_entry + 1) as u8
                } else {
                    (ENTRY_COUNT - 1) as u8
                }
            } else if cfg.default_entry >= 1 {
                (cfg.default_entry - 1) as u8
            } else {
                0
            },
            ..cfg
        }
    } else if line == 2 {
        Zbm10Cfg { remember_last: !cfg.remember_last, ..cfg }
    } else if line == 3 {
        Zbm10Cfg { chainload_enabled: !cfg.chainload_enabled, ..cfg }
    } else {
        cfg
    }
}

/// On the settings screen `-` undoes `+` on any row, unless `+` stopped at the row's upper
/// bound (one hour of countdown, the last menu entry); a flag row toggles back either way.
pub proof fn lemma_adjust_undo(cfg: Zbm10Cfg, line: nat, first: bool)
    requires
        line == 0 ==> first && cfg.auto_boot_seconds + 5 <= AUTO_BOOT_MAX_SECONDS,
        line == 1 ==> first && cfg.default_entry + 1 <= ENTRY_COUNT - 1,
    ensures
        adjusted(adjusted(cfg, line, first), line, !first) == cfg,
{
}

/// Adjust one setting (countdown in 5 s steps up to one hour, default entry within the menu,
/// toggles for the two flags).
pub fn adjust_setting(cfg: &mut Zbm10Cfg, line: usize, inc: bool)
    requires
        line == 0 && inc ==> old(cfg).auto_boot_seconds + 5 <= u64::MAX,
        line == 1 && inc ==> old(cfg).default_entry < 255,
    ensures
        *final(cfg) == adjusted(*old(cfg), line as nat, inc),
{
    match line {
        0 => {
            if inc {
                let v = cfg.auto_boot_seconds + 5;
                cfg.auto_boot_seconds = if v <= AUTO_BOOT_MAX_SECONDS { v } else { AUTO_BOOT_MAX_SECONDS };
            } else {
                cfg.auto_boot_seconds = cfg.auto_boot_seconds.saturating_sub(5);
            }
        },
        1 => {
            let max = (ENTRY_COUNT - 1) as u8;
            if inc {
                let v = cfg.default_entry + 1;
                cfg.default_entry = if v <= max { v } else { max };
            } else {
                cfg.default_entry = cfg.default_entry.saturating_sub(1);
            }
        },
        2 => cfg.remember_last = !cfg.remember_last,
        3 => cfg.chainload_enabled = !cfg.chainload_enabled,
        _ => {},
    }
}

/// What a key press asks of the settings screen.
#[derive(Clone, Copy, Debug, PartialEq, Eq, Structural)]
pub enum SettingsKeyAction {
    /// Discard edits: reload the configuration and leave.
    Cancel,
    /// Move to another row.
    Select(usize),
    /// Adjust the current row (`true` = increase).
    Adjust(bool),
    /// Write the configuration and leave.
    SaveAndExit,
    /// Nothing to do.
    Ignore,
}

/// Key handling of the settings screen with row `line` selected.
pub open spec fn settings_key_spec(line: usize, k: MenuKey) -> SettingsKeyAction {
    if k.scan_code == SCAN_ESC {
        SettingsKeyAction::Cancel
    } else if k.scan_code == SCAN_UP && line > 0 {
        SettingsKeyAction::Select((line - 1) as usize)
    } else if k.scan_code == SCAN_DOWN && line + 1 < SETTINGS_LINES {
        SettingsKeyAction::Select((line + 1) as usize)
    } else if k.unicode_char == 43 || k.unicode_char == 61 || k.unicode_char == 93 {
        SettingsKeyAction::Adjust(true)
    } else if k.unicode_char == 45 || k.unicode_char == 91 {
        SettingsKeyAction::Adjust(false)
    } else if (k.unicode_char == 13 || k.unicode_char == 10) && line == 4 {
        SettingsKeyAction::SaveAndExit
    } else {
        SettingsKeyAction::Ignore
    }
}

/// Decide what key `k` does on the settings screen.
pub fn settings_key(line: usize, k: MenuKey) -> (a: SettingsKeyAction)
    requires
        line < SETTINGS_LINES,
    ensures
        a == settings_key_spec(line, k),
{
    if k.scan_code == SCAN_ESC {
        SettingsKeyAction::Cancel
    } else if k.scan_code == SCAN_UP && line > 0 {
        SettingsKeyAction::Select(line - 1)
    } else if k.scan_code == SCAN_DOWN && line + 1 < SETTINGS_LINES {
        SettingsKeyAction::Select(line + 1)
    } else if k.unicode_char == 43 || k.unicode_char == 61 || k.unicode_char == 93 {
        SettingsKeyAction::Adjust(true)
    } else if k.unicode_char == 45 || k.unicode_char == 91 {
        SettingsKeyAction::Adjust(false)
    } else if (k.unicode_char == 13 || k.unicode_char == 10) && line == 4 {
        SettingsKeyAction::SaveAndExit
    } else {
        SettingsKeyAction::Ignore
    }
}

/// Decimal spelling of `v` into the tail of a 20-byte scratch buffer.
pub fn fmt_u64_to_buf(v: u64, tmp: &mut [u8; 20]) -> (r: &[u8])
    ensures
        r@ == dec_digits(v as nat),
{
    crate::boot::boot_config::fmt_decimal(v, tmp)
}

/// `"     Kernel: EFI\ZirconOSFluent\"`, the prefix of the kernel path line.
pub open spec fn kernel_line_prefix() -> Seq<u8> {
    seq![
        32u8, 32, 32, 32, 32, 75, 101, 114, 110, 101, 108, 58, 32, 69, 70, 73, 92, 90, 105, 114, 99,
        111, 110, 79, 83, 70, 108, 117, 101, 110, 116, 92,
    ]
}

/// Widen ASCII bytes to UCS-2 code units.
pub open spec fn widen(s: Seq<u8>) -> Seq<u16> {
    Seq::new(s.len(), |i: int| s[i] as u16)
}

/// All bytes are 7-bit ASCII.
pub open spec fn is_ascii_bytes(s: Seq<u8>) -> bool {
    forall|i: int| 0 <= i < s.len() ==> #[trigger] s[i] < 0x80
}

/// Build the NUL-terminated UCS-2 line naming the kernel file; returns the units written
/// (including the NUL), or 0 when the line does not fit or the name is not ASCII.
pub fn ascii_kernel_line(kernel: &[u8], out: &mut [u16; 96]) -> (n: usize)
    ensures
        (kernel_line_prefix().len() + kernel@.len() + 1 > 96 || !is_ascii_bytes(kernel@)) ==> n == 0,
        (kernel_line_prefix().len() + kernel@.len() + 1 <= 96 && is_ascii_bytes(kernel@)) ==> {
            &&& n == kernel_line_prefix().len() + kernel@.len() + 1
            &&& final(out)@.take(n as int) == widen(kernel_line_prefix() + kernel@).push(0u16)
        },
{
    let prefix: [u8; 32] = [
        32u8, 32, 32, 32, 32, 75, 101, 114, 110, 101, 108, 58, 32, 69, 70, 73, 92, 90, 105, 114, 99,
        111, 110, 79, 83, 70, 108, 117, 101, 110, 116, 92,
    ];
    assert(prefix@ == kernel_line_prefix());
    if kernel.len() > 96 - 33 {
        return 0;
    }
    let mut n: usize = 0;
    while n < 32
        invariant
            0 <= n <= 32,
            prefix@ == kernel_line_prefix(),
            forall|k: int| 0 <= k < n ==> out@[k] == prefix@[k] as u16,
        decreases 32 - n,
    {
        out[n] = prefix[n] as u16;
        n = n + 1;
    }
    let mut j: usize = 0;
    while j < kernel.len()
        invariant
            0 <= j <= kernel@.len(),
            kernel@.len() <= 63,
            prefix@ == kernel_line_prefix(),
            forall|k: int| 0 <= k < 32 ==> out@[k] == prefix@[k] as u16,
            forall|k: int| 0 <= k < j ==> out@[32 + k] == kernel@[k] as u16,
            forall|k: int| 0 <= k < j ==> kernel@[k] < 0x80,
        decreases kernel@.len() - j,
    {
        let b = kernel[j];
        if b >= 0x80 {
            return 0;
        }
        out[32 + j] = b as u16;
        j = j + 1;
    }
    let end = 32 + kernel.len();
    out[end] = 0;
    assert(out@.take(end as int + 1) =~= widen(kernel_line_prefix() + kernel@).push(0u16));
    end + 1
}

/// One microsecond-based countdown step of the auto-boot timer.
#[derive(Clone, Copy, Debug, PartialEq, Eq, Structural)]
pub enum AutoBootTick {
    /// The countdown ran out: boot the first entry.
    Expired,
    /// Seconds left, rounded up.
    Remaining(u64),
    /// No countdown is running.
    Idle,
}

/// Auto-boot countdown driven by the menu's poll stalls.
#[derive(Clone, Copy, Debug, PartialEq, Eq, Structural)]
pub struct AutoBootTimer {
    pub enabled: bool,
    pub elapsed_us: u64,
    pub limit_us: u64,
}

/// `a` divided by `b`, rounded up.
pub open spec fn div_ceil_spec(a: nat, b: nat) -> nat {
    ((a + b - 1) as nat) / b
}

impl AutoBootTimer {
    /// The elapsed time never passes the limit while the countdown runs.
    pub open spec fn wf(&self) -> bool {
        self.elapsed_us <= self.limit_us
    }

    /// Countdown for `seconds` (0 disables it); the limit saturates at `u64::MAX` microseconds.
    pub fn new(seconds: u64) -> (t: Self)
        ensures
            t.wf(),
            t.enabled == (seconds > 0),
            t.elapsed_us == 0,
            t.limit_us == if seconds * 1_000_000 <= u64::MAX { seconds * 1_000_000 } else { u64::MAX as int },
    {
        let limit = match seconds.checked_mul(1_000_000) {
            Some(v) => v,
            None => u64::MAX,
        };
        AutoBootTimer { enabled: seconds > 0, elapsed_us: 0, limit_us: limit }
    }

    /// A key press cancels the countdown.
    pub fn cancel(&mut self)
        ensures
            *final(self) == (AutoBootTimer { enabled: false, ..*old(self) }),
    {
        self.enabled = false;
    }

    /// Account for a stall of `stall_us` microseconds.
    pub fn advance(&mut self, stall_us: u64) -> (r: AutoBootTick)
        requires
            old(self).wf(),
        ensures
            !old(self).enabled || stall_us == 0 ==> r == AutoBootTick::Idle && *final(self) == *old(self),
            old(self).enabled && stall_us > 0 && old(self).elapsed_us + stall_us >= old(self).limit_us
                ==> r == AutoBootTick::Expired,
            old(self).enabled && stall_us > 0 && old(self).elapsed_us + stall_us < old(self).limit_us
                ==> final(self).wf() && final(self).elapsed_us == old(self).elapsed_us + stall_us
                && r == AutoBootTick::Remaining(
                div_ceil_spec((old(self).limit_us - final(self).elapsed_us) as nat, 1_000_000) as u64,
            ),
            final(self).enabled == old(self).enabled,
            final(self).limit_us == old(self).limit_us,
    {
        if !self.enabled || stall_us == 0 {
            return AutoBootTick::Idle;
        }
        if stall_us >= self.limit_us - self.elapsed_us {
            self.elapsed_us = self.limit_us;
            return AutoBootTick::Expired;
        }
        self.elapsed_us = self.elapsed_us + stall_us;
        let rest = self.limit_us - self.elapsed_us;
        let left = rest / 1_000_000 + if rest % 1_000_000 == 0 { 0 } else { 1 };
        assert(left == div_ceil_spec(rest as nat, 1_000_000)) by (nonlinear_arith)
            requires
                left == rest / 1_000_000 + if rest % 1_000_000 == 0 { 0int } else { 1int },
        ;
        AutoBootTick::Remaining(left)
    }
}

} // verus!
