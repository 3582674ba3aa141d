//! Kernel-hosted window stack (z-order) for the Fluent desktop.
use vstd::prelude::*;

verus! {

/// Capacity of the hosted window stack.
pub const MAX_HOSTED_WINDOWS: usize = 8;

/// Openable shell applications.
#[derive(Clone, Copy, Debug, PartialEq, Eq, Structural)]
pub enum AppId {
    Files,
    TaskMgr,
    Settings,
    ControlPanel,
    Run,
    Notepad,
    Calculator,
    About,
    Properties,
}

/// The numeric code of an application (its title index and its persisted byte).
pub open spec fn app_code(id: AppId) -> nat {
    match id {
        AppId::Files => 0,
        AppId::TaskMgr => 1,
        AppId::Settings => 2,
        AppId::ControlPanel => 3,
        AppId::Run => 4,
        AppId::Notepad => 5,
        AppId::Calculator => 6,
        AppId::About => 7,
        AppId::Properties => 8,
    }
}

/// The application with numeric code `v`, if any.
pub open spec fn app_of_code(v: nat) -> Option<AppId> {
    if v == 0 {
        Some(AppId::Files)
    } else if v == 1 {
        Some(AppId::TaskMgr)
    } else if v == 2 {
        Some(AppId::Settings)
    } else if v == 3 {
        Some(AppId::ControlPanel)
    } else if v == 4 {
        Some(AppId::Run)
    } else if v == 5 {
        Some(AppId::Notepad)
    } else if v == 6 {
        Some(AppId::Calculator)
    } else if v == 7 {
        Some(AppId::About)
    } else if v == 8 {
        Some(AppId::Properties)
    } else {
        None
    }
}

/// The application a Start menu row opens (`None` for stub rows and the power row).
pub open spec fn app_of_menu_row(row: nat) -> Option<AppId> {
    if row == 1 || row == 8 {
        Some(AppId::Files)
    } else if 2 <= row <= 7 {
        app_of_code((row - 1) as nat)
    } else if row == 9 {
        Some(AppId::About)
    } else {
        None
    }
}

/// The Start menu rows open, top to bottom: nothing (row 0), Files, Task Manager, Settings,
/// Control Panel, Run, Notepad, Calculator, Files again, About, and nothing below; codes
/// and applications correspond one to one.
pub proof fn lemma_start_menu_rows(row: nat)
    ensures
        app_of_menu_row(1) == Some(AppId::Files),
        app_of_menu_row(2) == Some(AppId::TaskMgr),
        app_of_menu_row(3) == Some(AppId::Settings),
        app_of_menu_row(4) == Some(AppId::ControlPanel),
        app_of_menu_row(5) == Some(AppId::Run),
        app_of_menu_row(6) == Some(AppId::Notepad),
        app_of_menu_row(7) == Some(AppId::Calculator),
        app_of_menu_row(8) == Some(AppId::Files),
        app_of_menu_row(9) == Some(AppId::About),
        row == 0 || row >= 10 ==> app_of_menu_row(row) == None::<AppId>,
        forall|a: AppId| #[trigger] app_of_code(app_code(a) as nat) == Some(a),
{
    assert forall|a: AppId| #[trigger] app_of_code(app_code(a) as nat) == Some(a) by {
        match a {
            AppId::Files => {},
            AppId::TaskMgr => {},
            AppId::Settings => {},
            AppId::ControlPanel => {},
            AppId::Run => {},
            AppId::Notepad => {},
            AppId::Calculator => {},
            AppId::About => {},
            AppId::Properties => {},
        }
    }
}

impl Default for AppId {
    fn default() -> (r: Self)
        ensures
            r == AppId::Files,
    {
        AppId::Files
    }
}

impl AppId {
    /// Index of the window title raster for this application.
    pub fn title_idx(self) -> (r: usize)
        ensures
            r == app_code(self),
    {
        match self {
            AppId::Files => 0,
            AppId::TaskMgr => 1,
            AppId::Settings => 2,
            AppId::ControlPanel => 3,
            AppId::Run => 4,
            AppId::Notepad => 5,
            AppId::Calculator => 6,
            AppId::About => 7,
            AppId::Properties => 8,
        }
    }

    /// Byte code used when the stack is persisted.
    pub fn to_u8(self) -> (r: u8)
        ensures
            r == app_code(self),
    {
        match self {
            AppId::Files => 0,
            AppId::TaskMgr => 1,
            AppId::Settings => 2,
            AppId::ControlPanel => 3,
            AppId::Run => 4,
            AppId::Notepad => 5,
            AppId::Calculator => 6,
            AppId::About => 7,
            AppId::Properties => 8,
        }
    }

    /// Decodes a persisted byte; `None` for codes above 8.
    pub fn from_u8(v: u8) -> (r: Option<Self>)
        ensures
            r == app_of_code(v as nat),
    {
        match v {
            0 => Some(AppId::Files),
            1 => Some(AppId::TaskMgr),
            2 => Some(AppId::Settings),
            3 => Some(AppId::ControlPanel),
            4 => Some(AppId::Run),
            5 => Some(AppId::Notepad),
            6 => Some(AppId::Calculator),
            7 => Some(AppId::About),
            8 => Some(AppId::Properties),
            _ => None,
        }
    }

    /// Start menu row index to the application it opens (`None` = stub / power flow).
    pub fn from_menu_row(row: usize) -> (r: Option<Self>)
        ensures
            r == app_of_menu_row(row as nat),
    {
        match row {
            1 => Some(AppId::Files),
            2 => Some(AppId::TaskMgr),
            3 => Some(AppId::Settings),
            4 => Some(AppId::ControlPanel),
            5 => Some(AppId::Run),
            6 => Some(AppId::Notepad),
            7 => Some(AppId::Calculator),
            8 => Some(AppId::Files),
            9 => Some(AppId::About),
            _ => None,
        }
    }
}

/// Hosted window z-order; the front (focused) window is at index `len - 1`.
#[derive(Clone, Copy, Debug)]
pub struct WindowStack {
    pub ids: [AppId; MAX_HOSTED_WINDOWS],
    pub len: u8,
}

/// The stack after bringing `id` to the front of `s` (a stack of at most
/// `MAX_HOSTED_WINDOWS` windows): an open window moves to the front, a new one is
/// appended, and when the stack is full the back-most window is evicted.
pub open spec fn pushed_front(s: Seq<AppId>, id: AppId) -> Seq<AppId> {
    match s.index_of_first(id) {
        Some(i) => s.remove(i).push(id),
        None => if s.len() < MAX_HOSTED_WINDOWS {
            s.push(id)
        } else {
            s.drop_first().push(id)
        },
    }
}

/// Keeps every window that does not belong to application `id`.
pub open spec fn other_than(id: AppId) -> spec_fn(AppId) -> bool {
    |x: AppId| x != id
}

impl View for WindowStack {
    type V = Seq<AppId>;

    /// The open windows, back-most first.
    open spec fn view(&self) -> Seq<AppId> {
        self.ids@.take(self.len as int)
    }
}

impl WindowStack {
    /// Well-formedness: the length never exceeds the capacity.
    pub open spec fn wf(&self) -> bool {
        self.len as usize <= MAX_HOSTED_WINDOWS
    }

    /// An empty stack.
    pub fn new() -> (s: Self)
        ensures
            s.wf(),
            s.len == 0,
            s@ == Seq::<AppId>::empty(),
    {
        WindowStack { ids: [AppId::Files; MAX_HOSTED_WINDOWS], len: 0 }
    }

    /// Bring `id` to the front; evict the oldest window if the stack is full.
    pub fn push_front(&mut self, id: AppId)
        requires
            old(self).wf(),
        ensures
            final(self).wf(),
            final(self)@ == pushed_front(old(self)@, id),
    {
        let ghost s0 = self@;
        proof {
            s0.index_of_first_ensures(id);
        }
        if self.len == 0 {
            self.ids[0] = id;
            self.len = 1;
            assert(self@ =~= s0.push(id));
            return;
        }
        let n = self.len as usize;
        let found = self.find_first(id);
        proof {
            s0.index_of_first_ensures(id);
        }
        if let Some(i) = found {
            let v = self.ids[i];
            let mut j = i;
            while j + 1 < n
                invariant
                    i <= j < n,
                    n == self.len,
                    n <= MAX_HOSTED_WINDOWS,
                    v == id,
                    forall|k: int| 0 <= k < i ==> self.ids@[k] == s0[k],
                    forall|k: int| i <= k < j ==> self.ids@[k] == s0[k + 1],
                    forall|k: int| j <= k < n ==> self.ids@[k] == s0[k],
                decreases n - j,
            {
                self.ids[j] = self.ids[j + 1];
                j = j + 1;
            }
            self.ids[n - 1] = v;
            assert(self@ =~= s0.remove(i as int).push(id));
            return;
        }
        if n < MAX_HOSTED_WINDOWS {
            self.ids[n] = id;
            self.len = self.len + 1;
            assert(self@ =~= s0.push(id));
            return;
        }
        let mut j: usize = 0;
        while j < MAX_HOSTED_WINDOWS - 1
            invariant
                0 <= j <= MAX_HOSTED_WINDOWS - 1,
                self.len as usize == MAX_HOSTED_WINDOWS,
                s0.len() == MAX_HOSTED_WINDOWS,
                forall|k: int| 0 <= k < j ==> self.ids@[k] == s0[k + 1],
                forall|k: int| j <= k < MAX_HOSTED_WINDOWS ==> self.ids@[k] == s0[k],
            decreases MAX_HOSTED_WINDOWS - 1 - j,
        {
            self.ids[j] = self.ids[j + 1];
            j = j + 1;
        }
        self.ids[MAX_HOSTED_WINDOWS - 1] = id;
        assert(self@ =~= s0.drop_first().push(id));
    }

    /// Index of the back-most window of application `id`.
    fn find_first(&self, id: AppId) -> (r: Option<usize>)
        requires
            self.wf(),
        ensures
            match self@.index_of_first(id) {
                Some(i) => r == Some(i as usize),
                None => r is None,
            },
    {
        proof {
            self@.index_of_first_ensures(id);
        }
        let n = self.len as usize;
        let mut i: usize = 0;
        while i < n
            invariant
                0 <= i <= n,
                n == self.len,
                n <= MAX_HOSTED_WINDOWS,
                forall|k: int| 0 <= k < i ==> self@[k] != id,
            decreases n - i,
        {
            if self.ids[i] == id {
                assert(self@[i as int] == id);
                proof {
                    self@.index_of_first_ensures(id);
                    assert(self@.contains(id));
                    match self@.index_of_first(id) {
                        Some(j) => {
                            if j < i {
                                assert(self@[j] != id);
                            }
                            if j > i {
                                assert(self@[i as int] != id);
                            }
                        },
                        None => {},
                    }
                }
                return Some(i);
            }
            i = i + 1;
        }
        assert(!self@.contains(id));
        None
    }

    /// Remove and return the front window.
    pub fn pop_top(&mut self) -> (r: Option<AppId>)
        requires
            old(self).wf(),
        ensures
            final(self).wf(),
            old(self)@.len() == 0 ==> r is None && final(self)@ == old(self)@,
            old(self)@.len() > 0 ==> r == Some(old(self)@.last()) && final(self)@ == old(
                self,
            )@.drop_last(),
    {
        if self.len == 0 {
            return None;
        }
        let n = (self.len - 1) as usize;
        let v = self.ids[n];
        self.len = self.len - 1;
        assert(self@ =~= old(self)@.drop_last());
        Some(v)
    }

    /// Close every window of application `id`, keeping the order of the others.
    pub fn remove(&mut self, id: AppId)
        requires
            old(self).wf(),
        ensures
            final(self).wf(),
            final(self)@ == old(self)@.filter(other_than(id)),
    {
        let ghost s0 = self@;
        let ghost pred = other_than(id);
        let n = self.len as usize;
        let mut w: usize = 0;
        let mut r: usize = 0;
        while r < n
            invariant
                0 <= w <= r <= n,
                n == self.len,
                n <= MAX_HOSTED_WINDOWS,
                s0.len() == n,
                pred == other_than(id),
                self.ids@.take(w as int) == s0.take(r as int).filter(pred),
                forall|k: int| r <= k < n ==> self.ids@[k] == s0[k],
            decreases n - r,
        {
            proof {
                assert(s0.take(r as int + 1) =~= s0.take(r as int).push(s0[r as int]));
                s0.take(r as int).lemma_filter_push(s0[r as int], pred);
            }
            if self.ids[r] != id {
                assert(s0.take(r as int + 1).filter(pred) == s0.take(r as int).filter(pred).push(
                    s0[r as int],
                ));
                self.ids[w] = self.ids[r];
                assert(self.ids@.take(w as int + 1) =~= s0.take(r as int).filter(pred).push(
                    s0[r as int],
                ));
                w = w + 1;
            } else {
                assert(s0.take(r as int + 1).filter(pred) == s0.take(r as int).filter(pred));
            }
            r = r + 1;
        }
        assert(s0.take(n as int) =~= s0);
        self.len = w as u8;
    }

    /// The front window, if any.
    pub fn top(&self) -> (r: Option<AppId>)
        requires
            self.wf(),
        ensures
            self@.len() == 0 ==> r is None,
            self@.len() > 0 ==> r == Some(self@.last()),
    {
        if self.len == 0 {
            None
        } else {
            Some(self.ids[(self.len - 1) as usize])
        }
    }

    /// Whether a window of application `id` is open.
    pub fn contains(&self, id: AppId) -> (r: bool)
        requires
            self.wf(),
        ensures
            r == self@.contains(id),
    {
        let n = self.len as usize;
        let mut i: usize = 0;
        while i < n
            invariant
                0 <= i <= n,
                n == self.len,
                n <= MAX_HOSTED_WINDOWS,
                forall|k: int| 0 <= k < i ==> self@[k] != id,
            decreases n - i,
        {
            if self.ids[i] == id {
                assert(self@[i as int] == id);
                return true;
            }
            i = i + 1;
        }
        false
    }

    /// Minimize-all / show-desktop style: drop every hosted window.
    pub fn clear(&mut self)
        ensures
            final(self).wf(),
            final(self)@ == Seq::<AppId>::empty(),
    {
        self.len = 0;
    }
}

/// Bringing an application to the front makes it the front window, keeps the stack
/// within its capacity, keeps every other open window except the back-most one when a
/// full stack has to evict, and keeps the length when the application was already open.
pub proof fn lemma_push_front_focuses(s: Seq<AppId>, id: AppId)
    requires
        s.len() <= MAX_HOSTED_WINDOWS,
    ensures
        pushed_front(s, id).len() > 0,
        pushed_front(s, id).last() == id,
        pushed_front(s, id).len() <= MAX_HOSTED_WINDOWS,
        s.contains(id) ==> pushed_front(s, id).len() == s.len(),
        !s.contains(id) && s.len() < MAX_HOSTED_WINDOWS ==> pushed_front(s, id).len() == s.len()
            + 1,
        forall|k: int|
            0 <= k < s.len() && (k > 0 || s.contains(id) || s.len() < MAX_HOSTED_WINDOWS)
                ==> #[trigger] pushed_front(s, id).contains(s[k]),
{
    s.index_of_first_ensures(id);
    let p = pushed_front(s, id);
    assert forall|k: int|
        0 <= k < s.len() && (k > 0 || s.contains(id) || s.len() < MAX_HOSTED_WINDOWS)
            implies #[trigger] p.contains(s[k]) by {
        match s.index_of_first(id) {
            Some(i) => {
                if k == i {
                    assert(p[p.len() - 1] == s[k]);
                } else if k < i {
                    assert(p[k] == s[k]);
                } else {
                    assert(p[k - 1] == s[k]);
                }
            },
            None => {
                if s.len() < MAX_HOSTED_WINDOWS {
                    assert(p[k] == s[k]);
                } else {
                    assert(p[k - 1] == s[k]);
                }
            },
        }
    }
}

/// Bringing an application to the front never opens a second window of any
/// application: a stack without duplicates stays without duplicates.
pub proof fn lemma_push_front_no_duplicates(s: Seq<AppId>, id: AppId)
    requires
        s.len() <= MAX_HOSTED_WINDOWS,
        s.no_duplicates(),
    ensures
        pushed_front(s, id).no_duplicates(),
{
    s.index_of_first_ensures(id);
    let p = pushed_front(s, id);
    match s.index_of_first(id) {
        Some(i) => {
            let r = s.remove(i);
            assert forall|a: int, b: int| 0 <= a < b < p.len() implies p[a] != p[b] by {
                if b == p.len() - 1 {
                    let a0 = if a < i { a } else { a + 1 };
                    assert(r[a] == s[a0]);
                    assert(a0 != i);
                } else {
                    let a0 = if a < i { a } else { a + 1 };
                    let b0 = if b < i { b } else { b + 1 };
                    assert(r[a] == s[a0] && r[b] == s[b0]);
                }
            }
        },
        None => {
            if s.len() < MAX_HOSTED_WINDOWS {
                assert forall|a: int, b: int| 0 <= a < b < p.len() implies p[a] != p[b] by {
                    if b == p.len() - 1 {
                        assert(s.contains(p[a]));
                    }
                }
            } else {
                assert forall|a: int, b: int| 0 <= a < b < p.len() implies p[a] != p[b] by {
                    if b == p.len() - 1 {
                        assert(s[a + 1] == p[a]);
                        assert(s.contains(p[a]));
                    } else {
                        assert(s[a + 1] == p[a] && s[b + 1] == p[b]);
                    }
                }
            }
        },
    }
}

/// Closing an application leaves none of its windows open and keeps every window of
/// the other applications, in their order.
pub proof fn lemma_remove_closes(s: Seq<AppId>, id: AppId)
    ensures
        !s.filter(other_than(id)).contains(id),
        forall|k: int|
            0 <= k < s.len() && s[k] != id ==> #[trigger] s.filter(other_than(id)).contains(s[k]),
{
    let f = s.filter(other_than(id));
    if f.contains(id) {
        let j = choose|j: int| 0 <= j < f.len() && f[j] == id;
        s.lemma_filter_pred(other_than(id), j);
    }
    assert forall|k: int| 0 <= k < s.len() && s[k] != id implies #[trigger] f.contains(s[k]) by {
        s.lemma_filter_contains(other_than(id), k);
    }
}

impl Default for WindowStack {
    fn default() -> (s: Self)
        ensures
            s.wf(),
            s@ == Seq::<AppId>::empty(),
    {
        WindowStack::new()
    }
}

} // verus!
