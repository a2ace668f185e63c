//! The explicit model of the windowing subsystem's state, seen from one
//! thread: the registered window classes, the windows instantiated from
//! them, the table of owned per-window user values, the thread's
//! last-error word, the message queue and the paint-bracket counters.
//!
//! Every wrapper operation is specified as a transition over the ghost
//! [`SystemView`] of this state. Handles, atoms and user-value addresses
//! are allocated from strictly increasing counters, so a handle is never
//! reused and a destroyed window's handle stays invalid forever.

use vstd::prelude::*;
use crate::types::{c_int, ATOM, DWORD, HWND, LONG_PTR, WCHAR};
use crate::window::MSG;

verus! {

/// One registered window class: its name and the identifier it received.
pub struct ClassEntry {
    pub name: Vec<WCHAR>,
    pub atom: ATOM,
}

/// Ghost image of a [`ClassEntry`].
#[verifier::ext_equal]
pub struct ClassView {
    pub name: Seq<WCHAR>,
    pub atom: ATOM,
}

impl View for ClassEntry {
    type V = ClassView;

    open spec fn view(&self) -> ClassView {
        ClassView { name: self.name@, atom: self.atom }
    }
}

/// One window known to the system. A destroyed window keeps its record
/// with `alive` cleared, so its handle can never denote another window.
#[derive(Clone, Copy, PartialEq, Eq, Structural, Debug)]
pub struct WindowRecord {
    pub hwnd: HWND,
    pub atom: ATOM,
    pub width: c_int,
    pub height: c_int,
    /// The per-window user slot: a pointer-sized word, zero when empty.
    pub userdata: LONG_PTR,
    pub alive: bool,
}

/// One owned user value, keyed by the pointer-sized address under which it
/// was handed across the interface. A reclaimed cell keeps its record with
/// `live` cleared, so reclaiming twice is impossible to express as a valid
/// operation.
#[derive(Clone, Copy, PartialEq, Eq, Structural, Debug)]
pub struct UserCell {
    pub addr: usize,
    pub value: i32,
    pub live: bool,
}

/// The modeled state of the windowing subsystem for one thread.
///
/// Treat a `System` through its operations; the fields are exposed so that
/// specifications can speak about them directly.
pub struct System {
    pub classes: Vec<ClassEntry>,
    pub windows: Vec<WindowRecord>,
    pub user_values: Vec<UserCell>,
    pub queue: Vec<MSG>,
    /// The thread-local error code set by the most recent failing call.
    pub last_error: DWORD,
    pub next_atom: ATOM,
    pub next_hwnd: HWND,
    pub next_addr: usize,
    /// How many paint operations have been begun.
    pub paints_begun: u64,
    /// How many paint operations have been ended.
    pub paints_ended: u64,
}

/// Ghost image of a [`System`].
#[verifier::ext_equal]
pub struct SystemView {
    pub classes: Seq<ClassView>,
    pub windows: Seq<WindowRecord>,
    pub user_values: Seq<UserCell>,
    pub queue: Seq<MSG>,
    pub last_error: DWORD,
    pub next_atom: ATOM,
    pub next_hwnd: HWND,
    pub next_addr: usize,
    pub paints_begun: u64,
    pub paints_ended: u64,
}

impl View for System {
    type V = SystemView;

    open spec fn view(&self) -> SystemView {
        SystemView {
            classes: self.classes@.map_values(|c: ClassEntry| c@),
            windows: self.windows@,
            user_values: self.user_values@,
            queue: self.queue@,
            last_error: self.last_error,
            next_atom: self.next_atom,
            next_hwnd: self.next_hwnd,
            next_addr: self.next_addr,
            paints_begun: self.paints_begun,
            paints_ended: self.paints_ended,
        }
    }
}

impl SystemView {
    /// The state a fresh thread starts from: nothing registered, nothing
    /// created, no error recorded, an empty queue.
    pub open spec fn initial() -> SystemView {
        SystemView {
            classes: Seq::empty(),
            windows: Seq::empty(),
            user_values: Seq::empty(),
            queue: Seq::empty(),
            last_error: 0,
            next_atom: 1,
            next_hwnd: 1,
            next_addr: 1,
            paints_begun: 0,
            paints_ended: 0,
        }
    }

    /// Well-formedness: identifiers are nonzero, unique, and below their
    /// allocation counters, and no paint operation has ended before it
    /// began.
    pub open spec fn wf(self) -> bool {
        &&& forall|i: int, j: int|
            0 <= i < j < self.classes.len() ==> (#[trigger] self.classes[i]).name != (
            #[trigger] self.classes[j]).name
        &&& forall|i: int|
            0 <= i < self.classes.len() ==> 0 < (#[trigger] self.classes[i]).atom < self.next_atom
        &&& forall|i: int, j: int|
            0 <= i < j < self.windows.len() ==> (#[trigger] self.windows[i]).hwnd != (
            #[trigger] self.windows[j]).hwnd
        &&& forall|i: int|
            0 <= i < self.windows.len() ==> 0 < (#[trigger] self.windows[i]).hwnd < self.next_hwnd
        &&& forall|i: int, j: int|
            0 <= i < j < self.user_values.len() ==> (#[trigger] self.user_values[i]).addr != (
            #[trigger] self.user_values[j]).addr
        &&& forall|i: int|
            0 <= i < self.user_values.len() ==> 0 < (#[trigger] self.user_values[i]).addr
                < self.next_addr
        &&& self.paints_ended <= self.paints_begun
        &&& 1 <= self.next_atom
        &&& 1 <= self.next_hwnd
        &&& 1 <= self.next_addr
    }

    /// Whether a class of this name has been registered.
    pub open spec fn is_registered(self, name: Seq<WCHAR>) -> bool {
        exists|i: int| 0 <= i < self.classes.len() && (#[trigger] self.classes[i]).name == name
    }

    /// The index of the class registered under this name.
    pub open spec fn class_idx(self, name: Seq<WCHAR>) -> int {
        choose|i: int| 0 <= i < self.classes.len() && (#[trigger] self.classes[i]).name == name
    }

    /// The identifier the class of this name was registered under.
    pub open spec fn class_atom(self, name: Seq<WCHAR>) -> ATOM {
        self.classes[self.class_idx(name)].atom
    }

    /// Whether this handle denotes a window the system has ever created.
    pub open spec fn has_window(self, hwnd: HWND) -> bool {
        exists|i: int| 0 <= i < self.windows.len() && (#[trigger] self.windows[i]).hwnd == hwnd
    }

    /// The index of the window record this handle denotes.
    pub open spec fn win_idx(self, hwnd: HWND) -> int {
        choose|i: int| 0 <= i < self.windows.len() && (#[trigger] self.windows[i]).hwnd == hwnd
    }

    /// Whether this handle denotes a window that has not been destroyed.
    pub open spec fn has_live_window(self, hwnd: HWND) -> bool {
        &&& self.has_window(hwnd)
        &&& self.windows[self.win_idx(hwnd)].alive
    }

    /// The user-slot word of the window this handle denotes.
    pub open spec fn window_user_value(self, hwnd: HWND) -> LONG_PTR {
        self.windows[self.win_idx(hwnd)].userdata
    }

    /// Whether an owned user value lives at this address.
    pub open spec fn user_live(self, addr: usize) -> bool {
        exists|i: int|
            0 <= i < self.user_values.len() && (#[trigger] self.user_values[i]).addr == addr
                && self.user_values[i].live
    }

    /// Whether a user value was ever allocated at this address.
    pub open spec fn has_cell(self, addr: usize) -> bool {
        exists|i: int|
            0 <= i < self.user_values.len() && (#[trigger] self.user_values[i]).addr == addr
    }

    /// The index of the user-value cell at this address.
    pub open spec fn cell_idx(self, addr: usize) -> int {
        choose|i: int|
            0 <= i < self.user_values.len() && (#[trigger] self.user_values[i]).addr == addr
    }

    /// The integer held by the user value at this address.
    pub open spec fn user_value(self, addr: usize) -> i32 {
        self.user_values[self.cell_idx(addr)].value
    }

    /// The same state with the thread-local error code replaced.
    pub open spec fn with_error(self, code: DWORD) -> SystemView {
        SystemView { last_error: code, ..self }
    }

    /// The same state with the message queue replaced.
    pub open spec fn with_queue(self, q: Seq<MSG>) -> SystemView {
        SystemView { queue: q, ..self }
    }

    /// The same state with the window records replaced.
    pub open spec fn with_windows(self, w: Seq<WindowRecord>) -> SystemView {
        SystemView { windows: w, ..self }
    }

    /// The same state with the user-value table replaced.
    pub open spec fn with_user_values(self, u: Seq<UserCell>) -> SystemView {
        SystemView { user_values: u, ..self }
    }
}

/// In a well-formed state, a window record's index is determined by its
/// handle.
pub proof fn lemma_win_idx(s: SystemView, i: int)
    requires
        s.wf(),
        0 <= i < s.windows.len(),
    ensures
        s.has_window(s.windows[i].hwnd),
        s.win_idx(s.windows[i].hwnd) == i,
{
    let h = s.windows[i].hwnd;
    assert(s.has_window(h));
    let k = s.win_idx(h);
    if k < i {
        assert(s.windows[k].hwnd != s.windows[i].hwnd);
    } else if i < k {
        assert(s.windows[i].hwnd != s.windows[k].hwnd);
    }
}

/// In a well-formed state, a class record's index is determined by its
/// name.
pub proof fn lemma_class_idx(s: SystemView, i: int)
    requires
        s.wf(),
        0 <= i < s.classes.len(),
    ensures
        s.is_registered(s.classes[i].name),
        s.class_idx(s.classes[i].name) == i,
{
    let n = s.classes[i].name;
    assert(s.is_registered(n));
    let k = s.class_idx(n);
    if k < i {
        assert(s.classes[k].name != s.classes[i].name);
    } else if i < k {
        assert(s.classes[i].name != s.classes[k].name);
    }
}

/// In a well-formed state, a user-value cell's index is determined by its
/// address.
pub proof fn lemma_cell_idx(s: SystemView, i: int)
    requires
        s.wf(),
        0 <= i < s.user_values.len(),
    ensures
        s.has_cell(s.user_values[i].addr),
        s.cell_idx(s.user_values[i].addr) == i,
{
    let a = s.user_values[i].addr;
    assert(s.has_cell(a));
    let k = s.cell_idx(a);
    if k < i {
        assert(s.user_values[k].addr != s.user_values[i].addr);
    } else if i < k {
        assert(s.user_values[i].addr != s.user_values[k].addr);
    }
}

impl System {
    /// A fresh thread's state.
    pub fn new() -> (s: System)
        ensures
            s@ == SystemView::initial(),
            s@.wf(),
    {
        let s = System {
            classes: Vec::new(),
            windows: Vec::new(),
            user_values: Vec::new(),
            queue: Vec::new(),
            last_error: 0,
            next_atom: 1,
            next_hwnd: 1,
            next_addr: 1,
            paints_begun: 0,
            paints_ended: 0,
        };
        proof {
            assert(s@ =~~= SystemView::initial());
        }
        s
    }

    /// Finds the class registered under `name`, if any.
    pub fn find_class(&self, name: &Vec<WCHAR>) -> (r: Option<usize>)
        ensures
            (r matches Some(i) ==> i < self.classes.len() && self@.classes[i as int].name
                == name@),
            r is None ==> !self@.is_registered(name@),
    {
        let n = self.classes.len();
        let mut i: usize = 0;
        while i < n
            invariant
                i <= n,
                n == self.classes.len(),
                forall|j: int| 0 <= j < i ==> (#[trigger] self@.classes[j]).name != name@,
            decreases n - i,
        {
            if crate::utils::wide_eq(&self.classes[i].name, name) {
                return Some(i);
            }
            i += 1;
        }
        None
    }

    /// Finds the record of the window this handle denotes, if any.
    pub fn find_window(&self, hwnd: HWND) -> (r: Option<usize>)
        ensures
            (r matches Some(i) ==> i < self.windows.len() && self@.windows[i as int].hwnd
                == hwnd),
            r is None ==> !self@.has_window(hwnd),
    {
        let n = self.windows.len();
        let mut i: usize = 0;
        while i < n
            invariant
                i <= n,
                n == self.windows.len(),
                forall|j: int| 0 <= j < i ==> (#[trigger] self@.windows[j]).hwnd != hwnd,
            decreases n - i,
        {
            if self.windows[i].hwnd == hwnd {
                return Some(i);
            }
            i += 1;
        }
        None
    }

    /// Finds the user-value cell at this address, if any.
    pub fn find_user_cell(&self, addr: usize) -> (r: Option<usize>)
        ensures
            (r matches Some(i) ==> i < self.user_values.len() && self@.user_values[i as int].addr
                == addr),
            r is None ==> !self@.has_cell(addr),
    {
        let n = self.user_values.len();
        let mut i: usize = 0;
        while i < n
            invariant
                i <= n,
                n == self.user_values.len(),
                forall|j: int| 0 <= j < i ==> (#[trigger] self@.user_values[j]).addr != addr,
            decreases n - i,
        {
            if self.user_values[i].addr == addr {
                return Some(i);
            }
            i += 1;
        }
        None
    }

    /// Places a message at the back of the thread's queue, as the
    /// operating system does when it has work for this thread.
    pub fn enqueue_message(&mut self, msg: MSG)
        ensures
            final(self)@ == old(self)@.with_queue(old(self)@.queue.push(msg)),
            old(self)@.wf() ==> final(self)@.wf(),
    {
        self.queue.push(msg);
        proof {
            assert(self@ =~~= old(self)@.with_queue(old(self)@.queue.push(msg)));
        }
    }

    /// Allocates a fresh owned user value holding `value`, returning the
    /// address under which it is handed across the interface.
    ///
    /// Models the host allocation made immediately before window creation.
    pub fn alloc_user_value(&mut self, value: i32) -> (addr: usize)
        requires
            old(self)@.wf(),
            old(self)@.next_addr < usize::MAX,
        ensures
            final(self)@.wf(),
            addr == old(self)@.next_addr,
            addr != 0,
            !old(self)@.has_cell(addr),
            final(self)@.user_live(addr),
            final(self)@.user_value(addr) == value,
            final(self)@ == (SystemView {
                user_values: old(self)@.user_values.push(
                    UserCell { addr, value, live: true },
                ),
                next_addr: (old(self)@.next_addr + 1) as usize,
                ..old(self)@
            }),
    {
        let addr = self.next_addr;
        self.user_values.push(UserCell { addr, value, live: true });
        self.next_addr = self.next_addr + 1;
        proof {
            let post = SystemView {
                user_values: old(self)@.user_values.push(UserCell { addr, value, live: true }),
                next_addr: (old(self)@.next_addr + 1) as usize,
                ..old(self)@
            };
            assert(self@ =~~= post);
            let n = self@.user_values.len() - 1;
            assert(self@.user_values[n].addr == addr && self@.user_values[n].live);
            lemma_cell_idx(self@, n);
        }
        addr
    }

    /// Whether an owned user value lives at this address.
    pub fn user_value_live(&self, addr: usize) -> (r: bool)
        requires
            self@.wf(),
        ensures
            r == self@.user_live(addr),
    {
        match self.find_user_cell(addr) {
            Some(i) => {
                proof {
                    lemma_cell_idx(self@, i as int);
                }
                self.user_values[i].live
            },
            None => false,
        }
    }

    /// Reads the user value at this address.
    pub fn read_user_value(&self, addr: usize) -> (r: i32)
        requires
            self@.wf(),
            self@.user_live(addr),
        ensures
            r == self@.user_value(addr),
    {
        match self.find_user_cell(addr) {
            Some(i) => {
                proof {
                    lemma_cell_idx(self@, i as int);
                }
                self.user_values[i].value
            },
            None => {
                proof {
                    assert(self@.has_cell(addr));
                }
                // unreachable: a live value has a cell
                0
            },
        }
    }

    /// Replaces the user value at this address.
    pub fn write_user_value(&mut self, addr: usize, value: i32)
        requires
            old(self)@.wf(),
            old(self)@.user_live(addr),
        ensures
            final(self)@.wf(),
            final(self)@.user_live(addr),
            final(self)@.user_value(addr) == value,
            final(self)@ == old(self)@.with_user_values(
                old(self)@.user_values.update(
                    old(self)@.cell_idx(addr),
                    UserCell { value, ..old(self)@.user_values[old(self)@.cell_idx(addr)] },
                ),
            ),
    {
        match self.find_user_cell(addr) {
            Some(i) => {
                proof {
                    lemma_cell_idx(old(self)@, i as int);
                }
                let old_cell = self.user_values[i];
                self.user_values.set(i, UserCell { value, ..old_cell });
                proof {
                    let k = old(self)@.cell_idx(addr);
                    assert(self@ =~~= old(self)@.with_user_values(
                        old(self)@.user_values.update(
                            k,
                            UserCell { value, ..old(self)@.user_values[k] },
                        ),
                    ));
                    assert(self@.user_values[k].addr == addr && self@.user_values[k].live);
                    lemma_cell_idx(self@, k);
                }
            },
            None => {
                proof {
                    assert(old(self)@.has_cell(addr));
                }
            },
        }
    }

    /// Reclaims the owned user value at this address. A value can be
    /// reclaimed only while it lives, so reclaiming twice is ruled out.
    pub fn free_user_value(&mut self, addr: usize)
        requires
            old(self)@.wf(),
            old(self)@.user_live(addr),
        ensures
            final(self)@.wf(),
            !final(self)@.user_live(addr),
            final(self)@ == old(self)@.with_user_values(
                old(self)@.user_values.update(
                    old(self)@.cell_idx(addr),
                    UserCell { live: false, ..old(self)@.user_values[old(self)@.cell_idx(addr)] },
                ),
            ),
    {
        match self.find_user_cell(addr) {
            Some(i) => {
                proof {
                    lemma_cell_idx(old(self)@, i as int);
                }
                let old_cell = self.user_values[i];
                self.user_values.set(i, UserCell { live: false, ..old_cell });
                proof {
                    let k = old(self)@.cell_idx(addr);
                    assert(self@ =~~= old(self)@.with_user_values(
                        old(self)@.user_values.update(
                            k,
                            UserCell { live: false, ..old(self)@.user_values[k] },
                        ),
                    ));
                    assert forall|j: int|
                        0 <= j < self@.user_values.len() && (#[trigger] self@.user_values[j]).addr
                            == addr implies !self@.user_values[j].live by {
                        if j != k {
                            lemma_cell_idx(old(self)@, j);
                        }
                    }
                }
            },
            None => {
                proof {
                    assert(old(self)@.has_cell(addr));
                }
            },
        }
    }
}

} // verus!
