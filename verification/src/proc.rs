//! The window-procedure state machine: the single entry point invoked
//! synchronously for every event targeting a window, together with the
//! dispatch step that drives it.
//!
//! The procedure owns the per-window user value across the window's
//! lifetime. On the creation notification it installs the creation
//! parameter as the window's user value (or rejects creation when the
//! parameter is absent); on a close request it asks for destruction; on
//! the destruction notification it reclaims the user value exactly once
//! and requests loop termination; on a paint request it increments the
//! user value and fills the region inside one scoped paint bracket; every
//! other event is forwarded to the default handler.

use vstd::prelude::*;
use crate::types::{BOOL, HWND, LPARAM, LRESULT, WPARAM};
use crate::window::{MSG, RECT, SysColor, WM_CLOSE, WM_CREATE, WM_DESTROY, WM_NCCREATE, WM_PAINT,
    WM_QUIT};
use crate::system::{lemma_win_idx, System, SystemView, UserCell, WindowRecord};
use crate::wrapper::{
    get_userdata_transition, get_window_userdata, paint_bracket_view, paint_window,
    post_quit_message, quit_message, set_userdata_transition, set_window_userdata,
    Win32Error, WrapperError, ERROR_INVALID_WINDOW_HANDLE,
};

verus! {

/// A window procedure that handles nothing: every event yields zero.
pub fn dummy_window_procedure(hwnd: HWND, msg: u32, wparam: WPARAM, lparam: LPARAM) -> (r:
    LRESULT)
    ensures
        r == 0,
{
    0
}

/// The default event handler the procedure forwards unhandled events to.
/// The model's default handling changes nothing and yields zero.
pub fn def_window_proc(hwnd: HWND, msg: u32, wparam: WPARAM, lparam: LPARAM) -> (r: LRESULT)
    ensures
        r == 0,
{
    0
}

/// The user value after one paint-time increment, wrapping at the numeric
/// limit so the procedure never panics.
pub open spec fn wrap_inc(v: i32) -> i32 {
    if v == i32::MAX {
        i32::MIN
    } else {
        (v + 1) as i32
    }
}

/// Termination rank of an event: a close request is the one event whose
/// handling synchronously raises another (the destruction notification).
pub open spec fn wnd_msg_rank(msg: u32) -> int {
    if msg == WM_CLOSE {
        2
    } else {
        1
    }
}

/// The user-value table after the destruction notification reclaimed the
/// value the user slot points at — only if that slot holds a positive
/// word naming a live value, so a repeated notification reclaims nothing.
pub open spec fn reclaim_user_value(s: SystemView, got: Result<isize, Win32Error>) -> SystemView {
    match got {
        Ok(ud) => if ud > 0 && s.user_live(ud as usize) {
            s.with_user_values(
                s.user_values.update(
                    s.cell_idx(ud as usize),
                    UserCell { live: false, ..s.user_values[s.cell_idx(ud as usize)] },
                ),
            )
        } else {
            s
        },
        Err(_) => s,
    }
}

/// The user-value table after the paint-time read-and-increment of the
/// value the user slot points at, if it names a live value.
pub open spec fn increment_user_value(s: SystemView, got: Result<isize, Win32Error>) -> SystemView {
    match got {
        Ok(ud) => if ud > 0 && s.user_live(ud as usize) {
            s.with_user_values(
                s.user_values.update(
                    s.cell_idx(ud as usize),
                    UserCell {
                        value: wrap_inc(s.user_value(ud as usize)),
                        ..s.user_values[s.cell_idx(ud as usize)]
                    },
                ),
            )
        } else {
            s
        },
        Err(_) => s,
    }
}

/// The effect of one scoped paint bracket on a window: on a live window
/// both bracket counters advance and the fill succeeds; otherwise the
/// invalid-handle error is recorded.
pub open spec fn paint_bracket_transition(s: SystemView, hwnd: HWND) -> (SystemView, Result<
    (),
    WrapperError,
>) {
    if s.has_live_window(hwnd) {
        (paint_bracket_view(s), Ok(()))
    } else {
        (
            s.with_error(ERROR_INVALID_WINDOW_HANDLE),
            Err(WrapperError::OperationFailed(Win32Error(ERROR_INVALID_WINDOW_HANDLE))),
        )
    }
}

/// The window procedure as a transition: from the system state and one
/// event to the next state and the procedure's result word. The result's
/// meaning depends on the event: the acceptance flag for the creation
/// notification, zero for events the procedure fully handles, the default
/// handler's result for forwarded events.
pub open spec fn wndproc_transition(
    s: SystemView,
    hwnd: HWND,
    msg: u32,
    wparam: WPARAM,
    lparam: LPARAM,
) -> (SystemView, LRESULT)
    decreases wnd_msg_rank(msg), 0int,
{
    if msg == WM_NCCREATE {
        // install the creation parameter as the user value; reject
        // creation when it is absent
        if lparam == 0 {
            (s, 0)
        } else {
            let (s1, res) = set_userdata_transition(s, hwnd, lparam);
            (s1, if res is Ok { 1int as LRESULT } else { 0 })
        }
    } else if msg == WM_CREATE {
        (s, 0)
    } else if msg == WM_CLOSE {
        let (s1, _destroyed) = destroy_transition(s, hwnd);
        (s1, 0)
    } else if msg == WM_DESTROY {
        // reclaim the user value exactly once, then request termination
        let (s1, got) = get_userdata_transition(s, hwnd);
        let s2 = reclaim_user_value(s1, got);
        (s2.with_queue(s2.queue.push(quit_message(0))), 0)
    } else if msg == WM_PAINT {
        // read and increment the user value, then fill inside one bracket
        let (s1, got) = get_userdata_transition(s, hwnd);
        let s2 = increment_user_value(s1, got);
        let (s3, _painted) = paint_bracket_transition(s2, hwnd);
        (s3, 0)
    } else {
        // default handling
        (s, 0)
    }
}

/// The procedure never removes a window record nor changes which handle
/// a record carries: it only rewrites slots, tables, counters and flags.
pub proof fn lemma_wndproc_keeps_records(
    s: SystemView,
    hwnd: HWND,
    msg: u32,
    wparam: WPARAM,
    lparam: LPARAM,
)
    ensures
        ({
            let post = wndproc_transition(s, hwnd, msg, wparam, lparam).0;
            post.windows.len() == s.windows.len() && forall|i: int|
                0 <= i < s.windows.len() ==> (#[trigger] post.windows[i]).hwnd
                    == s.windows[i].hwnd
        }),
    decreases wnd_msg_rank(msg), 2int,
{
    if msg == WM_CLOSE && s.has_live_window(hwnd) {
        lemma_wndproc_keeps_records(s, hwnd, WM_DESTROY, 0, 0);
    }
}

/// The effect of destroying a window: on a live window the destruction
/// notification is delivered synchronously through the procedure, then
/// the window dies; on anything else the invalid-handle error is
/// recorded.
pub open spec fn destroy_transition(s: SystemView, hwnd: HWND) -> (SystemView, BOOL)
    decreases 1int, 1int,
{
    if !s.has_live_window(hwnd) {
        (s.with_error(ERROR_INVALID_WINDOW_HANDLE), 0)
    } else {
        let (s1, _r) = wndproc_transition(s, hwnd, WM_DESTROY, 0, 0);
        (
            s1.with_windows(
                s1.windows.update(
                    s1.win_idx(hwnd),
                    WindowRecord { alive: false, ..s1.windows[s1.win_idx(hwnd)] },
                ),
            ),
            1,
        )
    }
}

/// The window procedure. Invoked synchronously, on the owning thread, for
/// every event targeting the window; its result word follows the
/// per-event convention of [`wndproc_transition`].
pub fn window_procedure(
    sys: &mut System,
    hwnd: HWND,
    msg: u32,
    wparam: WPARAM,
    lparam: LPARAM,
) -> (r: LRESULT)
    requires
        old(sys)@.wf(),
        old(sys)@.paints_begun < u64::MAX,
    ensures
        final(sys)@.wf(),
        (final(sys)@, r) == wndproc_transition(old(sys)@, hwnd, msg, wparam, lparam),
    decreases wnd_msg_rank(msg), 0int,
{
    if msg == WM_NCCREATE {
        if lparam == 0 {
            return 0;
        }
        let res = set_window_userdata(sys, hwnd, lparam);
        if res.is_ok() {
            1
        } else {
            0
        }
    } else if msg == WM_CREATE {
        0
    } else if msg == WM_CLOSE {
        let _destroyed = destroy_window(sys, hwnd);
        0
    } else if msg == WM_DESTROY {
        let got = get_window_userdata(sys, hwnd);
        match got {
            Ok(ud) => {
                if ud > 0 {
                    let addr = ud as usize;
                    if sys.user_value_live(addr) {
                        sys.free_user_value(addr);
                    }
                }
            },
            Err(_) => {},
        }
        proof {
            assert(sys@ == reclaim_user_value(
                get_userdata_transition(old(sys)@, hwnd).0,
                get_userdata_transition(old(sys)@, hwnd).1,
            ));
        }
        post_quit_message(sys, 0);
        0
    } else if msg == WM_PAINT {
        let got = get_window_userdata(sys, hwnd);
        match got {
            Ok(ud) => {
                if ud > 0 {
                    let addr = ud as usize;
                    if sys.user_value_live(addr) {
                        let v = sys.read_user_value(addr);
                        let bumped: i32 = if v == i32::MAX {
                            i32::MIN
                        } else {
                            v + 1
                        };
                        sys.write_user_value(addr, bumped);
                    }
                }
            },
            Err(_) => {},
        }
        proof {
            assert(sys@ == increment_user_value(
                get_userdata_transition(old(sys)@, hwnd).0,
                get_userdata_transition(old(sys)@, hwnd).1,
            ));
        }
        let painter = |hdc: usize, _erase: bool, rect: RECT| -> (pr: Result<(), WrapperError>)
            ensures
                pr == Ok::<(), WrapperError>(()),
            {
                let _filled = crate::wrapper::fill_rect_with_sys_color(
                    hdc,
                    &rect,
                    SysColor::Window,
                );
                Ok(())
            };
        let _painted = paint_window(sys, hwnd, painter);
        0
    } else {
        def_window_proc(hwnd, msg, wparam, lparam)
    }
}

/// Asks the system to destroy a window: delivers the destruction
/// notification synchronously through the procedure, then invalidates the
/// handle. Does not itself terminate the message loop.
pub fn destroy_window(sys: &mut System, hwnd: HWND) -> (r: BOOL)
    requires
        old(sys)@.wf(),
        old(sys)@.paints_begun < u64::MAX,
    ensures
        final(sys)@.wf(),
        (final(sys)@, r) == destroy_transition(old(sys)@, hwnd),
    decreases 1int, 1int,
{
    let found = sys.find_window(hwnd);
    let mut live_idx: Option<usize> = None;
    match found {
        Some(i) => {
            if sys.windows[i].alive {
                live_idx = Some(i);
            } else {
                proof {
                    lemma_win_idx(old(sys)@, i as int);
                }
            }
        },
        None => {},
    }
    match live_idx {
        None => {
            sys.last_error = ERROR_INVALID_WINDOW_HANDLE;
            proof {
                assert(!old(sys)@.has_live_window(hwnd));
                assert(sys@ =~~= old(sys)@.with_error(ERROR_INVALID_WINDOW_HANDLE));
            }
            0
        },
        Some(i) => {
            proof {
                lemma_win_idx(old(sys)@, i as int);
            }
            let _r = window_procedure(sys, hwnd, WM_DESTROY, 0, 0);
            let refound = sys.find_window(hwnd);
            match refound {
                Some(k) => {
                    proof {
                        lemma_win_idx(sys@, k as int);
                    }
                    let rec = sys.windows[k];
                    sys.windows.set(k, WindowRecord { alive: false, ..rec });
                    proof {
                        assert(sys@ =~~= destroy_transition(old(sys)@, hwnd).0);
                    }
                },
                None => {
                    proof {
                        let s1 = wndproc_transition(old(sys)@, hwnd, WM_DESTROY, 0, 0).0;
                        assert(s1.windows == old(sys)@.windows);
                        assert(old(sys)@.has_window(hwnd));
                        assert(false);  // the destruction notification keeps the record
                    }
                },
            }
            1
        },
    }
}

/// The dispatch step: hands a queued message to the procedure of the
/// window it targets; a thread-level message (no target window) is
/// consumed without effect.
pub open spec fn dispatch_transition(s: SystemView, m: MSG) -> (SystemView, LRESULT) {
    if m.hwnd == 0 {
        (s, 0)
    } else {
        wndproc_transition(s, m.hwnd, m.message, m.wParam, m.lParam)
    }
}

/// Forwards a retrieved message to the procedure of the window it
/// targets, returning that procedure's result word.
pub fn dispatch_message(sys: &mut System, msg: &MSG) -> (r: LRESULT)
    requires
        old(sys)@.wf(),
        old(sys)@.paints_begun < u64::MAX,
    ensures
        final(sys)@.wf(),
        (final(sys)@, r) == dispatch_transition(old(sys)@, *msg),
{
    if msg.hwnd == 0 {
        0
    } else {
        window_procedure(sys, msg.hwnd, msg.message, msg.wParam, msg.lParam)
    }
}

// ---------------------------------------------------------------------
// The message loop.
// ---------------------------------------------------------------------

/// The outcome of one turn of the message loop.
#[derive(Clone, Copy, PartialEq, Eq, Structural, Debug)]
pub enum LoopStep {
    /// The queue is empty: the native retrieval call would block.
    WouldBlock,
    /// The queue-closing sentinel arrived; its payload is the process
    /// exit code.
    Exit(i32),
    /// An ordinary message was translated and dispatched, yielding the
    /// procedure's result word.
    Dispatched(LRESULT),
}

/// One turn of the message loop: retrieve the next message; terminate
/// with the carried exit code if it is the queue-closing sentinel — never
/// conflated with an error — and otherwise translate and dispatch it.
pub open spec fn step_transition(s: SystemView) -> (SystemView, LoopStep) {
    if s.queue.len() == 0 {
        (s, LoopStep::WouldBlock)
    } else {
        let m = s.queue[0];
        let s1 = s.with_queue(s.queue.drop_first());
        if m.message == WM_QUIT {
            (s1, LoopStep::Exit(m.wParam as i32))
        } else {
            let (s2, lr) = dispatch_transition(s1, m);
            (s2, LoopStep::Dispatched(lr))
        }
    }
}

/// The message loop, bounded by the number of turns it may take: it ends
/// with the exit code of the queue-closing sentinel, or with nothing when
/// the queue drains or the bound runs out first.
pub open spec fn run_loop_transition(s: SystemView, fuel: nat) -> (SystemView, Option<i32>)
    decreases fuel,
{
    if fuel == 0 {
        (s, None)
    } else {
        let (s1, step) = step_transition(s);
        match step {
            LoopStep::WouldBlock => (s1, None),
            LoopStep::Exit(c) => (s1, Some(c)),
            LoopStep::Dispatched(_lr) => run_loop_transition(s1, (fuel - 1) as nat),
        }
    }
}

/// The state after `k` turns of the loop, each turn taken whatever it
/// yielded.
pub open spec fn loop_state_after(s: SystemView, k: nat) -> SystemView
    decreases k,
{
    if k == 0 {
        s
    } else {
        step_transition(loop_state_after(s, (k - 1) as nat)).0
    }
}

/// One event raises the open-bracket counter at most once.
pub proof fn lemma_wndproc_paints(s: SystemView, hwnd: HWND, msg: u32, wparam: WPARAM,
    lparam: LPARAM)
    ensures
        wndproc_transition(s, hwnd, msg, wparam, lparam).0.paints_begun <= s.paints_begun + 1,
    decreases wnd_msg_rank(msg), 2int,
{
    if msg == WM_CLOSE && s.has_live_window(hwnd) {
        lemma_wndproc_paints(s, hwnd, WM_DESTROY, 0, 0);
    }
}

/// Performs one turn of the message loop.
pub fn message_loop_step(sys: &mut System) -> (r: LoopStep)
    requires
        old(sys)@.wf(),
        old(sys)@.paints_begun < u64::MAX,
    ensures
        final(sys)@.wf(),
        (final(sys)@, r) == step_transition(old(sys)@),
        final(sys)@.paints_begun <= old(sys)@.paints_begun + 1,
{
    if sys.queue.len() == 0 {
        return LoopStep::WouldBlock;
    }
    let got = crate::wrapper::get_any_message(sys);
    let msg = match got {
        Ok(m) => m,
        Err(_) => {
            proof {
                // retrieval from a nonempty queue always yields a message
                assert(false);
            }
            return LoopStep::WouldBlock;
        },
    };
    let ghost mid: SystemView = sys@;
    proof {
        assert(mid == old(sys)@.with_queue(old(sys)@.queue.drop_first()));
    }
    if msg.message == crate::window::WM_QUIT {
        return LoopStep::Exit(#[verifier::truncate] (msg.wParam as i32));
    }
    let _translated = crate::wrapper::translate_message(&msg);
    let lr = dispatch_message(sys, &msg);
    proof {
        if msg.hwnd != 0 {
            lemma_wndproc_paints(mid, msg.hwnd, msg.message, msg.wParam, msg.lParam);
        }
    }
    LoopStep::Dispatched(lr)
}

/// Runs the blocking retrieve–translate–dispatch loop for at most `fuel`
/// turns. Returns the exit code carried by the queue-closing sentinel
/// when that sentinel arrives; returns nothing when the queue drains (the
/// native loop would block) or the bound runs out.
pub fn run_message_loop(sys: &mut System, fuel: u64) -> (r: Option<i32>)
    requires
        old(sys)@.wf(),
        old(sys)@.paints_begun + fuel <= u64::MAX,
    ensures
        final(sys)@.wf(),
        (final(sys)@, r) == run_loop_transition(old(sys)@, fuel as nat),
{
    let mut remaining: u64 = fuel;
    loop
        invariant
            sys@.wf(),
            sys@.paints_begun + remaining <= u64::MAX,
            remaining <= fuel,
            run_loop_transition(old(sys)@, fuel as nat) == run_loop_transition(
                sys@,
                remaining as nat,
            ),
        decreases remaining,
    {
        if remaining == 0 {
            return None;
        }
        let ghost pre: SystemView = sys@;
        let step = message_loop_step(sys);
        match step {
            LoopStep::WouldBlock => {
                return None;
            },
            LoopStep::Exit(c) => {
                return Some(c);
            },
            LoopStep::Dispatched(_lr) => {
                proof {
                    assert(run_loop_transition(pre, remaining as nat) == run_loop_transition(
                        sys@,
                        (remaining - 1) as nat,
                    ));
                }
                remaining = remaining - 1;
            },
        }
    }
}

} // verus!
