//! The guarantees of the wrapper and the window-procedure state machine,
//! stated over the specification-level transitions and proved once for
//! every state: registration is exclusive, creation demands a registered
//! class, the user value is installed at creation and reclaimed exactly
//! once at destruction, the zero-return ambiguity is resolved as the
//! interface demands, and the message loop terminates on the
//! queue-closing sentinel with exactly its payload.

use vstd::prelude::*;
use crate::types::{c_int, HWND, LONG_PTR, WCHAR};
use crate::window::{IDCursor, WM_DESTROY, WM_QUIT};
use crate::system::{lemma_cell_idx, lemma_win_idx, SystemView};
use crate::wrapper::{
    create_window_transition, quit_message, register_transition, set_userdata_transition,
    spec_cursor_handle, Win32Error, WrapperError, ERROR_CANNOT_FIND_WND_CLASS,
    ERROR_CLASS_ALREADY_EXISTS, ERROR_INVALID_WINDOW_HANDLE,
};
use crate::proc::{
    destroy_transition, loop_state_after, run_loop_transition, step_transition,
    wndproc_transition, LoopStep,
};

verus! {

/// Every predefined cursor shape is served under a non-null handle:
/// loading never hands back null without surfacing an error.
pub proof fn lemma_cursor_handles_nonnull(cursor: IDCursor)
    ensures
        spec_cursor_handle(cursor) != 0,
{
}

/// Registering a class name a second time yields the already-registered
/// error, not a second live identifier, and registers nothing new —
/// whatever the first attempt returned.
pub proof fn lemma_register_twice(s: SystemView, name: Seq<WCHAR>)
    ensures
        ({
            let (s1, _r1) = register_transition(s, name);
            let (s2, r2) = register_transition(s1, name);
            &&& r2 == Err::<u16, WrapperError>(
                WrapperError::RegistrationFailed(Win32Error(ERROR_CLASS_ALREADY_EXISTS)),
            )
            &&& s2.classes == s1.classes
        }),
{
    let (s1, _r1) = register_transition(s, name);
    if !s.is_registered(name) {
        assert(s1.classes[s1.classes.len() - 1].name == name);
        assert(s1.is_registered(name));
    }
}

/// Creating a window whose class name was never registered fails with
/// the creation error carrying the cannot-find-class code, and creates
/// nothing.
pub proof fn lemma_create_unregistered(
    s: SystemView,
    name: Seq<WCHAR>,
    width: c_int,
    height: c_int,
    param: usize,
)
    requires
        !s.is_registered(name),
    ensures
        ({
            let (s2, r) = create_window_transition(s, name, width, height, param);
            &&& r == Err::<usize, WrapperError>(
                WrapperError::WindowCreationFailed(Win32Error(ERROR_CANNOT_FIND_WND_CLASS)),
            )
            &&& s2.windows == s.windows
        }),
{
}

/// Creating a window with a creation parameter installs that parameter
/// as the new window's user value — the install happens during the
/// creation notification, exactly once, before creation returns.
pub proof fn lemma_create_installs_user_value(
    s: SystemView,
    name: Seq<WCHAR>,
    width: c_int,
    height: c_int,
    param: usize,
)
    requires
        s.wf(),
        s.is_registered(name),
        param != 0,
        s.next_hwnd < usize::MAX,
    ensures
        ({
            let (s2, r) = create_window_transition(s, name, width, height, param);
            &&& r == Ok::<HWND, WrapperError>(s.next_hwnd)
            &&& s2.has_live_window(s.next_hwnd)
            &&& s2.window_user_value(s.next_hwnd) == param as isize
            &&& s2.user_values == s.user_values
        }),
{
    let hwnd = s.next_hwnd;
    let s1 = SystemView {
        windows: s.windows.push(
            crate::system::WindowRecord {
                hwnd,
                atom: s.class_atom(name),
                width,
                height,
                userdata: 0,
                alive: true,
            },
        ),
        next_hwnd: (s.next_hwnd + 1) as usize,
        ..s
    };
    let n = s.windows.len() as int;
    assert forall|i: int, j: int|
        0 <= i < j < s1.windows.len() implies (#[trigger] s1.windows[i]).hwnd != (
    #[trigger] s1.windows[j]).hwnd by {
        if j == n {
            assert(s.windows[i].hwnd < s.next_hwnd);
        }
    }
    assert forall|i: int|
        0 <= i < s1.windows.len() implies 0 < (#[trigger] s1.windows[i]).hwnd
            < s1.next_hwnd by {
        if i < n {
            assert(0 < s.windows[i].hwnd < s.next_hwnd);
        }
    }
    assert(s1.wf());
    lemma_win_idx(s1, n);
    assert(s1.has_live_window(hwnd));
    assert(param as isize != 0) by (bit_vector)
        requires
            param != 0,
    ;
    let s2 = set_userdata_transition(s1, hwnd, param as isize).0;
    assert forall|i: int, j: int|
        0 <= i < j < s2.windows.len() implies (#[trigger] s2.windows[i]).hwnd != (
    #[trigger] s2.windows[j]).hwnd by {
        assert(s2.windows[i].hwnd == s1.windows[i].hwnd);
        assert(s2.windows[j].hwnd == s1.windows[j].hwnd);
    }
    assert forall|i: int|
        0 <= i < s2.windows.len() implies 0 < (#[trigger] s2.windows[i]).hwnd
            < s2.next_hwnd by {
        assert(s2.windows[i].hwnd == s1.windows[i].hwnd);
    }
    assert(s2.wf());
    lemma_win_idx(s2, n);
    assert(s2.windows[n].userdata == param as isize);
}

/// The destruction notification reclaims the live user value the window's
/// slot names, exactly once, invalidates the handle, and requests loop
/// termination by queueing the quit sentinel.
pub proof fn lemma_destroy_reclaims_once(s: SystemView, hwnd: HWND)
    requires
        s.wf(),
        s.has_live_window(hwnd),
        s.window_user_value(hwnd) > 0,
        s.user_live(s.window_user_value(hwnd) as usize),
    ensures
        ({
            let (s2, destroyed) = destroy_transition(s, hwnd);
            let addr = s.window_user_value(hwnd) as usize;
            &&& destroyed == 1
            &&& !s2.user_live(addr)
            &&& !s2.has_live_window(hwnd)
            &&& s2.queue == s.queue.push(quit_message(0))
        }),
{
    let ud = s.window_user_value(hwnd);
    let addr = ud as usize;
    let w = s.win_idx(hwnd);
    let s1 = wndproc_transition(s, hwnd, WM_DESTROY, 0, 0).0;
    let se = s.with_error(0);
    let k = se.cell_idx(addr);
    assert(se.user_live(addr));
    assert(0 <= k < s.user_values.len() && s.user_values[k].addr == addr);
    let reclaimed = crate::proc::reclaim_user_value(se, Ok(ud));
    assert forall|j: int|
        0 <= j < reclaimed.user_values.len() && (#[trigger] reclaimed.user_values[j]).addr
            == addr implies !reclaimed.user_values[j].live by {
        if j != k {
            lemma_cell_idx(s, j);
            lemma_cell_idx(s, k);
        }
    }
    assert(!reclaimed.user_live(addr));
    assert(s1.user_values == reclaimed.user_values);
    let (s2, destroyed) = destroy_transition(s, hwnd);
    assert(s1.windows == s.windows);
    lemma_win_idx(s, w);
    assert(s1.win_idx(hwnd) == w) by {
        assert(s1.windows[w].hwnd == hwnd);
        let k2 = s1.win_idx(hwnd);
        assert(s.windows[k2].hwnd == hwnd);
        if k2 != w {
            lemma_win_idx(s, k2);
        }
    }
    assert(s2.windows == s1.windows.update(w, crate::system::WindowRecord {
        alive: false,
        ..s1.windows[w]
    }));
    assert forall|j: int|
        0 <= j < s2.windows.len() && (#[trigger] s2.windows[j]).hwnd == hwnd implies !s2.windows[j].alive by {
        if j != w {
            lemma_win_idx(s, j);
        }
    }
    assert(!s2.has_live_window(hwnd)) by {
        if s2.has_live_window(hwnd) {
            let k3 = s2.win_idx(hwnd);
            assert(s2.windows[k3].hwnd == hwnd && s2.windows[k3].alive);
        }
    }
}

/// A destruction request for a handle that no longer denotes a live
/// window is rejected and reclaims nothing: no value can be freed twice
/// through the procedure.
pub proof fn lemma_destroy_dead_handle(s: SystemView, hwnd: HWND)
    requires
        !s.has_live_window(hwnd),
    ensures
        destroy_transition(s, hwnd) == (s.with_error(ERROR_INVALID_WINDOW_HANDLE), 0i32),
        destroy_transition(s, hwnd).0.user_values == s.user_values,
{
}

/// Even a destruction notification delivered directly for a window whose
/// user value was already reclaimed reclaims nothing again.
pub proof fn lemma_no_double_reclaim(s: SystemView, hwnd: HWND)
    requires
        s.has_live_window(hwnd) ==> !s.user_live(s.window_user_value(hwnd) as usize),
    ensures
        wndproc_transition(s, hwnd, WM_DESTROY, 0, 0).0.user_values == s.user_values,
{
}

/// The zero-return ambiguity of the user-slot operations, resolved: on a
/// live window with an empty slot both the read and the write succeed
/// with "no previous value" and a clear error code; without a live window
/// the zero return comes with a nonzero error code and is a genuine
/// error. The two cases are never conflated.
pub proof fn lemma_userdata_zero_ambiguity(s: SystemView, hwnd: HWND, ptr: LONG_PTR)
    ensures
        s.has_live_window(hwnd) && s.window_user_value(hwnd) == 0 ==> {
            &&& set_userdata_transition(s, hwnd, ptr).1 == Ok::<LONG_PTR, Win32Error>(0isize)
            &&& set_userdata_transition(s, hwnd, ptr).0.last_error == 0
            &&& crate::wrapper::get_userdata_transition(s, hwnd).1 == Ok::<
                LONG_PTR,
                Win32Error,
            >(0isize)
            &&& crate::wrapper::get_userdata_transition(s, hwnd).0.last_error == 0
        },
        !s.has_live_window(hwnd) ==> {
            &&& set_userdata_transition(s, hwnd, ptr).1 == Err::<LONG_PTR, Win32Error>(
                Win32Error(ERROR_INVALID_WINDOW_HANDLE),
            )
            &&& set_userdata_transition(s, hwnd, ptr).0.last_error
                == ERROR_INVALID_WINDOW_HANDLE
            &&& crate::wrapper::get_userdata_transition(s, hwnd).1 == Err::<
                LONG_PTR,
                Win32Error,
            >(Win32Error(ERROR_INVALID_WINDOW_HANDLE))
        },
{
}

/// One loop turn exits exactly on the queue-closing sentinel, and then
/// with exactly the sentinel's payload: termination is never conflated
/// with an error or with ordinary dispatch.
pub proof fn lemma_step_exit_iff_sentinel(s: SystemView)
    ensures
        ({
            let (_s1, st) = step_transition(s);
            st matches LoopStep::Exit(c) ==> s.queue.len() > 0 && s.queue[0].message == WM_QUIT
                && c == s.queue[0].wParam as i32
        }),
        s.queue.len() > 0 && s.queue[0].message == WM_QUIT ==> step_transition(s).1
            == LoopStep::Exit(s.queue[0].wParam as i32),
{
}

/// When the queue-closing sentinel stands at the head of the queue, the
/// loop terminates at once with the sentinel's payload as its exit code.
pub proof fn lemma_loop_exits_on_sentinel(s: SystemView, fuel: nat)
    requires
        fuel > 0,
        s.queue.len() > 0,
        s.queue[0].message == WM_QUIT,
    ensures
        run_loop_transition(s, fuel).1 == Some(s.queue[0].wParam as i32),
{
}

/// Whenever the loop ends with an exit code at all, some reached state
/// had the queue-closing sentinel at the head of its queue, carrying
/// exactly that code: the loop terminates only on the sentinel.
pub proof fn lemma_loop_exit_code_from_sentinel(s: SystemView, fuel: nat)
    ensures
        ({
            let (_s2, r) = run_loop_transition(s, fuel);
            r matches Some(c) ==> exists|k: nat|
                k < fuel && #[trigger] step_transition(loop_state_after(s, k)).1
                    == LoopStep::Exit(c)
        }),
    decreases fuel,
{
    let (_s2, r) = run_loop_transition(s, fuel);
    if fuel > 0 && r is Some {
        let (s1, st) = step_transition(s);
        match st {
            LoopStep::WouldBlock => {},
            LoopStep::Exit(c) => {
                assert(loop_state_after(s, 0) == s);
                assert(step_transition(loop_state_after(s, 0)).1 == LoopStep::Exit(c));
            },
            LoopStep::Dispatched(_lr) => {
                let c = r->0;
                lemma_loop_exit_code_from_sentinel(s1, (fuel - 1) as nat);
                let k = choose|k: nat|
                    k < fuel - 1 && #[trigger] step_transition(loop_state_after(s1, k)).1
                        == LoopStep::Exit(c);
                lemma_loop_state_after_unfold_left(s, k);
                assert(step_transition(loop_state_after(s, k + 1)).1 == LoopStep::Exit(c));
            },
        }
    }
}

/// Stepping `k` turns from the successor state is the same as stepping
/// `k + 1` turns from the start.
pub proof fn lemma_loop_state_after_unfold_left(s: SystemView, k: nat)
    ensures
        loop_state_after(s, k + 1) == loop_state_after(step_transition(s).0, k),
    decreases k,
{
    reveal_with_fuel(loop_state_after, 3);
    if k > 0 {
        lemma_loop_state_after_unfold_left(s, (k - 1) as nat);
    }
}

} // verus!