//! The safe wrapper layer: every operation of the windowing interface as a
//! function returning an explicit success or error value, so callers never
//! inspect raw sentinel values (null handles, zero atoms, `-1` returns).
//!
//! Each operation is specified as a transition over the modeled
//! [`SystemView`] state. The sentinel-decoding rules themselves stand in
//! small shared helpers ([`check_handle`], [`check_atom`],
//! [`check_message_return`], [`interpret_zero_return`]), which a host
//! harness reuses unchanged on the raw foreign calls.

use vstd::prelude::*;
use crate::types::{c_int, ATOM, BOOL, DWORD, HANDLE, HCURSOR, HDC, HINSTANCE, HMENU, HWND,
    LONG_PTR, LPVOID, WCHAR};
use crate::window::{IDCursor, SysColor, MSG, PAINTSTRUCT, POINT, RECT, CW_USEDEFAULT,
    WM_KEYDOWN, WM_KEYUP, WM_NCCREATE, WM_QUIT, WM_SYSKEYDOWN, WM_SYSKEYUP, WS_CLIPCHILDREN,
    WS_CLIPSIBLINGS, WS_EX_APPWINDOW, WS_EX_OVERLAPPEDWINDOW, WS_OVERLAPPEDWINDOW};
use crate::window::spec_cursor_id;
use crate::utils::{wide_chars, wide_null};
use crate::proc::window_procedure;
use crate::system::{System, SystemView, WindowRecord};
use crate::system::{lemma_class_idx, lemma_win_idx};

verus! {

/// A native error code, as the thread-local last-error word reports it.
#[derive(Clone, Copy, PartialEq, Eq, Structural, Debug)]
pub struct Win32Error(pub DWORD);

/// The failure taxonomy of the wrapper layer. Every kind carries the
/// native error code captured immediately after the failing call.
#[derive(Clone, Copy, PartialEq, Eq, Structural, Debug)]
pub enum WrapperError {
    /// A predefined resource (such as a cursor) could not be loaded.
    ResourceNotFound(Win32Error),
    /// Registering a window class failed.
    RegistrationFailed(Win32Error),
    /// Creating a window failed.
    WindowCreationFailed(Win32Error),
    /// Retrieving the next message failed.
    MessageRetrievalFailed(Win32Error),
    /// A paint or fill operation failed.
    OperationFailed(Win32Error),
}

/// The class of this name is already registered.
pub const ERROR_CLASS_ALREADY_EXISTS: DWORD = 1410;

/// No class of this name is registered.
pub const ERROR_CANNOT_FIND_WND_CLASS: DWORD = 1407;

/// The handle does not denote a live window.
pub const ERROR_INVALID_WINDOW_HANDLE: DWORD = 1400;

/// The module handle of the running executable's image, at the customary
/// image base.
pub const PROCESS_IMAGE_BASE: HINSTANCE = 0x0040_0000;

// ---------------------------------------------------------------------
// Sentinel-decoding helpers: each native failure convention, once.
// ---------------------------------------------------------------------

/// Decodes a handle-returning call: null means failure, and the error code
/// read immediately afterwards says why. A null handle is never passed
/// through silently.
pub fn check_handle(h: HANDLE, last_error: DWORD) -> (r: Result<HANDLE, Win32Error>)
    ensures
        h != 0 ==> r == Ok::<HANDLE, Win32Error>(h),
        h == 0 ==> r == Err::<HANDLE, Win32Error>(Win32Error(last_error)),
{
    if h == 0 {
        Err(Win32Error(last_error))
    } else {
        Ok(h)
    }
}

/// Decodes a class-registration result: a zero atom means failure.
pub fn check_atom(atom: ATOM, last_error: DWORD) -> (r: Result<ATOM, Win32Error>)
    ensures
        atom != 0 ==> r == Ok::<ATOM, Win32Error>(atom),
        atom == 0 ==> r == Err::<ATOM, Win32Error>(Win32Error(last_error)),
{
    if atom == 0 {
        Err(Win32Error(last_error))
    } else {
        Ok(atom)
    }
}

/// Decodes a message-retrieval result: `-1` means failure, anything else
/// (the queue-closing sentinel's zero included) hands the message through.
/// Failure and the queue-closing sentinel are never conflated.
pub fn check_message_return(ret: BOOL, msg: MSG, last_error: DWORD) -> (r: Result<
    MSG,
    Win32Error,
>)
    ensures
        ret != -1 ==> r == Ok::<MSG, Win32Error>(msg),
        ret == -1 ==> r == Err::<MSG, Win32Error>(Win32Error(last_error)),
{
    if ret == -1 {
        Err(Win32Error(last_error))
    } else {
        Ok(msg)
    }
}

/// The mandatory disambiguation rule for the per-window user-slot calls,
/// whose zero return is overloaded: the caller clears the thread-local
/// error code, makes the call, and hands the raw return together with the
/// error code read immediately afterwards to this helper. A zero return
/// with a zero error code is a legitimate "no previous value" result, not
/// a failure; a zero return with a nonzero error code is a genuine error.
pub fn interpret_zero_return(out: LONG_PTR, error_after: DWORD) -> (r: Result<
    LONG_PTR,
    Win32Error,
>)
    ensures
        out != 0 ==> r == Ok::<LONG_PTR, Win32Error>(out),
        out == 0 && error_after == 0 ==> r == Ok::<LONG_PTR, Win32Error>(0isize),
        out == 0 && error_after != 0 ==> r == Err::<LONG_PTR, Win32Error>(
            Win32Error(error_after),
        ),
{
    if out == 0 {
        if error_after != 0 {
            Err(Win32Error(error_after))
        } else {
            Ok(0)
        }
    } else {
        Ok(out)
    }
}

// ---------------------------------------------------------------------
// Pass-through operations on the thread's error word.
// ---------------------------------------------------------------------

/// Reads the thread-local last-error code.
pub fn get_last_error(sys: &System) -> (r: Win32Error)
    ensures
        r == Win32Error(sys@.last_error),
{
    Win32Error(sys.last_error)
}

/// Replaces the thread-local last-error code.
pub fn set_last_error(sys: &mut System, e: Win32Error)
    ensures
        final(sys)@ == old(sys)@.with_error(e.0),
        old(sys)@.wf() ==> final(sys)@.wf(),
{
    sys.last_error = e.0;
    proof {
        assert(sys@ =~~= old(sys)@.with_error(e.0));
    }
}

// ---------------------------------------------------------------------
// Module and resource handles.
// ---------------------------------------------------------------------

/// Returns the module handle of the running executable, used as the
/// owning module for classes and windows. Always succeeds.
pub fn get_process_handle() -> (h: HINSTANCE)
    ensures
        h == PROCESS_IMAGE_BASE,
        h != 0,
{
    PROCESS_IMAGE_BASE
}

/// The handle under which the system serves a predefined cursor shape.
pub open spec fn spec_cursor_handle(cursor: IDCursor) -> HCURSOR {
    (0x0001_0000 + spec_cursor_id(cursor)) as HCURSOR
}

/// Loads one of the predefined cursor shapes. Every supported shape
/// exists, so loading returns its non-null handle; a null handle would be
/// surfaced as a `ResourceNotFound` error carrying the native code, never
/// passed through silently.
pub fn load_predefined_cursor(sys: &System, cursor: IDCursor) -> (r: Result<
    HCURSOR,
    WrapperError,
>)
    ensures
        r == Ok::<HCURSOR, WrapperError>(spec_cursor_handle(cursor)),
        (r matches Ok(h) ==> h != 0),
{
    let h: HCURSOR = 0x0001_0000 + (cursor.id() as usize);
    match check_handle(h, sys.last_error) {
        Ok(h) => Ok(h),
        Err(e) => Err(WrapperError::ResourceNotFound(e)),
    }
}

// ---------------------------------------------------------------------
// Class registration.
// ---------------------------------------------------------------------

/// The effect of registering a class under `name`: a fresh nonzero atom
/// if the name is new, the already-registered error if it is not.
pub open spec fn register_transition(s: SystemView, name: Seq<WCHAR>) -> (SystemView, Result<
    ATOM,
    WrapperError,
>) {
    if s.is_registered(name) {
        (
            s.with_error(ERROR_CLASS_ALREADY_EXISTS),
            Err(WrapperError::RegistrationFailed(Win32Error(ERROR_CLASS_ALREADY_EXISTS))),
        )
    } else {
        (
            SystemView {
                classes: s.classes.push(
                    crate::system::ClassView { name, atom: s.next_atom },
                ),
                next_atom: (s.next_atom + 1) as ATOM,
                ..s
            },
            Ok(s.next_atom),
        )
    }
}

/// Registers a window class. The class becomes available process-wide; a
/// second registration under the same name yields a `RegistrationFailed`
/// error carrying `ERROR_CLASS_ALREADY_EXISTS`, never a second live
/// identifier.
pub fn register_class(sys: &mut System, window_class: &crate::window::WNDCLASSW) -> (r: Result<
    ATOM,
    WrapperError,
>)
    requires
        old(sys)@.wf(),
        old(sys)@.next_atom < ATOM::MAX,
    ensures
        final(sys)@.wf(),
        (final(sys)@, r) == register_transition(old(sys)@, window_class.lpszClassName@),
        (r matches Ok(atom) ==> atom != 0),
{
    match sys.find_class(&window_class.lpszClassName) {
        Some(_) => {
            sys.last_error = ERROR_CLASS_ALREADY_EXISTS;
            proof {
                assert(sys@ =~~= old(sys)@.with_error(ERROR_CLASS_ALREADY_EXISTS));
            }
            Err(WrapperError::RegistrationFailed(Win32Error(ERROR_CLASS_ALREADY_EXISTS)))
        },
        None => {
            let atom = sys.next_atom;
            let name = crate::utils::wide_copy(&window_class.lpszClassName);
            sys.classes.push(crate::system::ClassEntry { name, atom });
            sys.next_atom = sys.next_atom + 1;
            proof {
                let post = register_transition(old(sys)@, window_class.lpszClassName@).0;
                assert(sys@.classes =~= post.classes);
                assert(sys@ =~~= post);
                assert forall|i: int, j: int|
                    0 <= i < j < sys@.classes.len() implies (#[trigger] sys@.classes[i]).name != (
                #[trigger] sys@.classes[j]).name by {
                    if j == sys@.classes.len() - 1 {
                        assert(!old(sys)@.is_registered(window_class.lpszClassName@));
                        assert(old(sys)@.classes[i].name != window_class.lpszClassName@);
                    }
                }
            }
            Ok(atom)
        },
    }
}

// ---------------------------------------------------------------------
// The message queue: retrieval, translation, quit posting.
// ---------------------------------------------------------------------

/// Retrieves the next message from the thread's queue. The native call
/// blocks until a message is available, so the modeled queue must be
/// nonempty; the queue-closing sentinel is returned as an ordinary
/// message, distinct from an error.
pub fn get_any_message(sys: &mut System) -> (r: Result<MSG, WrapperError>)
    requires
        old(sys)@.queue.len() > 0,
    ensures
        r == Ok::<MSG, WrapperError>(old(sys)@.queue[0]),
        final(sys)@ == old(sys)@.with_queue(old(sys)@.queue.drop_first()),
        old(sys)@.wf() ==> final(sys)@.wf(),
{
    let msg = sys.queue.remove(0);
    proof {
        assert(sys@.queue =~= old(sys)@.queue.drop_first());
        assert(sys@ =~~= old(sys)@.with_queue(old(sys)@.queue.drop_first()));
    }
    Ok(msg)
}

/// Whether translating this message turns a virtual-key event into a
/// character message.
pub open spec fn spec_translates(msg: MSG) -> bool {
    msg.message == WM_KEYDOWN || msg.message == WM_KEYUP || msg.message == WM_SYSKEYDOWN
        || msg.message == WM_SYSKEYUP
}

/// Forwards a message to input translation. Returns whether the message
/// was a key-transition event whose translation was queued.
pub fn translate_message(msg: &MSG) -> (r: bool)
    ensures
        r == spec_translates(*msg),
{
    msg.message == WM_KEYDOWN || msg.message == WM_KEYUP || msg.message == WM_SYSKEYDOWN
        || msg.message == WM_SYSKEYUP
}

/// The queue-closing sentinel carrying this exit code.
pub open spec fn quit_message(exit_code: c_int) -> MSG {
    MSG {
        hwnd: 0,
        message: WM_QUIT,
        wParam: exit_code as usize,
        lParam: 0,
        time: 0,
        pt: POINT { x: 0, y: 0 },
        lPrivate: 0,
    }
}

/// Requests that the message loop terminate: places the queue-closing
/// sentinel, carrying `exit_code` as its payload, at the back of the
/// queue.
pub fn post_quit_message(sys: &mut System, exit_code: c_int)
    ensures
        final(sys)@ == old(sys)@.with_queue(old(sys)@.queue.push(quit_message(exit_code))),
        old(sys)@.wf() ==> final(sys)@.wf(),
{
    let mut m = MSG::default();
    m.message = WM_QUIT;
    m.wParam = #[verifier::truncate] (exit_code as usize);
    sys.enqueue_message(m);
}

// ---------------------------------------------------------------------
// The per-window user slot.
// ---------------------------------------------------------------------

/// The effect of writing the per-window user slot: on a live window the
/// slot is replaced and the previous word returned with the error code
/// cleared; on anything else the invalid-handle error is recorded.
pub open spec fn set_userdata_transition(s: SystemView, hwnd: HWND, ptr: LONG_PTR) -> (
    SystemView,
    Result<LONG_PTR, Win32Error>,
) {
    if s.has_live_window(hwnd) {
        let i = s.win_idx(hwnd);
        (
            SystemView {
                windows: s.windows.update(i, WindowRecord { userdata: ptr, ..s.windows[i] }),
                last_error: 0,
                ..s
            },
            Ok(s.windows[i].userdata),
        )
    } else {
        (
            s.with_error(ERROR_INVALID_WINDOW_HANDLE),
            Err(Win32Error(ERROR_INVALID_WINDOW_HANDLE)),
        )
    }
}

/// The effect of reading the per-window user slot.
pub open spec fn get_userdata_transition(s: SystemView, hwnd: HWND) -> (SystemView, Result<
    LONG_PTR,
    Win32Error,
>) {
    if s.has_live_window(hwnd) {
        (s.with_error(0), Ok(s.window_user_value(hwnd)))
    } else {
        (
            s.with_error(ERROR_INVALID_WINDOW_HANDLE),
            Err(Win32Error(ERROR_INVALID_WINDOW_HANDLE)),
        )
    }
}

/// Writes the per-window user word, returning the previous word. Clears
/// the thread-local error code first and reads it back immediately after
/// the native step, so that a zero return with a zero code is reported as
/// success with no previous value, and a zero return with a nonzero code
/// as the genuine error — the two are never conflated.
pub fn set_window_userdata(sys: &mut System, hwnd: HWND, ptr: LONG_PTR) -> (r: Result<
    LONG_PTR,
    Win32Error,
>)
    requires
        old(sys)@.wf(),
    ensures
        final(sys)@.wf(),
        (final(sys)@, r) == set_userdata_transition(old(sys)@, hwnd, ptr),
{
    let found = sys.find_window(hwnd);
    sys.last_error = 0;
    let mut out: LONG_PTR = 0;
    match found {
        Some(i) => {
            if sys.windows[i].alive {
                let rec = sys.windows[i];
                out = rec.userdata;
                sys.windows.set(i, WindowRecord { userdata: ptr, ..rec });
                proof {
                    lemma_win_idx(old(sys)@, i as int);
                    assert(sys@ =~~= set_userdata_transition(old(sys)@, hwnd, ptr).0);
                }
            } else {
                sys.last_error = ERROR_INVALID_WINDOW_HANDLE;
                proof {
                    lemma_win_idx(old(sys)@, i as int);
                    assert(!old(sys)@.has_live_window(hwnd));
                    assert(sys@ =~~= old(sys)@.with_error(ERROR_INVALID_WINDOW_HANDLE));
                }
            }
        },
        None => {
            sys.last_error = ERROR_INVALID_WINDOW_HANDLE;
            proof {
                assert(!old(sys)@.has_live_window(hwnd));
                assert(sys@ =~~= old(sys)@.with_error(ERROR_INVALID_WINDOW_HANDLE));
            }
        },
    }
    let last = get_last_error(sys);
    interpret_zero_return(out, last.0)
}

/// Reads the per-window user word. The same disambiguation rule as for
/// writing applies: a zero word with a clear error code is success with
/// no value installed.
pub fn get_window_userdata(sys: &mut System, hwnd: HWND) -> (r: Result<LONG_PTR, Win32Error>)
    requires
        old(sys)@.wf(),
    ensures
        final(sys)@.wf(),
        (final(sys)@, r) == get_userdata_transition(old(sys)@, hwnd),
{
    let found = sys.find_window(hwnd);
    sys.last_error = 0;
    let mut out: LONG_PTR = 0;
    match found {
        Some(i) => {
            if sys.windows[i].alive {
                out = sys.windows[i].userdata;
                proof {
                    lemma_win_idx(old(sys)@, i as int);
                    assert(sys@ =~~= old(sys)@.with_error(0));
                }
            } else {
                sys.last_error = ERROR_INVALID_WINDOW_HANDLE;
                proof {
                    lemma_win_idx(old(sys)@, i as int);
                    assert(!old(sys)@.has_live_window(hwnd));
                    assert(sys@ =~~= old(sys)@.with_error(ERROR_INVALID_WINDOW_HANDLE));
                }
            }
        },
        None => {
            sys.last_error = ERROR_INVALID_WINDOW_HANDLE;
            proof {
                assert(sys@ =~~= old(sys)@.with_error(ERROR_INVALID_WINDOW_HANDLE));
            }
        },
    }
    let last = get_last_error(sys);
    interpret_zero_return(out, last.0)
}

// ---------------------------------------------------------------------
// Painting.
// ---------------------------------------------------------------------

/// The region a paint operation on this window covers: its whole client
/// area.
pub open spec fn spec_paint_rect(s: SystemView, hwnd: HWND) -> RECT {
    RECT {
        left: 0,
        top: 0,
        right: s.windows[s.win_idx(hwnd)].width,
        bottom: s.windows[s.win_idx(hwnd)].height,
    }
}

/// The effect of beginning a paint operation: on a live window, the open
/// bracket is counted and the device context (modeled as the window's own
/// handle word, hence never null) and paint record are handed back.
pub open spec fn begin_paint_transition(s: SystemView, hwnd: HWND) -> (SystemView, Result<
    (HDC, PAINTSTRUCT),
    WrapperError,
>) {
    if s.has_live_window(hwnd) {
        (
            SystemView { paints_begun: (s.paints_begun + 1) as u64, ..s },
            Ok(
                (
                    hwnd,
                    PAINTSTRUCT {
                        hdc: hwnd,
                        fErase: 0,
                        rcPaint: spec_paint_rect(s, hwnd),
                        fRestore: 0,
                        fIncUpdate: 0,
                    },
                ),
            ),
        )
    } else {
        (
            s.with_error(ERROR_INVALID_WINDOW_HANDLE),
            Err(WrapperError::OperationFailed(Win32Error(ERROR_INVALID_WINDOW_HANDLE))),
        )
    }
}

/// Prepares the window for painting, returning the device context and the
/// paint record needed to conclude the operation.
pub fn begin_paint(sys: &mut System, hwnd: HWND) -> (r: Result<(HDC, PAINTSTRUCT), WrapperError>)
    requires
        old(sys)@.wf(),
        old(sys)@.paints_begun < u64::MAX,
    ensures
        final(sys)@.wf(),
        (final(sys)@, r) == begin_paint_transition(old(sys)@, hwnd),
        (r matches Ok((hdc, _ps)) ==> hdc != 0),
{
    let mut found: Option<usize> = None;
    match sys.find_window(hwnd) {
        Some(i) => {
            if sys.windows[i].alive {
                found = Some(i);
            }
        },
        None => {},
    }
    match found {
        Some(i) => {
            proof {
                lemma_win_idx(old(sys)@, i as int);
            }
            let rec = sys.windows[i];
            let ps = PAINTSTRUCT {
                hdc: hwnd,
                fErase: 0,
                rcPaint: RECT { left: 0, top: 0, right: rec.width, bottom: rec.height },
                fRestore: 0,
                fIncUpdate: 0,
            };
            sys.paints_begun = sys.paints_begun + 1;
            proof {
                assert(sys@ =~~= begin_paint_transition(old(sys)@, hwnd).0);
            }
            Ok((hwnd, ps))
        },
        None => {
            sys.last_error = ERROR_INVALID_WINDOW_HANDLE;
            proof {
                if old(sys)@.has_window(hwnd) {
                    lemma_win_idx(old(sys)@, old(sys)@.win_idx(hwnd));
                }
                assert(sys@ =~~= old(sys)@.with_error(ERROR_INVALID_WINDOW_HANDLE));
            }
            Err(WrapperError::OperationFailed(Win32Error(ERROR_INVALID_WINDOW_HANDLE)))
        },
    }
}

/// The effect of concluding a paint operation: the close bracket is
/// counted.
pub open spec fn end_paint_transition(s: SystemView) -> SystemView {
    SystemView { paints_ended: (s.paints_ended + 1) as u64, ..s }
}

/// Concludes the paint operation begun on this window. Must be called
/// exactly once for every successful begin, on every exit path.
pub fn end_paint(sys: &mut System, hwnd: HWND, ps: &PAINTSTRUCT)
    requires
        old(sys)@.wf(),
        old(sys)@.paints_ended < old(sys)@.paints_begun,
    ensures
        final(sys)@.wf(),
        final(sys)@ == end_paint_transition(old(sys)@),
{
    sys.paints_ended = sys.paints_ended + 1;
    proof {
        assert(sys@ =~~= end_paint_transition(old(sys)@));
    }
}

/// Fills a region of a device context with a named system color. The fill
/// reaches up to, but not including, the right column and bottom row.
/// Fails generically when the native call reports failure, which the
/// model ties to a null device context.
pub fn fill_rect_with_sys_color(hdc: HDC, rect: &RECT, color: SysColor) -> (r: Result<(), ()>)
    ensures
        hdc != 0 ==> r == Ok::<(), ()>(()),
        hdc == 0 ==> r == Err::<(), ()>(()),
{
    let brush: HANDLE = (color.index() + 1) as usize;
    if hdc != 0 && brush != 0 {
        Ok(())
    } else {
        Err(())
    }
}

/// The paint bracket around one scoped paint operation: both counters
/// advance by one.
pub open spec fn paint_bracket_view(s: SystemView) -> SystemView {
    SystemView {
        paints_begun: (s.paints_begun + 1) as u64,
        paints_ended: (s.paints_ended + 1) as u64,
        ..s
    }
}

/// The scoped paint operation: begins a paint operation, invokes the
/// closure exactly once with the device context, erase flag and region,
/// concludes the operation unconditionally — even when the closure
/// reports a failure — and propagates the closure's result. When the
/// begin step itself fails, the closure is never invoked and nothing
/// needs concluding.
pub fn paint_window<T, F: FnOnce(HDC, bool, RECT) -> Result<T, WrapperError>>(
    sys: &mut System,
    hwnd: HWND,
    f: F,
) -> (r: Result<T, WrapperError>)
    requires
        old(sys)@.wf(),
        old(sys)@.paints_begun < u64::MAX,
        old(sys)@.has_live_window(hwnd) ==> call_requires(
            f,
            (hwnd, false, spec_paint_rect(old(sys)@, hwnd)),
        ),
    ensures
        final(sys)@.wf(),
        !old(sys)@.has_live_window(hwnd) ==> final(sys)@ == old(sys)@.with_error(
            ERROR_INVALID_WINDOW_HANDLE,
        ) && r == Err::<T, WrapperError>(
            WrapperError::OperationFailed(Win32Error(ERROR_INVALID_WINDOW_HANDLE)),
        ),
        old(sys)@.has_live_window(hwnd) ==> final(sys)@ == paint_bracket_view(old(sys)@)
            && call_ensures(f, (hwnd, false, spec_paint_rect(old(sys)@, hwnd)), r),
        old(sys)@.has_live_window(hwnd) ==> final(sys)@.paints_begun == old(sys)@.paints_begun + 1
            && final(sys)@.paints_ended == old(sys)@.paints_ended + 1,
{
    let (hdc, ps) = match begin_paint(sys, hwnd) {
        Ok(p) => p,
        Err(e) => {
            return Err(e);
        },
    };
    let out = f(hdc, ps.fErase != 0, ps.rcPaint);
    end_paint(sys, hwnd, &ps);
    proof {
        assert(sys@ =~~= paint_bracket_view(old(sys)@));
    }
    out
}

// ---------------------------------------------------------------------
// Window creation.
// ---------------------------------------------------------------------

/// The effect of creating a window from the class registered under
/// `name`: with no such class the cannot-find-class error; otherwise a
/// fresh window record, the creation notification delivered synchronously
/// through the procedure with the creation parameter, and — should the
/// procedure reject creation — the record invalidated again and the
/// creation error carrying the error code read immediately afterwards.
pub open spec fn create_window_transition(
    s: SystemView,
    name: Seq<WCHAR>,
    width: c_int,
    height: c_int,
    param: LPVOID,
) -> (SystemView, Result<HWND, WrapperError>) {
    if !s.is_registered(name) {
        (
            s.with_error(ERROR_CANNOT_FIND_WND_CLASS),
            Err(WrapperError::WindowCreationFailed(Win32Error(ERROR_CANNOT_FIND_WND_CLASS))),
        )
    } else {
        let hwnd = s.next_hwnd;
        let s1 = SystemView {
            windows: s.windows.push(
                WindowRecord {
                    hwnd,
                    atom: s.class_atom(name),
                    width,
                    height,
                    userdata: 0,
                    alive: true,
                },
            ),
            next_hwnd: (s.next_hwnd + 1) as usize,
            ..s
        };
        let (s2, accepted) = crate::proc::wndproc_transition(
            s1,
            hwnd,
            WM_NCCREATE,
            0,
            param as isize,
        );
        if accepted == 0 {
            (
                s2.with_windows(
                    s2.windows.update(
                        s2.win_idx(hwnd),
                        WindowRecord { alive: false, ..s2.windows[s2.win_idx(hwnd)] },
                    ),
                ),
                Err(WrapperError::WindowCreationFailed(Win32Error(s2.last_error))),
            )
        } else {
            (s2, Ok(hwnd))
        }
    }
}

/// Creates a window from a registered class. The creation parameter is
/// forwarded verbatim to the creation-notification event, which installs
/// it as the window's user value; a null handle is never returned without
/// a `WindowCreationFailed` error.
pub fn create_window_ex_w(
    sys: &mut System,
    ex_style: DWORD,
    class_name: &Vec<WCHAR>,
    window_name: &Vec<WCHAR>,
    style: DWORD,
    x: c_int,
    y: c_int,
    width: c_int,
    height: c_int,
    parent: HWND,
    menu: HMENU,
    instance: HINSTANCE,
    param: LPVOID,
) -> (r: Result<HWND, WrapperError>)
    requires
        old(sys)@.wf(),
        old(sys)@.next_hwnd < usize::MAX,
        old(sys)@.paints_begun < u64::MAX,
    ensures
        final(sys)@.wf(),
        (final(sys)@, r) == create_window_transition(
            old(sys)@,
            class_name@,
            width,
            height,
            param,
        ),
        (r matches Ok(h) ==> h != 0),
{
    let found = sys.find_class(class_name);
    match found {
        None => {
            sys.last_error = ERROR_CANNOT_FIND_WND_CLASS;
            proof {
                assert(sys@ =~~= old(sys)@.with_error(ERROR_CANNOT_FIND_WND_CLASS));
            }
            Err(WrapperError::WindowCreationFailed(Win32Error(ERROR_CANNOT_FIND_WND_CLASS)))
        },
        Some(ci) => {
            proof {
                lemma_class_idx(old(sys)@, ci as int);
            }
            let atom = sys.classes[ci].atom;
            let hwnd = sys.next_hwnd;
            sys.windows.push(
                WindowRecord { hwnd, atom, width, height, userdata: 0, alive: true },
            );
            sys.next_hwnd = sys.next_hwnd + 1;
            proof {
                let s1 = SystemView {
                    windows: old(sys)@.windows.push(
                        WindowRecord {
                            hwnd,
                            atom: old(sys)@.class_atom(class_name@),
                            width,
                            height,
                            userdata: 0,
                            alive: true,
                        },
                    ),
                    next_hwnd: (old(sys)@.next_hwnd + 1) as usize,
                    ..old(sys)@
                };
                assert(sys@ =~~= s1);
                assert forall|i: int, j: int|
                    0 <= i < j < sys@.windows.len() implies (#[trigger] sys@.windows[i]).hwnd != (
                #[trigger] sys@.windows[j]).hwnd by {
                    if j == sys@.windows.len() - 1 {
                        assert(old(sys)@.windows[i].hwnd < old(sys)@.next_hwnd);
                    }
                }
                assert(sys@.wf());
            }
            let accepted = window_procedure(sys, hwnd, WM_NCCREATE, 0, param as isize);
            if accepted == 0 {
                let refound = sys.find_window(hwnd);
                match refound {
                    Some(k) => {
                        proof {
                            lemma_win_idx(sys@, k as int);
                        }
                        let rec = sys.windows[k];
                        sys.windows.set(k, WindowRecord { alive: false, ..rec });
                        proof {
                            assert(sys@ =~~= create_window_transition(
                                old(sys)@,
                                class_name@,
                                width,
                                height,
                                param,
                            ).0);
                        }
                        Err(WrapperError::WindowCreationFailed(Win32Error(sys.last_error)))
                    },
                    None => {
                        proof {
                            // the notification never removes the record
                            let s1 = SystemView {
                                windows: old(sys)@.windows.push(
                                    WindowRecord {
                                        hwnd,
                                        atom: old(sys)@.class_atom(class_name@),
                                        width,
                                        height,
                                        userdata: 0,
                                        alive: true,
                                    },
                                ),
                                next_hwnd: (old(sys)@.next_hwnd + 1) as usize,
                                ..old(sys)@
                            };
                            crate::proc::lemma_wndproc_keeps_records(
                                s1,
                                hwnd,
                                WM_NCCREATE,
                                0,
                                param as isize,
                            );
                            let n = old(sys)@.windows.len() as int;
                            assert(s1.windows[n].hwnd == hwnd);
                            assert(sys@.windows[n].hwnd == hwnd);
                            assert(sys@.has_window(hwnd));
                            assert(false);
                        }
                        Err(WrapperError::WindowCreationFailed(Win32Error(sys.last_error)))
                    },
                }
            } else {
                Ok(hwnd)
            }
        },
    }
}

/// Creates an application window with default styling: a standard
/// overlapped top-level window whose children do not overlap, placed by
/// the operating system unless a position is given. For other styles,
/// call [`create_window_ex_w`] with the parameters preferred.
pub fn create_app_window(
    sys: &mut System,
    class_name: &str,
    window_name: &str,
    position: Option<[i32; 2]>,
    size: [i32; 2],
    create_param: LPVOID,
) -> (r: Result<HWND, WrapperError>)
    requires
        old(sys)@.wf(),
        old(sys)@.next_hwnd < usize::MAX,
        old(sys)@.paints_begun < u64::MAX,
    ensures
        final(sys)@.wf(),
        (final(sys)@, r) == create_window_transition(
            old(sys)@,
            wide_chars(class_name@).push(0u16),
            size@[0],
            size@[1],
            create_param,
        ),
        (r matches Ok(h) ==> h != 0),
{
    let class_name_null = wide_null(class_name);
    let window_name_null = wide_null(window_name);
    let (x, y) = match position {
        Some(p) => (p[0], p[1]),
        None => (CW_USEDEFAULT, CW_USEDEFAULT),
    };
    create_window_ex_w(
        sys,
        WS_EX_APPWINDOW | WS_EX_OVERLAPPEDWINDOW,
        &class_name_null,
        &window_name_null,
        WS_OVERLAPPEDWINDOW | WS_CLIPCHILDREN | WS_CLIPSIBLINGS,
        x,
        y,
        size[0],
        size[1],
        0,
        0,
        get_process_handle(),
        create_param,
    )
}

} // verus!
