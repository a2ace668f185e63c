//! The wrapper operations and the window-procedure state machine, driven
//! end to end against the modeled system state.

use gltest::system::System;
use gltest::window::{
    IDCursor, SysColor, MSG, WM_CLOSE, WM_KEYDOWN, WM_NCCREATE, WM_PAINT, WM_QUIT, WNDCLASSW,
};
use gltest::wrapper::{
    begin_paint, create_app_window, create_window_ex_w, fill_rect_with_sys_color, get_any_message,
    get_last_error, get_process_handle, get_window_userdata, load_predefined_cursor,
    paint_window, post_quit_message, register_class, set_last_error, set_window_userdata,
    translate_message, Win32Error, WrapperError,
};
use gltest::proc::{
    destroy_window, dispatch_message, dummy_window_procedure, message_loop_step,
    run_message_loop, window_procedure, LoopStep,
};
use gltest::utils::wide_null;

const SAMPLE_CLASS: &str = "Sample Window Class";

fn registered_system() -> System {
    let mut sys = System::new();
    let mut class = WNDCLASSW::default();
    class.hInstance = get_process_handle();
    class.lpszClassName = wide_null(SAMPLE_CLASS);
    class.hCursor = load_predefined_cursor(&sys, IDCursor::Arrow).unwrap();
    register_class(&mut sys, &class).unwrap();
    sys
}

#[test]
fn process_handle_is_nonnull() {
    assert_ne!(get_process_handle(), 0);
}

#[test]
fn every_predefined_cursor_loads_nonnull() {
    let sys = System::new();
    let shapes = [
        IDCursor::AppStarting,
        IDCursor::Arrow,
        IDCursor::Cross,
        IDCursor::Hand,
        IDCursor::Help,
        IDCursor::IBeam,
        IDCursor::No,
        IDCursor::SizeAll,
        IDCursor::SizeNeSw,
        IDCursor::SizeNS,
        IDCursor::SizeNwSe,
        IDCursor::SizeWE,
        IDCursor::UpArrow,
        IDCursor::Wait,
    ];
    for shape in shapes {
        let loaded = load_predefined_cursor(&sys, shape);
        match loaded {
            Ok(h) => assert_ne!(h, 0),
            Err(WrapperError::ResourceNotFound(Win32Error(code))) => assert_ne!(code, 0),
            Err(other) => panic!("unexpected error kind: {:?}", other),
        }
    }
}

#[test]
fn last_error_round_trip() {
    let mut sys = System::new();
    assert_eq!(get_last_error(&sys), Win32Error(0));
    set_last_error(&mut sys, Win32Error(126));
    assert_eq!(get_last_error(&sys), Win32Error(126));
}

#[test]
fn registering_a_class_yields_a_nonzero_atom() {
    let mut sys = System::new();
    let mut class = WNDCLASSW::default();
    class.lpszClassName = wide_null(SAMPLE_CLASS);
    let atom = register_class(&mut sys, &class).unwrap();
    assert_ne!(atom, 0);
}

#[test]
fn registering_the_same_class_twice_fails() {
    let mut sys = System::new();
    let mut class = WNDCLASSW::default();
    class.lpszClassName = wide_null(SAMPLE_CLASS);
    let first = register_class(&mut sys, &class);
    assert!(first.is_ok());
    let second = register_class(&mut sys, &class);
    assert_eq!(
        second,
        Err(WrapperError::RegistrationFailed(Win32Error(1410)))
    );
    // and the thread-local error code was captured from the failing call
    assert_eq!(get_last_error(&sys), Win32Error(1410));
}

#[test]
fn creating_a_window_with_an_unregistered_class_fails() {
    let mut sys = System::new();
    let r = create_app_window(&mut sys, SAMPLE_CLASS, "Test Window", None, [800, 600], 1);
    assert_eq!(
        r,
        Err(WrapperError::WindowCreationFailed(Win32Error(1407)))
    );
}

#[test]
fn creating_a_window_without_a_creation_parameter_is_rejected() {
    let mut sys = registered_system();
    // the creation notification rejects a window with no user value
    let r = create_app_window(&mut sys, SAMPLE_CLASS, "Test Window", None, [800, 600], 0);
    assert!(matches!(r, Err(WrapperError::WindowCreationFailed(_))));
}

#[test]
fn creating_a_window_installs_the_user_value() {
    let mut sys = registered_system();
    let addr = sys.alloc_user_value(5);
    let hwnd = create_app_window(
        &mut sys,
        SAMPLE_CLASS,
        "Test Window",
        Some([10, 20]),
        [800, 600],
        addr,
    )
    .unwrap();
    assert_ne!(hwnd, 0);
    assert_eq!(get_window_userdata(&mut sys, hwnd), Ok(addr as isize));
}

#[test]
fn the_user_value_lives_exactly_from_creation_to_destruction() {
    let mut sys = registered_system();
    let addr = sys.alloc_user_value(5);
    let hwnd = create_app_window(
        &mut sys,
        SAMPLE_CLASS,
        "Test Window",
        None,
        [800, 600],
        addr,
    )
    .unwrap();

    // a paint event reads the value and increments it
    let mut paint = MSG::default();
    paint.hwnd = hwnd;
    paint.message = WM_PAINT;
    sys.enqueue_message(paint);
    assert!(matches!(
        message_loop_step(&mut sys),
        LoopStep::Dispatched(0)
    ));
    assert!(sys.user_value_live(addr));
    assert_eq!(sys.read_user_value(addr), 6);
    assert_eq!(sys.paints_begun, 1);
    assert_eq!(sys.paints_ended, 1);

    // a close request destroys the window; the destruction notification
    // reclaims the value exactly once and requests loop termination
    let mut close = MSG::default();
    close.hwnd = hwnd;
    close.message = WM_CLOSE;
    sys.enqueue_message(close);
    let exit = run_message_loop(&mut sys, 16);
    assert_eq!(exit, Some(0));
    assert!(!sys.user_value_live(addr));

    // a second destruction request for the same handle is rejected and
    // nothing is reclaimed again
    assert_eq!(destroy_window(&mut sys, hwnd), 0);
    assert!(!sys.user_value_live(addr));
}

#[test]
fn userdata_zero_return_cases_are_distinguished() {
    let mut sys = registered_system();
    let addr = sys.alloc_user_value(5);
    let hwnd = create_app_window(
        &mut sys,
        SAMPLE_CLASS,
        "Test Window",
        None,
        [800, 600],
        addr,
    )
    .unwrap();

    // clearing the slot returns the installed word
    assert_eq!(set_window_userdata(&mut sys, hwnd, 0), Ok(addr as isize));
    // zero return, zero error code: success with no previous value
    assert_eq!(set_window_userdata(&mut sys, hwnd, 7), Ok(0));
    assert_eq!(get_last_error(&sys), Win32Error(0));
    // zero return, nonzero error code: a genuine error
    let bogus = hwnd + 1000;
    assert_eq!(set_window_userdata(&mut sys, bogus, 7), Err(Win32Error(1400)));
    assert_eq!(get_last_error(&sys), Win32Error(1400));
    assert_eq!(get_window_userdata(&mut sys, bogus), Err(Win32Error(1400)));
}

#[test]
fn scoped_paint_runs_the_closure_once_and_always_ends() {
    let mut sys = registered_system();
    let addr = sys.alloc_user_value(5);
    let hwnd = create_app_window(
        &mut sys,
        SAMPLE_CLASS,
        "Test Window",
        None,
        [800, 600],
        addr,
    )
    .unwrap();

    // even when the closure reports a failure, end-paint is not skipped
    let mut calls = 0;
    let r: Result<(), WrapperError> = paint_window(&mut sys, hwnd, |hdc, erase, rect| {
        calls += 1;
        assert_ne!(hdc, 0);
        assert!(!erase);
        assert_eq!((rect.right, rect.bottom), (800, 600));
        Err(WrapperError::OperationFailed(Win32Error(31)))
    });
    assert_eq!(calls, 1);
    assert_eq!(r, Err(WrapperError::OperationFailed(Win32Error(31))));
    assert_eq!(sys.paints_begun, 1);
    assert_eq!(sys.paints_ended, 1);

    // a successful closure propagates its result the same way
    let ok: Result<u32, WrapperError> = paint_window(&mut sys, hwnd, |hdc, _erase, rect| {
        fill_rect_with_sys_color(hdc, &rect, SysColor::Window).unwrap();
        Ok(17)
    });
    assert_eq!(ok, Ok(17));
    assert_eq!(sys.paints_begun, 2);
    assert_eq!(sys.paints_ended, 2);

    // when beginning fails, the closure never runs and nothing is ended
    let mut stray_calls = 0;
    let dead: Result<(), WrapperError> = paint_window(&mut sys, hwnd + 1000, |_h, _e, _r| {
        stray_calls += 1;
        Ok(())
    });
    assert_eq!(stray_calls, 0);
    assert_eq!(
        dead,
        Err(WrapperError::OperationFailed(Win32Error(1400)))
    );
    assert_eq!(sys.paints_begun, 2);
    assert_eq!(sys.paints_ended, 2);
}

#[test]
fn begin_paint_hands_back_the_client_region() {
    let mut sys = registered_system();
    let addr = sys.alloc_user_value(1);
    let hwnd = create_app_window(
        &mut sys,
        SAMPLE_CLASS,
        "Test Window",
        None,
        [640, 480],
        addr,
    )
    .unwrap();
    let (hdc, ps) = begin_paint(&mut sys, hwnd).unwrap();
    assert_ne!(hdc, 0);
    assert_eq!(ps.fErase, 0);
    assert_eq!((ps.rcPaint.right, ps.rcPaint.bottom), (640, 480));
    gltest::wrapper::end_paint(&mut sys, hwnd, &ps);
    assert_eq!(sys.paints_begun, sys.paints_ended);
}

#[test]
fn fill_rect_fails_only_on_a_null_device_context() {
    let rect = gltest::window::RECT::default();
    assert_eq!(fill_rect_with_sys_color(1, &rect, SysColor::Window), Ok(()));
    assert_eq!(fill_rect_with_sys_color(0, &rect, SysColor::Window), Err(()));
}

#[test]
fn message_retrieval_pops_in_queue_order() {
    let mut sys = System::new();
    let mut a = MSG::default();
    a.message = WM_KEYDOWN;
    let mut b = MSG::default();
    b.message = WM_PAINT;
    sys.enqueue_message(a);
    sys.enqueue_message(b);
    assert_eq!(get_any_message(&mut sys).unwrap().message, WM_KEYDOWN);
    assert_eq!(get_any_message(&mut sys).unwrap().message, WM_PAINT);
}

#[test]
fn translation_recognizes_key_transition_messages() {
    let mut m = MSG::default();
    m.message = WM_KEYDOWN;
    assert!(translate_message(&m));
    m.message = WM_PAINT;
    assert!(!translate_message(&m));
}

#[test]
fn the_loop_exits_with_the_sentinel_payload() {
    let mut sys = System::new();
    post_quit_message(&mut sys, 0);
    assert_eq!(run_message_loop(&mut sys, 8), Some(0));

    let mut sys2 = System::new();
    post_quit_message(&mut sys2, 42);
    assert_eq!(run_message_loop(&mut sys2, 8), Some(42));
}

#[test]
fn the_loop_blocks_rather_than_exits_without_the_sentinel() {
    let mut sys = System::new();
    // an empty queue never produces an exit code
    assert_eq!(run_message_loop(&mut sys, 8), None);
    // and neither does a queue of ordinary messages
    let mut m = MSG::default();
    m.message = WM_KEYDOWN;
    sys.enqueue_message(m);
    assert_eq!(run_message_loop(&mut sys, 8), None);
}

#[test]
fn quit_messages_are_not_dispatched() {
    let mut sys = System::new();
    let mut quit = MSG::default();
    quit.message = WM_QUIT;
    quit.wParam = 3;
    sys.enqueue_message(quit);
    match message_loop_step(&mut sys) {
        LoopStep::Exit(code) => assert_eq!(code, 3),
        other => panic!("expected the sentinel to end the loop, got {:?}", other),
    }
}

#[test]
fn unknown_events_are_forwarded_to_default_handling() {
    let mut sys = registered_system();
    let addr = sys.alloc_user_value(1);
    let hwnd = create_app_window(
        &mut sys,
        SAMPLE_CLASS,
        "Test Window",
        None,
        [800, 600],
        addr,
    )
    .unwrap();
    assert_eq!(window_procedure(&mut sys, hwnd, 0x0200, 0, 0), 0);
    assert_eq!(dummy_window_procedure(hwnd, 0x0200, 0, 0), 0);
}

#[test]
fn creation_notification_signals_acceptance() {
    let mut sys = registered_system();
    let addr = sys.alloc_user_value(5);
    let hwnd = create_app_window(
        &mut sys,
        SAMPLE_CLASS,
        "Test Window",
        None,
        [800, 600],
        addr,
    )
    .unwrap();
    // with a creation parameter the notification accepts (nonzero) and
    // installs it; without one it rejects (zero)
    assert_eq!(window_procedure(&mut sys, hwnd, WM_NCCREATE, 0, 7), 1);
    assert_eq!(get_window_userdata(&mut sys, hwnd), Ok(7));
    assert_eq!(window_procedure(&mut sys, hwnd, WM_NCCREATE, 0, 0), 0);
}

#[test]
fn dispatch_ignores_thread_level_messages() {
    let mut sys = System::new();
    let m = MSG::default();
    assert_eq!(dispatch_message(&mut sys, &m), 0);
}

#[test]
fn create_window_ex_keeps_the_chosen_geometry() {
    let mut sys = registered_system();
    let addr = sys.alloc_user_value(9);
    let class_name = wide_null(SAMPLE_CLASS);
    let window_name = wide_null("Test Window");
    let hwnd = create_window_ex_w(
        &mut sys,
        0,
        &class_name,
        &window_name,
        0,
        5,
        6,
        320,
        200,
        0,
        0,
        get_process_handle(),
        addr,
    )
    .unwrap();
    let (_hdc, ps) = begin_paint(&mut sys, hwnd).unwrap();
    assert_eq!((ps.rcPaint.right, ps.rcPaint.bottom), (320, 200));
}
