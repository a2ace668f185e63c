//! The sentinel-decoding rules and the small data helpers, exercised on
//! concrete values.

use gltest::types::LONG_PTR;
use gltest::utils::{wide_copy, wide_eq, wide_null};
use gltest::window::{IDCursor, SysColor, MAKEINTRESOURCEW, MSG, PAINTSTRUCT, POINT, RECT};
use gltest::wrapper::{
    check_atom, check_handle, check_message_return, interpret_zero_return, Win32Error,
};

#[test]
fn handle_decoding_distinguishes_null() {
    assert_eq!(check_handle(0x1234, 0), Ok(0x1234));
    assert_eq!(check_handle(0, 126), Err(Win32Error(126)));
}

#[test]
fn atom_decoding_distinguishes_zero() {
    assert_eq!(check_atom(7, 0), Ok(7));
    assert_eq!(check_atom(0, 1410), Err(Win32Error(1410)));
}

#[test]
fn message_decoding_distinguishes_failure_from_sentinel() {
    let mut quit = MSG::default();
    quit.message = gltest::window::WM_QUIT;
    // the queue-closing sentinel (a zero native return) is an Ok result
    assert_eq!(check_message_return(0, quit, 0), Ok(quit));
    assert_eq!(check_message_return(1, quit, 0), Ok(quit));
    // only -1 is a retrieval failure
    assert_eq!(check_message_return(-1, quit, 87), Err(Win32Error(87)));
}

#[test]
fn zero_return_with_zero_code_is_success_without_value() {
    assert_eq!(interpret_zero_return(0, 0), Ok(0));
}

#[test]
fn zero_return_with_nonzero_code_is_an_error() {
    assert_eq!(interpret_zero_return(0, 1400), Err(Win32Error(1400)));
}

#[test]
fn nonzero_return_is_the_previous_value() {
    let prev: LONG_PTR = 0x5A5A;
    assert_eq!(interpret_zero_return(prev, 0), Ok(prev));
    assert_eq!(interpret_zero_return(prev, 99), Ok(prev));
}

#[test]
fn makeintresource_packs_the_identifier() {
    assert_eq!(MAKEINTRESOURCEW(32512), 32512usize);
    assert_eq!(MAKEINTRESOURCEW(0), 0usize);
}

#[test]
fn cursor_identifiers_match_the_native_headers() {
    assert_eq!(IDCursor::Arrow.id(), 32512);
    assert_eq!(IDCursor::IBeam.id(), 32513);
    assert_eq!(IDCursor::Wait.id(), 32514);
    assert_eq!(IDCursor::Cross.id(), 32515);
    assert_eq!(IDCursor::UpArrow.id(), 32516);
    assert_eq!(IDCursor::SizeNwSe.id(), 32642);
    assert_eq!(IDCursor::SizeNeSw.id(), 32643);
    assert_eq!(IDCursor::SizeWE.id(), 32644);
    assert_eq!(IDCursor::SizeNS.id(), 32645);
    assert_eq!(IDCursor::SizeAll.id(), 32646);
    assert_eq!(IDCursor::No.id(), 32648);
    assert_eq!(IDCursor::Hand.id(), 32649);
    assert_eq!(IDCursor::AppStarting.id(), 32650);
    assert_eq!(IDCursor::Help.id(), 32651);
}

#[test]
fn sys_color_indices_match_the_native_headers() {
    assert_eq!(SysColor::Window.index(), 5);
    assert_eq!(SysColor::WindowText.index(), 8);
    assert_eq!(SysColor::ActiveBorder.index(), 10);
    assert_eq!(SysColor::Highlight.index(), 13);
    assert_eq!(SysColor::BtnFace.index(), 15);
}

#[test]
fn wide_null_encodes_and_terminates() {
    assert_eq!(wide_null("AB"), vec![65u16, 66, 0]);
    assert_eq!(wide_null(""), vec![0u16]);
    assert_eq!(wide_null("é"), vec![0xE9u16, 0]);
}

#[test]
fn wide_null_encodes_surrogate_pairs() {
    // U+1D11E (musical symbol) needs a surrogate pair
    assert_eq!(wide_null("\u{1D11E}"), vec![0xD834u16, 0xDD1E, 0]);
}

#[test]
fn wide_equality_and_copy() {
    let a = wide_null("Sample Window Class");
    let b = wide_null("Sample Window Class");
    let c = wide_null("Other");
    assert!(wide_eq(&a, &b));
    assert!(!wide_eq(&a, &c));
    assert!(wide_eq(&a, &wide_copy(&a)));
}

#[test]
fn records_default_to_zero() {
    let p = POINT::default();
    assert_eq!((p.x, p.y), (0, 0));
    let r = RECT::default();
    assert_eq!((r.left, r.top, r.right, r.bottom), (0, 0, 0, 0));
    let m = MSG::default();
    assert_eq!(m.hwnd, 0);
    assert_eq!(m.message, 0);
    assert_eq!(m.wParam, 0);
    assert_eq!(m.lParam, 0);
    let ps = PAINTSTRUCT::default();
    assert_eq!(ps.hdc, 0);
    assert_eq!(ps.fErase, 0);
}
