//! The data records and symbolic constants of the windowing interface:
//! point, rectangle, message, paint-info and class-descriptor records, the
//! predefined cursor and system-color enumerations, and the event-kind and
//! style constants. Records keep the native field order; pointer fields are
//! modeled as pointer-sized words or as the pointed-to value itself.

use vstd::prelude::*;
use crate::types::{
    c_int, BOOL, DWORD, HBRUSH, HCURSOR, HDC, HICON, HINSTANCE, HMENU, HWND, LONG, LPARAM,
    LPCWSTR, LPVOID, LPWSTR, UINT, WCHAR, WORD, WPARAM,
};

verus! {

/// A cursor position, in screen coordinates.
#[allow(non_camel_case_types)]
#[derive(Clone, Copy, PartialEq, Eq, Structural, Debug)]
pub struct POINT {
    pub x: LONG,
    pub y: LONG,
}

impl Default for POINT {
    /// The zeroed record, as the native "zero the struct" idiom produces.
    fn default() -> (r: Self)
        ensures
            r.x == 0,
            r.y == 0,
    {
        POINT { x: 0, y: 0 }
    }
}

/// A rectangular region, by its left/top and exclusive right/bottom edges.
#[derive(Clone, Copy, PartialEq, Eq, Structural, Debug)]
pub struct RECT {
    pub left: LONG,
    pub top: LONG,
    pub right: LONG,
    pub bottom: LONG,
}

impl Default for RECT {
    fn default() -> (r: Self)
        ensures
            r.left == 0,
            r.top == 0,
            r.right == 0,
            r.bottom == 0,
    {
        RECT { left: 0, top: 0, right: 0, bottom: 0 }
    }
}

/// One queued event record: the target window (zero for thread-level
/// messages), the event-kind code, two generic payload words, a timestamp
/// and the cursor position.
#[allow(non_snake_case)]
#[derive(Clone, Copy, PartialEq, Eq, Structural, Debug)]
pub struct MSG {
    pub hwnd: HWND,
    pub message: UINT,
    pub wParam: WPARAM,
    pub lParam: LPARAM,
    pub time: DWORD,
    pub pt: POINT,
    pub lPrivate: DWORD,
}

impl Default for MSG {
    fn default() -> (r: Self)
        ensures
            r.hwnd == 0,
            r.message == 0,
            r.wParam == 0,
            r.lParam == 0,
            r.time == 0,
            r.pt == (POINT { x: 0, y: 0 }),
            r.lPrivate == 0,
    {
        MSG {
            hwnd: 0,
            message: 0,
            wParam: 0,
            lParam: 0,
            time: 0,
            pt: POINT { x: 0, y: 0 },
            lPrivate: 0,
        }
    }
}

/// Painting information for one paint operation: the device context, the
/// erase-background flag and the region needing redraw. Valid only between
/// the begin and end of that operation.
#[allow(non_snake_case)]
#[derive(Clone, Copy, PartialEq, Eq, Structural, Debug)]
pub struct PAINTSTRUCT {
    pub hdc: HDC,
    pub fErase: BOOL,
    pub rcPaint: RECT,
    pub fRestore: BOOL,
    pub fIncUpdate: BOOL,
}

impl Default for PAINTSTRUCT {
    fn default() -> (r: Self)
        ensures
            r.hdc == 0,
            r.fErase == 0,
            r.rcPaint == (RECT { left: 0, top: 0, right: 0, bottom: 0 }),
            r.fRestore == 0,
            r.fIncUpdate == 0,
    {
        PAINTSTRUCT {
            hdc: 0,
            fErase: 0,
            rcPaint: RECT { left: 0, top: 0, right: 0, bottom: 0 },
            fRestore: 0,
            fIncUpdate: 0,
        }
    }
}

/// A window-class descriptor: the behavior template one or more windows are
/// instantiated from. The class name is held as the wide string itself
/// (null-terminated), and the window-procedure field as an opaque word
/// naming the callback.
#[allow(non_snake_case)]
pub struct WNDCLASSW {
    pub style: UINT,
    /// Opaque word naming the class's window procedure; zero means none.
    pub lpfnWndProc: usize,
    pub cbClsExtra: c_int,
    pub cbWndExtra: c_int,
    pub hInstance: HINSTANCE,
    pub hIcon: HICON,
    pub hCursor: HCURSOR,
    pub hbrBackground: HBRUSH,
    /// Menu-name resource word.
    pub lpsxMenuName: LPCWSTR,
    /// The class name this descriptor registers under, as a wide string.
    pub lpszClassName: Vec<WCHAR>,
}

impl Default for WNDCLASSW {
    fn default() -> (r: Self)
        ensures
            r.style == 0,
            r.lpfnWndProc == 0,
            r.cbClsExtra == 0,
            r.cbWndExtra == 0,
            r.hInstance == 0,
            r.hIcon == 0,
            r.hCursor == 0,
            r.hbrBackground == 0,
            r.lpsxMenuName == 0,
            r.lpszClassName@ == Seq::<WCHAR>::empty(),
    {
        WNDCLASSW {
            style: 0,
            lpfnWndProc: 0,
            cbClsExtra: 0,
            cbWndExtra: 0,
            hInstance: 0,
            hIcon: 0,
            hCursor: 0,
            hbrBackground: 0,
            lpsxMenuName: 0,
            lpszClassName: Vec::new(),
        }
    }
}

/// The creation-parameters record handed to the creation-notification
/// event; its first field carries the opaque creation parameter.
#[allow(non_snake_case)]
#[derive(Clone, Copy, PartialEq, Eq, Structural, Debug)]
pub struct CREATESTRUCTW {
    pub lpCreateParams: LPVOID,
    pub hInstance: HINSTANCE,
    pub hMenu: HMENU,
    pub hWndParent: HWND,
    pub cy: c_int,
    pub cx: c_int,
    pub y: c_int,
    pub x: c_int,
    pub style: LONG,
    pub lpszName: LPCWSTR,
    pub lpszClass: LPCWSTR,
    pub dwExStyle: DWORD,
}

impl Default for CREATESTRUCTW {
    fn default() -> (r: Self)
        ensures
            r.lpCreateParams == 0,
            r.hInstance == 0,
            r.hMenu == 0,
            r.hWndParent == 0,
            r.cy == 0,
            r.cx == 0,
            r.y == 0,
            r.x == 0,
            r.style == 0,
            r.lpszName == 0,
            r.lpszClass == 0,
            r.dwExStyle == 0,
    {
        CREATESTRUCTW {
            lpCreateParams: 0,
            hInstance: 0,
            hMenu: 0,
            hWndParent: 0,
            cy: 0,
            cx: 0,
            y: 0,
            x: 0,
            style: 0,
            lpszName: 0,
            lpszClass: 0,
            dwExStyle: 0,
        }
    }
}

/// Enumeration of the predefined cursor shapes.
#[derive(Clone, Copy, PartialEq, Eq, Structural, Debug)]
pub enum IDCursor {
    /// Standard arrow and small hourglass
    AppStarting,
    /// Standard arrow
    Arrow,
    /// Crosshair
    Cross,
    /// Hand
    Hand,
    /// Arrow and question mark
    Help,
    /// I-beam
    IBeam,
    /// Slashed circle
    No,
    /// Four-pointed arrow pointing north, south, east, and west
    SizeAll,
    /// Double-pointed arrow pointing northeast and southwest
    SizeNeSw,
    /// Double-pointed arrow pointing north and south
    SizeNS,
    /// Double-pointed arrow pointing northwest and southeast
    SizeNwSe,
    /// Double-pointed arrow pointing west and east
    SizeWE,
    /// Vertical arrow
    UpArrow,
    /// Hourglass
    Wait,
}

/// The integer resource identifier of a predefined cursor shape.
pub open spec fn spec_cursor_id(c: IDCursor) -> WORD {
    match c {
        IDCursor::AppStarting => 32650,
        IDCursor::Arrow => 32512,
        IDCursor::Cross => 32515,
        IDCursor::Hand => 32649,
        IDCursor::Help => 32651,
        IDCursor::IBeam => 32513,
        IDCursor::No => 32648,
        IDCursor::SizeAll => 32646,
        IDCursor::SizeNeSw => 32643,
        IDCursor::SizeNS => 32645,
        IDCursor::SizeNwSe => 32642,
        IDCursor::SizeWE => 32644,
        IDCursor::UpArrow => 32516,
        IDCursor::Wait => 32514,
    }
}

impl IDCursor {
    /// The integer resource identifier of this shape, as the native headers
    /// assign them.
    pub fn id(&self) -> (r: WORD)
        ensures
            r == spec_cursor_id(*self),
            r != 0,
    {
        match self {
            IDCursor::AppStarting => 32650,
            IDCursor::Arrow => 32512,
            IDCursor::Cross => 32515,
            IDCursor::Hand => 32649,
            IDCursor::Help => 32651,
            IDCursor::IBeam => 32513,
            IDCursor::No => 32648,
            IDCursor::SizeAll => 32646,
            IDCursor::SizeNeSw => 32643,
            IDCursor::SizeNS => 32645,
            IDCursor::SizeNwSe => 32642,
            IDCursor::SizeWE => 32644,
            IDCursor::UpArrow => 32516,
            IDCursor::Wait => 32514,
        }
    }
}

/// Enumeration of the symbolic system colors a region can be filled with.
#[derive(Clone, Copy, PartialEq, Eq, Structural, Debug)]
pub enum SysColor {
    /// Window background
    Window,
    /// Text in windows
    WindowText,
    /// Active window border
    ActiveBorder,
    /// Face color for push buttons
    BtnFace,
    /// Selected item background
    Highlight,
}

/// The integer index of a symbolic system color, as the native headers
/// assign them.
pub open spec fn spec_sys_color_index(c: SysColor) -> u32 {
    match c {
        SysColor::Window => 5,
        SysColor::WindowText => 8,
        SysColor::ActiveBorder => 10,
        SysColor::BtnFace => 15,
        SysColor::Highlight => 13,
    }
}

impl SysColor {
    /// The integer index of this symbolic color.
    pub fn index(&self) -> (r: u32)
        ensures
            r == spec_sys_color_index(*self),
    {
        match self {
            SysColor::Window => 5,
            SysColor::WindowText => 8,
            SysColor::ActiveBorder => 10,
            SysColor::BtnFace => 15,
            SysColor::Highlight => 13,
        }
    }
}

/// Packs a small integer resource identifier into a pointer-shaped
/// wide-string resource word.
#[allow(non_snake_case)]
pub fn MAKEINTRESOURCEW(i: WORD) -> (r: LPWSTR)
    ensures
        r == i as usize,
{
    i as usize
}

// Window style bits for a standard top-level window.
pub const WS_OVERLAPPED: u32 = 0x0000_0000;
pub const WS_CAPTION: u32 = 0x00C0_0000;
pub const WS_SYSMENU: u32 = 0x0008_0000;
pub const WS_THICKFRAME: u32 = 0x0004_0000;
pub const WS_MINIMIZEBOX: u32 = 0x0002_0000;
pub const WS_MAXIMIZEBOX: u32 = 0x0001_0000;
pub const WS_CLIPSIBLINGS: u32 = 0x0400_0000;
pub const WS_CLIPCHILDREN: u32 = 0x0200_0000;
pub const WS_OVERLAPPEDWINDOW: u32 = WS_OVERLAPPED | WS_CAPTION | WS_SYSMENU | WS_THICKFRAME
    | WS_MINIMIZEBOX | WS_MAXIMIZEBOX;
pub const WS_EX_APPWINDOW: DWORD = 0x0004_0000;
pub const WS_EX_WINDOWEDGE: DWORD = 0x0000_0100;
pub const WS_EX_CLIENTEDGE: DWORD = 0x0000_0200;
pub const WS_EX_OVERLAPPEDWINDOW: DWORD = WS_EX_WINDOWEDGE | WS_EX_CLIENTEDGE;

/// Position sentinel asking the operating system to choose the placement.
pub const CW_USEDEFAULT: c_int = -2147483648;

/// Show-window command: display the window in its current size and position.
pub const SW_SHOW: c_int = 5;

// Event-kind codes.
pub const WM_CREATE: u32 = 0x0001;
pub const WM_DESTROY: u32 = 0x0002;
pub const WM_PAINT: u32 = 0x000F;
pub const WM_CLOSE: u32 = 0x0010;
pub const WM_QUIT: u32 = 0x0012;
pub const WM_SETCURSOR: u32 = 0x0020;
pub const WM_NCCREATE: u32 = 0x0081;
pub const WM_KEYDOWN: u32 = 0x0100;
pub const WM_KEYUP: u32 = 0x0101;
pub const WM_SYSKEYDOWN: u32 = 0x0104;
pub const WM_SYSKEYUP: u32 = 0x0105;

/// Background system-color index for the window color.
pub const COLOR_WINDOW: u32 = 5;

pub const MB_OKCANCEL: u32 = 1;
pub const IDOK: c_int = 1;

/// Per-window data slot index: the user-value word.
pub const GWLP_USERDATA: c_int = -21;

/// The packed resource word of the standard arrow cursor.
pub const IDC_ARROW: LPCWSTR = 32512;

} // verus!
