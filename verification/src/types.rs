//! Semantic aliases for the fixed-width integers and pointer-sized words of
//! the native ABI. Handles and pointers are modeled as pointer-sized
//! integers: an opaque bit pattern whose only distinguished value is the
//! null sentinel, zero.

use vstd::prelude::*;

verus! {

#[allow(non_camel_case_types)]
pub type c_uint = u32;

#[allow(non_camel_case_types)]
pub type c_int = i32;

#[allow(non_camel_case_types)]
pub type c_ushort = u16;

#[allow(non_camel_case_types)]
pub type c_ulong = u32;

#[allow(non_camel_case_types)]
pub type c_long = i32;

#[allow(non_camel_case_types)]
pub type wchar_t = u16;

pub type UINT = c_uint;

pub type DWORD = c_ulong;

pub type WORD = c_ushort;

pub type BYTE = u8;

pub type LONG = c_long;

pub type BOOL = c_int;

pub type WCHAR = wchar_t;

/// A class identifier returned by registration; zero is the failure sentinel.
pub type ATOM = WORD;

/// Pointer-sized unsigned word.
#[allow(non_camel_case_types)]
pub type UINT_PTR = usize;

/// Pointer-sized unsigned word.
#[allow(non_camel_case_types)]
pub type ULONG_PTR = usize;

/// Pointer-sized signed word; the native per-window user slot holds one.
#[allow(non_camel_case_types)]
pub type LONG_PTR = isize;

/// Second generic payload word of a message.
pub type LPARAM = LONG_PTR;

/// Result word of a window procedure.
pub type LRESULT = LONG_PTR;

/// First generic payload word of a message.
pub type WPARAM = UINT_PTR;

/// An opaque handle word; zero is the null sentinel.
pub type HANDLE = usize;

pub type HINSTANCE = HANDLE;

pub type HMODULE = HINSTANCE;

pub type HICON = HANDLE;

pub type HCURSOR = HICON;

pub type HBRUSH = HANDLE;

pub type HMENU = HANDLE;

pub type HWND = HANDLE;

pub type HDC = HANDLE;

/// A pointer-shaped word naming a wide-string resource, either a real
/// string's address or a small integer identifier packed into the word.
pub type LPWSTR = usize;

/// Read-only variant of [`LPWSTR`].
pub type LPCWSTR = usize;

/// An opaque pointer-sized word forwarded verbatim through window creation.
pub type LPVOID = usize;

} // verus!
