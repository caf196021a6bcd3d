use vstd::prelude::*;

verus! {

/// The native library answers every call with 1 for success, anything else
/// for failure.
pub open spec fn is_success(code: int) -> bool {
    code == 1
}

/// Translates a native status code into success or failure.
pub fn succeeded(code: libc::c_int) -> (r: bool)
    ensures
        r == is_success(code as int),
{
    code == 1
}

/// The C `int` that carries a buffer's length to the library, or `None` when
/// the length does not fit one (the call must then not be made).
pub fn length_arg(len: usize) -> (r: Option<libc::c_int>)
    ensures
        r == (if len <= i32::MAX { Some(len as libc::c_int) } else { None::<libc::c_int> }),
{
    if len <= i32::MAX as usize {
        Some(len as libc::c_int)
    } else {
        None
    }
}

/// The C `int` that carries a boolean flag: 1 for true, 0 for false.
pub fn flag_arg(b: bool) -> (r: libc::c_int)
    ensures
        r == (if b { 1int } else { 0int }),
{
    if b {
        1
    } else {
        0
    }
}

/// How many values are to be copied out of a buffer that the library handed
/// back with status `code` and element count `size`: none at all unless the
/// call succeeded and the count is not negative.
pub fn copied_len(code: libc::c_int, size: libc::c_int) -> (r: Option<usize>)
    ensures
        r == (if is_success(code as int) && size >= 0 {
            Some(size as usize)
        } else {
            None::<usize>
        }),
{
    if succeeded(code) && size >= 0 {
        Some(size as usize)
    } else {
        None
    }
}

} // verus!
