//! Strings handed into and out of functions: by value, by shared reference
//! and by mutable reference.

use vstd::prelude::*;
use vstd::string::*;
use vstd::utf8::encode_utf8;

verus! {

/// Makes a string and hands it to the caller.
pub fn gives_ownership() -> (some_string: String)
    ensures
        some_string@ == "来自函数的字符串"@,
{
    let some_string = String::from_str("来自函数的字符串");
    some_string
}

/// Takes a string and hands the same string back.
pub fn takes_and_gives_back(a_string: String) -> (same: String)
    ensures
        same == a_string,
{
    a_string
}

/// The length of a borrowed string, in bytes of its UTF-8 encoding.
pub fn calculate_length(s: &String) -> (length: usize)
    ensures
        length == encode_utf8(s@).len() as usize,
{
    s.as_str().len()
}

/// Appends `，世界` to a string borrowed mutably; what was there stays in
/// front.
pub fn change(s: &mut String)
    ensures
        final(s)@ == old(s)@ + "，世界"@,
{
    s.append("，世界");
}

} // verus!
