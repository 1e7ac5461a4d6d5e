pub mod bundle;
pub mod client;
pub mod cpu;
pub mod io;
pub mod status;
pub mod wire;

use vstd::prelude::*;
use vstd::string::StrSliceExecFns;

verus! {

/// A file identifier on the supervisor side. Values `0..1023` are allocated
/// by the client; `-1` stands for "none" and, in write requests, for the
/// implicit stdout stream.
pub type FileId = i32;

/// The capacity of the client-level write-coalescing buffer.
pub const BUF_SIZE: usize = 4096;

/// Whether two strings hold the same characters.
pub fn str_eq(a: &str, b: &str) -> (r: bool)
    ensures
        r <==> a@ == b@,
{
    let la = a.unicode_len();
    let lb = b.unicode_len();
    if la != lb {
        return false;
    }
    let mut i: usize = 0;
    while i < la
        invariant
            0 <= i <= la,
            la == a@.len(),
            la == b@.len(),
            forall|j: int| 0 <= j < i ==> a@[j] == b@[j],
        decreases la - i,
    {
        if a.get_char(i) != b.get_char(i) {
            return false;
        }
        i = i + 1;
    }
    assert(a@ =~= b@);
    true
}

} // verus!
