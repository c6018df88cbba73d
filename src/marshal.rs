use vstd::prelude::*;
use vstd::utf8::{valid_utf8, decode_utf8};

verus! {

/// The number of elements that a native array of `count` elements holds: negative counts hold
/// none.
pub open spec fn element_count(count: i32) -> int {
    if count > 0 {
        count as int
    } else {
        0
    }
}

/// Drains a native array of `count` elements into an owned sequence, in array order.
///
/// `read(i)` reads element `i`. It is called once for each `i` below `count`, in order, and for
/// no other index: in particular, for a count of zero or less it is never called, so the start
/// of the array is never read. A reader whose precondition admits only the indices below
/// `count` is therefore enough.
pub fn drain_native_array<T, F: Fn(usize) -> T>(count: i32, read: F) -> (r: Vec<T>)
    requires
        forall|i: usize| (i as int) < element_count(count) ==> read.requires((i,)),
    ensures
        r@.len() == element_count(count),
        forall|i: int| 0 <= i < r@.len() ==> read.ensures((i as usize,), r@[i]),
{
    let mut out: Vec<T> = Vec::new();
    if count <= 0 {
        return out;
    }
    let n: usize = count as usize;
    let mut i: usize = 0;
    while i < n
        invariant
            n as int == element_count(count),
            i <= n,
            out@.len() == i,
            forall|j: usize| (j as int) < element_count(count) ==> read.requires((j,)),
            forall|j: int| 0 <= j < i ==> read.ensures((j as usize,), out@[j]),
        decreases n - i,
    {
        let element = read(i);
        out.push(element);
        i = i + 1;
    }
    out
}

/// What a native string decodes to: the fixed text `(NULL)` for a null handle, `(UTF8-ERROR)`
/// for bytes that are not UTF-8, and the decoded characters otherwise.
pub open spec fn decoded_text(input: Option<Seq<u8>>) -> Seq<char> {
    match input {
        None => "(NULL)"@,
        Some(bytes) => if valid_utf8(bytes) {
            decode_utf8(bytes)
        } else {
            "(UTF8-ERROR)"@
        },
    }
}

/// Relies on std::str::from_utf8: it accepts exactly the valid UTF-8 byte sequences, and the
/// text it returns is what they encode.
#[verifier::external_body]
fn utf8_to_string(bytes: &[u8]) -> (r: Option<String>)
    ensures
        r.is_some() == valid_utf8(bytes@),
        r matches Some(s) ==> s@ == decode_utf8(bytes@),
{
    match std::str::from_utf8(bytes) {
        Ok(s) => Some(s.to_owned()),
        Err(_) => None,
    }
}

/// Decodes the bytes of a native string, up to but not including its terminating zero; `None`
/// stands for a null handle. Decoding never fails: it falls back to fixed text.
pub fn decode_native_string(input: Option<&[u8]>) -> (r: String)
    ensures
        r@ == decoded_text(
            match input {
                Some(b) => Some(b@),
                None => None,
            },
        ),
{
    match input {
        None => "(NULL)".to_owned(),
        Some(bytes) => match utf8_to_string(bytes) {
            Some(s) => s,
            None => "(UTF8-ERROR)".to_owned(),
        },
    }
}

} // verus!
