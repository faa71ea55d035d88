//! The short name of a process, out of the kernel's fixed-width buffer.

use vstd::prelude::*;
use vstd::utf8::{decode_utf8, valid_utf8};

verus! {

/// The text that `String::from_utf8_lossy` makes of a byte sequence.
pub uninterp spec fn lossy_text(bytes: Seq<u8>) -> Seq<char>;

/// `String::from_utf8_lossy`, made into an owned string.
///
/// Not proved: that the result is a function of the bytes alone, written
/// `lossy_text`, and that a well-formed UTF-8 sequence is decoded as it
/// stands. What is put in the place of malformed bytes is left to the
/// standard library.
#[verifier::external_body]
fn decode_lossy(bytes: &Vec<u8>) -> (text: String)
    ensures
        text@ == lossy_text(bytes@),
        valid_utf8(bytes@) ==> text@ == decode_utf8(bytes@),
{
    String::from_utf8_lossy(bytes.as_slice()).into_owned()
}

/// How many bytes of `comm` come before its first NUL byte; all of them, if
/// it has none.
pub open spec fn name_len(comm: Seq<u8>) -> nat
    decreases comm.len(),
{
    if comm.len() == 0 || comm[0] == 0 {
        0
    } else {
        1 + name_len(comm.skip(1))
    }
}

/// The bytes of the name that the buffer `comm` holds: those before its
/// first NUL byte.
pub open spec fn name_bytes(comm: Seq<u8>) -> Seq<u8> {
    comm.take(name_len(comm) as int)
}

/// The text of the name that the buffer `comm` holds.
pub open spec fn name_text(comm: Seq<u8>) -> Seq<char> {
    lossy_text(name_bytes(comm))
}

/// `name_len` is the place of the first NUL byte, or the length of a buffer
/// without one.
pub proof fn lemma_name_len(comm: Seq<u8>)
    ensures
        name_len(comm) <= comm.len(),
        forall|i: int| 0 <= i < name_len(comm) ==> comm[i] != 0,
        name_len(comm) < comm.len() ==> comm[name_len(comm) as int] == 0,
    decreases comm.len(),
{
    if comm.len() == 0 || comm[0] == 0 {
    } else {
        let rest = comm.skip(1);
        lemma_name_len(rest);
        assert forall|i: int| 0 <= i < name_len(comm) implies comm[i] != 0 by {
            if i > 0 {
                assert(rest[i - 1] == comm[i]);
            }
        }
        if name_len(comm) < comm.len() {
            assert(rest[name_len(rest) as int] == comm[name_len(comm) as int]);
        }
    }
}

/// A prefix free of NUL bytes that ends at a NUL byte, or at the end of the
/// buffer, is the name.
pub proof fn lemma_name_len_is(comm: Seq<u8>, n: int)
    requires
        0 <= n <= comm.len(),
        forall|i: int| 0 <= i < n ==> comm[i] != 0,
        n < comm.len() ==> comm[n] == 0,
    ensures
        name_len(comm) == n,
{
    lemma_name_len(comm);
    let m = name_len(comm) as int;
    if m < n {
        assert(comm[m] == 0);
    } else if n < m {
        assert(comm[n] != 0);
    }
}

/// Where the name in `comm` ends.
pub fn name_end(comm: &Vec<u8>) -> (end: usize)
    ensures
        end == name_len(comm@),
{
    let mut end: usize = 0;
    while end < comm.len() && comm[end] != 0
        invariant
            end <= comm.len(),
            forall|i: int| 0 <= i < end ==> comm@[i] != 0,
        decreases comm.len() - end,
    {
        end += 1;
    }
    proof {
        lemma_name_len_is(comm@, end as int);
    }
    end
}

/// The short name held in the buffer `comm`, as text.
///
/// The name is what comes before the first NUL byte. Bytes that are no
/// well-formed UTF-8 are replaced, so the conversion never fails.
pub fn short_name(comm: &Vec<u8>) -> (name: String)
    ensures
        name@ == name_text(comm@),
        valid_utf8(name_bytes(comm@)) ==> name@ == decode_utf8(name_bytes(comm@)),
{
    let end: usize = name_end(comm);
    proof {
        lemma_name_len(comm@);
    }
    let mut bytes: Vec<u8> = Vec::new();
    let mut i: usize = 0;
    while i < end
        invariant
            i <= end <= comm.len(),
            bytes@ == comm@.take(i as int),
        decreases end - i,
    {
        bytes.push(comm[i]);
        i += 1;
        assert(bytes@ =~= comm@.take(i as int));
    }
    decode_lossy(&bytes)
}

} // verus!
