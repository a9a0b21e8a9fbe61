//! Text helpers: string comparison for token dispatch, and the whitespace
//! trimming applied to the captured revision hash before it is written.

use vstd::prelude::*;

verus! {

/// Compares two strings character by character.
pub fn str_eq(a: &str, b: &str) -> (r: bool)
    ensures
        r == (a@ == b@),
{
    let alen = a.unicode_len();
    let blen = b.unicode_len();
    if alen != blen {
        return false;
    }
    let mut i: usize = 0;
    while i < alen
        invariant
            alen == a@.len(),
            alen == b@.len(),
            i <= alen,
            forall|j: int| 0 <= j < i ==> a@[j] == b@[j],
        decreases alen - i,
    {
        let ca = a.get_char(i);
        let cb = b.get_char(i);
        if ca != cb {
            return false;
        }
        i += 1;
    }
    proof {
        assert(a@ =~= b@);
    }
    true
}

/// Whether a byte is one of the one-byte whitespace characters that trimming
/// removes: tab, line feed, vertical tab, form feed, carriage return, space.
pub open spec fn is_ascii_ws(b: u8) -> bool {
    b == 9 || b == 10 || b == 11 || b == 12 || b == 13 || b == 32
}

/// The bytes left after removing leading whitespace.
pub open spec fn trim_start_spec(s: Seq<u8>) -> Seq<u8>
    decreases s.len(),
{
    if s.len() > 0 && is_ascii_ws(s[0]) {
        trim_start_spec(s.drop_first())
    } else {
        s
    }
}

/// The bytes left after removing trailing whitespace.
pub open spec fn trim_end_spec(s: Seq<u8>) -> Seq<u8>
    decreases s.len(),
{
    if s.len() > 0 && is_ascii_ws(s.last()) {
        trim_end_spec(s.drop_last())
    } else {
        s
    }
}

/// The bytes left after removing whitespace from both ends.
pub open spec fn trim_spec(s: Seq<u8>) -> Seq<u8> {
    trim_end_spec(trim_start_spec(s))
}

fn is_ws_byte(b: u8) -> (r: bool)
    ensures
        r == is_ascii_ws(b),
{
    b == 9 || b == 10 || b == 11 || b == 12 || b == 13 || b == 32
}

proof fn lemma_trim_start_skip(s: Seq<u8>, i: int)
    requires
        0 <= i <= s.len(),
        forall|j: int| 0 <= j < i ==> is_ascii_ws(s[j]),
    ensures
        trim_start_spec(s) == trim_start_spec(s.skip(i)),
    decreases i,
{
    if i > 0 {
        assert(s.drop_first() =~= s.skip(1));
        lemma_trim_start_skip(s.skip(1), i - 1);
        assert(s.skip(1).skip(i - 1) =~= s.skip(i));
    } else {
        assert(s.skip(0) =~= s);
    }
}

proof fn lemma_trim_end_take(s: Seq<u8>, k: int)
    requires
        0 <= k <= s.len(),
        forall|j: int| k <= j < s.len() ==> is_ascii_ws(s[j]),
    ensures
        trim_end_spec(s) == trim_end_spec(s.take(k)),
    decreases s.len() - k,
{
    if k < s.len() {
        assert(is_ascii_ws(s.last()));
        assert(s.drop_last() =~= s.take(s.len() - 1));
        lemma_trim_end_take(s.take(s.len() - 1), k);
        assert(s.take(s.len() - 1).take(k) =~= s.take(k));
    } else {
        assert(s.take(s.len() as int) =~= s);
    }
}

/// Removes leading and trailing one-byte whitespace from a captured output,
/// as the tool does to the revision query's output before writing the hash
/// marker file.
pub fn trim_ascii_whitespace(raw: &Vec<u8>) -> (t: Vec<u8>)
    ensures
        t@ == trim_spec(raw@),
{
    let len = raw.len();
    let mut lo: usize = 0;
    loop
        invariant
            len == raw@.len(),
            lo <= len,
            forall|j: int| 0 <= j < lo ==> is_ascii_ws(raw@[j]),
        ensures
            lo <= len,
            forall|j: int| 0 <= j < lo ==> is_ascii_ws(raw@[j]),
            lo == len || !is_ascii_ws(raw@[lo as int]),
        decreases len - lo,
    {
        if lo == len {
            break ;
        }
        if is_ws_byte(raw[lo]) {
            lo += 1;
        } else {
            break ;
        }
    }
    let mut hi: usize = len;
    loop
        invariant
            len == raw@.len(),
            lo <= hi <= len,
            forall|j: int| hi <= j < len ==> is_ascii_ws(raw@[j]),
        ensures
            lo <= hi <= len,
            forall|j: int| hi <= j < len ==> is_ascii_ws(raw@[j]),
            hi == lo || !is_ascii_ws(raw@[hi - 1]),
        decreases hi,
    {
        if hi == lo {
            break ;
        }
        if is_ws_byte(raw[hi - 1]) {
            hi -= 1;
        } else {
            break ;
        }
    }
    proof {
        lemma_trim_start_skip(raw@, lo as int);
        // After the first loop, the head of the remainder is not whitespace,
        // so removing leading whitespace is done.
        assert(trim_start_spec(raw@.skip(lo as int)) == raw@.skip(lo as int));
        lemma_trim_end_take(raw@.skip(lo as int), hi - lo);
        assert(raw@.skip(lo as int).take(hi - lo) =~= raw@.subrange(lo as int, hi as int));
        // Likewise the last kept byte, if any, is not whitespace.
        assert(trim_end_spec(raw@.subrange(lo as int, hi as int)) == raw@.subrange(
            lo as int,
            hi as int,
        ));
        assert(trim_spec(raw@) == raw@.subrange(lo as int, hi as int));
    }
    let mut t: Vec<u8> = Vec::new();
    let mut j: usize = lo;
    while j < hi
        invariant
            len == raw@.len(),
            lo <= j <= hi <= len,
            t@ =~= raw@.subrange(lo as int, j as int),
        decreases hi - j,
    {
        t.push(raw[j]);
        j += 1;
    }
    proof {
        assert(t@ =~= raw@.subrange(lo as int, hi as int));
    }
    t
}

} // verus!
