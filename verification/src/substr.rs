use vstd::prelude::*;

verus! {

/// `needle` occurs in `hay` at index `i`.
pub open spec fn match_at(hay: Seq<u8>, needle: Seq<u8>, i: int) -> bool {
    0 <= i && i + needle.len() <= hay.len() && hay.subrange(i, i + needle.len() as int)
        == needle
}

/// `needle` occurs nowhere in `hay[lo..hi]` (as a start index).
pub open spec fn no_match_before(hay: Seq<u8>, needle: Seq<u8>, lo: int, hi: int) -> bool {
    forall|j: int| lo <= j < hi ==> !match_at(hay, needle, j)
}

/// `needle` occurs nowhere in `hay` at or after index `from`.
pub open spec fn no_match_from(hay: Seq<u8>, needle: Seq<u8>, from: int) -> bool {
    forall|j: int| from <= j ==> !match_at(hay, needle, j)
}

/// Does `needle` occur in `hay` starting exactly at index `at`?
fn matches_at(hay: &Vec<u8>, at: usize, needle: &Vec<u8>) -> (r: bool)
    requires
        at <= hay@.len(),
        needle@.len() <= hay@.len() - at,
    ensures
        r == match_at(hay@, needle@, at as int),
{
    let hay_len = hay.len();
    let mut j: usize = 0;
    while j < needle.len()
        invariant
            0 <= j <= needle@.len(),
            at + needle@.len() <= hay@.len(),
            hay@.len() == hay_len,
            forall|k: int| 0 <= k < j ==> hay@[at + k] == needle@[k],
        decreases needle@.len() - j,
    {
        if hay[at + j] != needle[j] {
            proof {
                assert(hay@.subrange(at as int, at + needle@.len() as int)[j as int]
                    != needle@[j as int]);
            }
            return false;
        }
        j = j + 1;
    }
    proof {
        assert(hay@.subrange(at as int, at + needle@.len() as int) =~= needle@);
    }
    true
}

/// First index `i >= from` at which `needle` occurs in `hay`, if any.
///
/// This is the delimiter search of the expectation machine: `Some(i)` points
/// at the first occurrence at or after `from`, and `None` promises there is
/// none.
pub fn find_from(hay: &Vec<u8>, from: usize, needle: &Vec<u8>) -> (r: Option<usize>)
    requires
        from <= hay@.len(),
    ensures
        match r {
            Some(i) => from <= i && match_at(hay@, needle@, i as int) && no_match_before(
                hay@,
                needle@,
                from as int,
                i as int,
            ),
            None => no_match_from(hay@, needle@, from as int),
        },
{
    let mut i: usize = from;
    loop
        invariant
            from <= i <= hay@.len(),
            no_match_before(hay@, needle@, from as int, i as int),
        decreases hay@.len() - i,
    {
        if hay.len() - i < needle.len() {
            proof {
                assert forall|j: int| i <= j implies !match_at(hay@, needle@, j) by {
                    if j + needle@.len() <= hay@.len() {
                        assert(j < i);
                    }
                }
            }
            return None;
        }
        if matches_at(hay, i, needle) {
            return Some(i);
        }
        proof {
            if needle@.len() == 0 {
                assert(hay@.subrange(i as int, i as int) =~= needle@);
            }
        }
        i = i + 1;
    }
}

/// First index at which `needle` occurs anywhere in `hay`, if any.
pub fn find_substr(hay: &Vec<u8>, needle: &Vec<u8>) -> (r: Option<usize>)
    ensures
        match r {
            Some(i) => match_at(hay@, needle@, i as int) && no_match_before(
                hay@,
                needle@,
                0,
                i as int,
            ),
            None => no_match_from(hay@, needle@, 0),
        },
{
    find_from(hay, 0, needle)
}

} // verus!
