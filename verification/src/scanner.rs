//! Pattern search over the bytes of one mapped region of a debuggee's
//! address space. The scan itself is pure; reading the region's bytes and
//! enumerating regions is the session's concern.

use vstd::prelude::*;

verus! {

/// `pat` occurs in `data` at offset `i`: the whole match lies inside the
/// data and every byte agrees. In particular no occurrence can run past
/// the end of the data.
pub open spec fn match_at(data: Seq<u8>, pat: Seq<u8>, i: int) -> bool {
    0 <= i && i + pat.len() <= data.len() && data.subrange(i, i + pat.len()) == pat
}

/// A pattern no longer than the data that equals the data's first bytes
/// occurs at offset 0, so a scan of such a region reports its start.
pub proof fn lemma_prefix_match(data: Seq<u8>, pat: Seq<u8>)
    requires
        pat.len() <= data.len(),
        pat == data.subrange(0, pat.len() as int),
    ensures
        match_at(data, pat, 0),
{
}

/// Every offset within `data` where `pattern` occurs, in ascending
/// order: exactly the occurrences that fit inside the data, and never an
/// offset whose match would run past the end.
pub fn scan_offsets(data: &Vec<u8>, pattern: &Vec<u8>) -> (r: Vec<usize>)
    ensures
        forall|j: int|
            0 <= j < r@.len() ==> r@[j] < data@.len() && match_at(
                data@,
                pattern@,
                #[trigger] r@[j] as int,
            ),
        forall|i: int|
            0 <= i < data@.len() && #[trigger] match_at(data@, pattern@, i) ==> r@.contains(
                i as usize,
            ),
        forall|j1: int, j2: int| 0 <= j1 < j2 < r@.len() ==> r@[j1] < r@[j2],
{
    let n = data.len();
    let plen = pattern.len();
    let mut r: Vec<usize> = Vec::new();
    let mut i: usize = 0;
    while i < n && n - i >= plen
        invariant
            n == data@.len(),
            plen == pattern@.len(),
            i <= data@.len(),
            forall|j: int|
                0 <= j < r@.len() ==> r@[j] < i && match_at(
                    data@,
                    pattern@,
                    #[trigger] r@[j] as int,
                ),
            forall|x: int|
                0 <= x < i && #[trigger] match_at(data@, pattern@, x) ==> r@.contains(x as usize),
            forall|j1: int, j2: int| 0 <= j1 < j2 < r@.len() ==> r@[j1] < r@[j2],
        decreases data@.len() - i,
    {
        let mut k: usize = 0;
        let mut is_match = true;
        while k < plen && is_match
            invariant
                n == data@.len(),
                plen == pattern@.len(),
                i + pattern@.len() <= data@.len(),
                k <= pattern@.len(),
                is_match ==> forall|m: int| 0 <= m < k ==> data@[i + m] == pattern@[m],
                !is_match ==> !match_at(data@, pattern@, i as int),
            decreases pattern@.len() - k + (if is_match { 1int } else { 0int }),
        {
            if data[i + k] != pattern[k] {
                proof {
                    assert(data@.subrange(i as int, i + pattern@.len())[k as int] == data@[i + k]);
                }
                is_match = false;
            } else {
                k += 1;
            }
        }
        let ghost r0 = r@;
        if is_match {
            proof {
                assert(data@.subrange(i as int, i + pattern@.len()) =~= pattern@);
            }
            r.push(i);
        }
        proof {
            assert forall|x: int|
                0 <= x < i + 1 && #[trigger] match_at(data@, pattern@, x) implies r@.contains(
                x as usize,
            ) by {
                if x < i {
                    assert(r0.contains(x as usize));
                    let w = choose|w: int| 0 <= w < r0.len() && r0[w] == x as usize;
                    assert(r@[w] == x as usize);
                } else {
                    assert(is_match);
                    assert(r@[r@.len() - 1] == i as usize);
                }
            }
        }
        i += 1;
    }
    proof {
        assert forall|x: int|
            0 <= x < data@.len() && #[trigger] match_at(data@, pattern@, x) implies r@.contains(
            x as usize,
        ) by {
            if x >= i {
                assert(x + pattern@.len() > data@.len());
            }
        }
    }
    r
}

/// Every absolute address in a region loaded at `base` where `pattern`
/// occurs, in ascending order. `base` plus the region's size must fit in
/// an address word.
pub fn scan_region(data: &Vec<u8>, pattern: &Vec<u8>, base: u64) -> (r: Vec<u64>)
    requires
        base + data@.len() <= u64::MAX,
    ensures
        forall|j: int|
            0 <= j < r@.len() ==> base <= #[trigger] r@[j] && r@[j] - base < data@.len()
                && match_at(data@, pattern@, r@[j] - base),
        forall|i: int|
            0 <= i < data@.len() && #[trigger] match_at(data@, pattern@, i) ==> r@.contains(
                (base + i) as u64,
            ),
        forall|j1: int, j2: int| 0 <= j1 < j2 < r@.len() ==> r@[j1] < r@[j2],
{
    let n = data.len();
    let offs = scan_offsets(data, pattern);
    let mut r: Vec<u64> = Vec::new();
    let mut j: usize = 0;
    while j < offs.len()
        invariant
            base + data@.len() <= u64::MAX,
            j <= offs@.len(),
            r@.len() == j,
            forall|x: int|
                0 <= x < offs@.len() ==> offs@[x] < data@.len() && match_at(
                    data@,
                    pattern@,
                    #[trigger] offs@[x] as int,
                ),
            forall|i: int|
                0 <= i < data@.len() && #[trigger] match_at(data@, pattern@, i) ==> offs@.contains(
                    i as usize,
                ),
            forall|x1: int, x2: int| 0 <= x1 < x2 < offs@.len() ==> offs@[x1] < offs@[x2],
            forall|x: int| 0 <= x < j ==> #[trigger] r@[x] == base + offs@[x],
        decreases offs@.len() - j,
    {
        let off = offs[j];
        r.push(base + (off as u64));
        j += 1;
    }
    proof {
        assert forall|i: int|
            0 <= i < data@.len() && #[trigger] match_at(data@, pattern@, i) implies r@.contains(
            (base + i) as u64,
        ) by {
            assert(i < n);
            assert(offs@.contains(i as usize));
            let x0 = choose|x0: int| 0 <= x0 < offs@.len() && offs@[x0] == i as usize;
            assert(r@[x0] == (base + i) as u64);
        }
    }
    r
}

} // verus!
