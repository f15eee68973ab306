use vstd::prelude::*;

verus! {

/// Samples per pitch-analysis window.
pub const ANALYSIS_CHUNK: usize = 1024;

/// Samples per block handed to the encoder; the encoder buffers on this size.
pub const ENCODE_BLOCK: usize = 512;

/// A half-open range `[start, end)` of sample positions.
#[derive(Clone, Copy, Debug, PartialEq, Eq, Structural)]
pub struct Window {
    pub start: usize,
    pub end: usize,
}

/// The number of windows of `size` samples needed to cover `len` samples:
/// `len / size` rounded up.
pub open spec fn window_count(len: nat, size: nat) -> nat
    recommends
        size > 0,
{
    if len == 0 {
        0
    } else {
        ((len - 1) as nat / size + 1) as nat
    }
}

/// Where the `i`-th window ends when `len` samples are cut into windows of
/// `size`; it starts at `i * size`.
pub open spec fn window_end(i: nat, len: nat, size: nat) -> nat {
    if (i + 1) * size <= len {
        (i + 1) * size
    } else {
        len
    }
}

/// Cuts `len` samples into consecutive, non-overlapping windows of `size`
/// samples; the last window holds what is left and may be shorter.
pub fn windows(len: usize, size: usize) -> (r: Vec<Window>)
    requires
        size > 0,
    ensures
        r.len() == window_count(len as nat, size as nat),
        forall|i: int|
            0 <= i < r.len() ==> (#[trigger] r[i]).start == i * size && r[i].end == window_end(
                i as nat,
                len as nat,
                size as nat,
            ),
        forall|i: int| 0 <= i < r.len() ==> #[trigger] r[i].start < r[i].end,
{
    let mut r: Vec<Window> = Vec::new();
    let mut start: usize = 0;
    assert(r.len() * size == 0) by (nonlinear_arith)
        requires
            r.len() == 0,
    ;
    while start < len
        invariant
            size > 0,
            start <= len,
            r.len() * size <= len ==> start == r.len() * size,
            r.len() * size > len ==> start == len,
            start < len ==> r.len() < window_count(len as nat, size as nat),
            start == len ==> r.len() == window_count(len as nat, size as nat),
            forall|i: int|
                0 <= i < r.len() ==> (#[trigger] r[i]).start == i * size && r[i].end == window_end(
                    i as nat,
                    len as nat,
                    size as nat,
                ),
            forall|i: int| 0 <= i < r.len() ==> #[trigger] r[i].start < r[i].end,
        decreases len - start,
    {
        let end: usize = if len - start > size {
            start + size
        } else {
            len
        };
        proof {
            lemma_window_step(r.len() as nat, len as nat, size as nat);
        }
        r.push(Window { start, end });
        start = end;
    }
    r
}

proof fn lemma_window_step(k: nat, len: nat, size: nat)
    requires
        size > 0,
        k * size < len,
    ensures
        k < window_count(len, size),
        (k + 1) * size < len ==> k + 1 < window_count(len, size),
        (k + 1) * size >= len ==> k + 1 == window_count(len, size),
        (k + 1) * size == k * size + size,
{
    assert((k + 1) * size == k * size + size) by (nonlinear_arith);
    let q = ((len - 1) as nat / size) as nat;
    vstd::arithmetic::div_mod::lemma_fundamental_div_mod((len - 1) as int, size as int);
    vstd::arithmetic::div_mod::lemma_mod_bound((len - 1) as int, size as int);
    assert(q * size <= len - 1);
    assert((q + 1) * size == q * size + size) by (nonlinear_arith);
    assert((q + 1) * size > len - 1);
    if k >= q + 1 {
        assert(k * size >= (q + 1) * size) by (nonlinear_arith)
            requires
                k >= q + 1,
        ;
    }
    if k + 1 <= q {
        assert((k + 1) * size <= q * size) by (nonlinear_arith)
            requires
                k + 1 <= q,
        ;
    }
}

} // verus!
