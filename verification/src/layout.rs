use vstd::prelude::*;

verus! {

/// Row stride for a buffer-texture copy: the tight row byte count
/// `4 * ncols` rounded up to the next multiple of 256 bytes, the
/// alignment the device requires of such copies.
pub open spec fn padded_row_bytes(ncols: int) -> int {
    ((4 * ncols + 255) / 256) * 256
}

pub proof fn lemma_padded_row_bytes(ncols: int)
    requires
        ncols >= 0,
    ensures
        padded_row_bytes(ncols) % 256 == 0,
        4 * ncols <= padded_row_bytes(ncols) <= 4 * ncols + 255,
{
    let q = (4 * ncols + 255) / 256;
    vstd::arithmetic::div_mod::lemma_fundamental_div_mod(4 * ncols + 255, 256);
    vstd::arithmetic::div_mod::lemma_mod_division_less_than_divisor(4 * ncols + 255, 256);
    assert(4 * ncols + 255 == 256 * q + (4 * ncols + 255) % 256);
    vstd::arithmetic::div_mod::lemma_fundamental_div_mod_converse(q * 256, 256, q, 0);
}

/// Row stride that the buffer-texture copies use for an image
/// `ncols` pixels wide.
pub fn padded_bytes_per_row(ncols: u32) -> (r: u32)
    requires
        4 * ncols + 255 <= u32::MAX,
    ensures
        r == padded_row_bytes(ncols as int),
        r % 256 == 0,
        4 * ncols <= r <= 4 * ncols + 255,
{
    proof {
        lemma_padded_row_bytes(ncols as int);
    }
    ((4 * ncols + 255) / 256) * 256
}

/// The `row_bytes` bytes of row `i` of a buffer whose rows are laid
/// out `stride` bytes apart.
pub open spec fn row_of(s: Seq<u8>, i: int, stride: int, row_bytes: int) -> Seq<u8> {
    s.subrange(i * stride, i * stride + row_bytes)
}

/// `n` zero bytes (empty when `n < 0`).
pub open spec fn zeros(n: int) -> Seq<u8> {
    Seq::new((if n < 0 { 0int } else { n }) as nat, |i: int| 0u8)
}

/// The first `nrows` rows of `tight` (rows of `row_bytes` bytes), each
/// padded with zero bytes to a stride of `pbr`.
pub open spec fn pad_rows_spec(tight: Seq<u8>, row_bytes: int, pbr: int, nrows: int) -> Seq<u8>
    decreases nrows,
{
    if nrows <= 0 {
        Seq::empty()
    } else {
        pad_rows_spec(tight, row_bytes, pbr, nrows - 1) + row_of(
            tight,
            nrows - 1,
            row_bytes,
            row_bytes,
        ) + zeros(pbr - row_bytes)
    }
}

/// The first `nrows` rows of `padded` (stride `pbr`), with the bytes
/// beyond the first `row_bytes` of each row dropped.
pub open spec fn unpad_rows_spec(padded: Seq<u8>, row_bytes: int, pbr: int, nrows: int) -> Seq<
    u8,
>
    decreases nrows,
{
    if nrows <= 0 {
        Seq::empty()
    } else {
        unpad_rows_spec(padded, row_bytes, pbr, nrows - 1) + row_of(
            padded,
            nrows - 1,
            pbr,
            row_bytes,
        )
    }
}

pub proof fn lemma_pad_rows_len(tight: Seq<u8>, row_bytes: int, pbr: int, nrows: int)
    requires
        0 <= row_bytes <= pbr,
        nrows >= 0,
        tight.len() >= nrows * row_bytes,
    ensures
        pad_rows_spec(tight, row_bytes, pbr, nrows).len() == nrows * pbr,
    decreases nrows,
{
    if nrows > 0 {
        assert((nrows - 1) * row_bytes + row_bytes == nrows * row_bytes) by (nonlinear_arith);
        assert((nrows - 1) * row_bytes >= 0) by (nonlinear_arith)
            requires
                nrows >= 1,
                row_bytes >= 0,
        ;
        lemma_pad_rows_len(tight, row_bytes, pbr, nrows - 1);
        assert((nrows - 1) * pbr + pbr == nrows * pbr) by (nonlinear_arith);
        assert(row_of(tight, nrows - 1, row_bytes, row_bytes).len() == row_bytes);
        assert(zeros(pbr - row_bytes).len() == pbr - row_bytes);
        assert(pad_rows_spec(tight, row_bytes, pbr, nrows) == pad_rows_spec(
            tight,
            row_bytes,
            pbr,
            nrows - 1,
        ) + row_of(tight, nrows - 1, row_bytes, row_bytes) + zeros(pbr - row_bytes));
        assert(pad_rows_spec(tight, row_bytes, pbr, nrows).len() == (nrows - 1) * pbr + pbr);
    } else {
        assert(pad_rows_spec(tight, row_bytes, pbr, nrows).len() == 0);
        assert(nrows * pbr == 0) by (nonlinear_arith)
            requires
                nrows == 0,
        ;
    }
}

pub proof fn lemma_unpad_rows_len(padded: Seq<u8>, row_bytes: int, pbr: int, nrows: int)
    requires
        0 <= row_bytes <= pbr,
        nrows >= 0,
        padded.len() >= nrows * pbr,
    ensures
        unpad_rows_spec(padded, row_bytes, pbr, nrows).len() == nrows * row_bytes,
    decreases nrows,
{
    if nrows > 0 {
        assert((nrows - 1) * pbr + pbr == nrows * pbr) by (nonlinear_arith);
        assert((nrows - 1) * pbr >= 0 && (nrows - 1) * pbr + row_bytes <= nrows * pbr)
            by (nonlinear_arith)
            requires
                nrows >= 1,
                0 <= row_bytes <= pbr,
        ;
        lemma_unpad_rows_len(padded, row_bytes, pbr, nrows - 1);
        assert((nrows - 1) * row_bytes + row_bytes == nrows * row_bytes) by (nonlinear_arith);
        assert(row_of(padded, nrows - 1, pbr, row_bytes).len() == row_bytes);
        assert(unpad_rows_spec(padded, row_bytes, pbr, nrows) == unpad_rows_spec(
            padded,
            row_bytes,
            pbr,
            nrows - 1,
        ) + row_of(padded, nrows - 1, pbr, row_bytes));
    } else {
        assert(unpad_rows_spec(padded, row_bytes, pbr, nrows).len() == 0);
        assert(nrows * row_bytes == 0) by (nonlinear_arith)
            requires
                nrows == 0,
        ;
    }
}

/// Every row of `padded` (stride `pbr`) begins with the corresponding
/// row of `tight` (tight stride `row_bytes`).
pub open spec fn rows_match(
    padded: Seq<u8>,
    tight: Seq<u8>,
    row_bytes: int,
    pbr: int,
    nrows: int,
) -> bool {
    forall|i: int|
        0 <= i < nrows ==> #[trigger] row_of(padded, i, pbr, row_bytes) == row_of(
            tight,
            i,
            row_bytes,
            row_bytes,
        )
}

/// Padding never alters a row: the buffer the staged upload and the
/// readback work with carries, row for row, exactly the bytes of the
/// tight buffer.
pub proof fn lemma_pad_rows_match(tight: Seq<u8>, row_bytes: int, pbr: int, nrows: int)
    requires
        0 <= row_bytes <= pbr,
        nrows >= 0,
        tight.len() >= nrows * row_bytes,
    ensures
        rows_match(pad_rows_spec(tight, row_bytes, pbr, nrows), tight, row_bytes, pbr, nrows),
    decreases nrows,
{
    if nrows > 0 {
        let p_prev = pad_rows_spec(tight, row_bytes, pbr, nrows - 1);
        let p = pad_rows_spec(tight, row_bytes, pbr, nrows);
        assert((nrows - 1) * row_bytes >= 0 && (nrows - 1) * row_bytes + row_bytes <= nrows
            * row_bytes) by (nonlinear_arith)
            requires
                nrows >= 1,
                row_bytes >= 0,
        ;
        lemma_pad_rows_match(tight, row_bytes, pbr, nrows - 1);
        lemma_pad_rows_len(tight, row_bytes, pbr, nrows - 1);
        lemma_pad_rows_len(tight, row_bytes, pbr, nrows);
        assert forall|i: int| 0 <= i < nrows implies #[trigger] row_of(p, i, pbr, row_bytes)
            == row_of(tight, i, row_bytes, row_bytes) by {
            assert(i * pbr >= 0 && i * pbr + pbr <= nrows * pbr) by (nonlinear_arith)
                requires
                    0 <= i < nrows,
                    pbr >= 0,
            ;
            if i < nrows - 1 {
                assert(i * pbr + pbr <= (nrows - 1) * pbr) by (nonlinear_arith)
                    requires
                        0 <= i < nrows - 1,
                        pbr >= 0,
                ;
                assert(row_of(p, i, pbr, row_bytes) =~= row_of(p_prev, i, pbr, row_bytes));
                assert(row_of(p_prev, i, pbr, row_bytes) == row_of(
                    tight,
                    i,
                    row_bytes,
                    row_bytes,
                ));
            } else {
                assert(p_prev.len() == (nrows - 1) * pbr);
                assert(row_of(p, i, pbr, row_bytes) =~= row_of(
                    tight,
                    nrows - 1,
                    row_bytes,
                    row_bytes,
                ));
            }
        }
    }
}

/// Whatever bytes fill the padding, dropping it recovers the tight
/// buffer: if every row of `padded` begins with the corresponding row
/// of `tight`, then unpadding `padded` yields `tight` exactly.
pub proof fn lemma_unpad_rows_match(
    padded: Seq<u8>,
    tight: Seq<u8>,
    row_bytes: int,
    pbr: int,
    nrows: int,
)
    requires
        0 <= row_bytes <= pbr,
        nrows >= 0,
        padded.len() >= nrows * pbr,
        tight.len() == nrows * row_bytes,
        rows_match(padded, tight, row_bytes, pbr, nrows),
    ensures
        unpad_rows_spec(padded, row_bytes, pbr, nrows) == tight,
    decreases nrows,
{
    if nrows <= 0 {
        assert(nrows * row_bytes == 0) by (nonlinear_arith)
            requires
                nrows == 0,
        ;
        assert(unpad_rows_spec(padded, row_bytes, pbr, nrows) =~= tight);
    } else {
        let prev_len = (nrows - 1) * row_bytes;
        assert(prev_len >= 0 && prev_len + row_bytes == nrows * row_bytes) by (nonlinear_arith)
            requires
                prev_len == (nrows - 1) * row_bytes,
                nrows >= 1,
                row_bytes >= 0,
        ;
        assert((nrows - 1) * pbr >= 0 && (nrows - 1) * pbr + pbr <= nrows * pbr)
            by (nonlinear_arith)
            requires
                nrows >= 1,
                pbr >= 0,
        ;
        let tight_prev = tight.take(prev_len);
        assert forall|i: int| 0 <= i < nrows - 1 implies #[trigger] row_of(
            padded,
            i,
            pbr,
            row_bytes,
        ) == row_of(tight_prev, i, row_bytes, row_bytes) by {
            assert(i * row_bytes >= 0 && i * row_bytes + row_bytes <= prev_len)
                by (nonlinear_arith)
                requires
                    0 <= i < nrows - 1,
                    row_bytes >= 0,
                    prev_len == (nrows - 1) * row_bytes,
            ;
            assert(row_of(tight_prev, i, row_bytes, row_bytes) =~= row_of(
                tight,
                i,
                row_bytes,
                row_bytes,
            ));
            assert(row_of(padded, i, pbr, row_bytes) == row_of(tight, i, row_bytes, row_bytes));
        }
        lemma_unpad_rows_match(padded, tight_prev, row_bytes, pbr, nrows - 1);
        assert(row_of(padded, nrows - 1, pbr, row_bytes) == row_of(
            tight,
            nrows - 1,
            row_bytes,
            row_bytes,
        ));
        assert(unpad_rows_spec(padded, row_bytes, pbr, nrows) =~= tight);
    }
}

/// Re-lays a tight buffer of `nrows` rows of `row_bytes` bytes each at
/// a stride of `pbr` bytes per row, filling the gap with zero bytes.
pub fn pad_rows(tight: &Vec<u8>, row_bytes: u32, pbr: u32, nrows: u32) -> (out: Vec<u8>)
    requires
        0 < row_bytes <= pbr,
        tight@.len() == nrows * row_bytes,
        nrows * pbr <= u32::MAX,
    ensures
        out@ == pad_rows_spec(tight@, row_bytes as int, pbr as int, nrows as int),
        out@.len() == nrows * pbr,
{
    let mut out: Vec<u8> = Vec::new();
    let mut i: u32 = 0;
    while i < nrows
        invariant
            0 <= i <= nrows,
            0 < row_bytes <= pbr,
            tight@.len() == nrows * row_bytes,
            nrows * pbr <= u32::MAX,
            out@ == pad_rows_spec(tight@, row_bytes as int, pbr as int, i as int),
        decreases nrows - i,
    {
        let ghost row_start = out@;
        proof {
            assert(i * row_bytes >= 0 && i * row_bytes + row_bytes <= nrows * row_bytes
                && nrows * row_bytes <= nrows * pbr) by (nonlinear_arith)
                requires
                    0 <= i < nrows,
                    1 <= row_bytes <= pbr,
            ;
        }
        let base: usize = (i as usize) * (row_bytes as usize);
        let mut k: u32 = 0;
        while k < row_bytes
            invariant
                0 <= k <= row_bytes,
                0 <= i < nrows,
                0 < row_bytes <= pbr,
                tight@.len() == nrows * row_bytes,
                base == i * row_bytes,
                base + row_bytes <= tight@.len(),
                base + row_bytes <= u32::MAX,
                out@ == row_start + tight@.subrange(
                    i * row_bytes,
                    i * row_bytes + k,
                ),
            decreases row_bytes - k,
        {
            let b = tight[base + (k as usize)];
            out.push(b);
            proof {
                assert(row_start + tight@.subrange(
                    i * row_bytes,
                    i * row_bytes + k + 1,
                ) =~= (row_start + tight@.subrange(i * row_bytes, i * row_bytes + k)).push(b));
            }
            k = k + 1;
        }
        proof {
            assert(tight@.subrange(i * row_bytes, i * row_bytes + row_bytes) == row_of(
                tight@,
                i as int,
                row_bytes as int,
                row_bytes as int,
            ));
        }
        let ghost row_done = out@;
        let mut z: u32 = 0;
        while z < pbr - row_bytes
            invariant
                0 <= z <= pbr - row_bytes,
                out@ == row_done + zeros(z as int),
            decreases pbr - row_bytes - z,
        {
            out.push(0);
            proof {
                assert(row_done + zeros(z as int + 1) =~= (row_done + zeros(z as int)).push(
                    0u8,
                ));
            }
            z = z + 1;
        }
        proof {
            assert(out@ == pad_rows_spec(
                tight@,
                row_bytes as int,
                pbr as int,
                i as int + 1,
            ));
        }
        i = i + 1;
    }
    proof {
        lemma_pad_rows_len(tight@, row_bytes as int, pbr as int, nrows as int);
    }
    out
}

/// Drops the per-row padding: keeps the first `row_bytes` bytes of each
/// of the `nrows` rows of `padded`, whose rows are `pbr` bytes apart.
pub fn unpad_rows(padded: &Vec<u8>, row_bytes: u32, pbr: u32, nrows: u32) -> (out: Vec<u8>)
    requires
        0 < row_bytes <= pbr,
        padded@.len() == nrows * pbr,
        nrows * pbr <= u32::MAX,
    ensures
        out@ == unpad_rows_spec(padded@, row_bytes as int, pbr as int, nrows as int),
        out@.len() == nrows * row_bytes,
{
    let mut out: Vec<u8> = Vec::new();
    let mut i: u32 = 0;
    while i < nrows
        invariant
            0 <= i <= nrows,
            0 < row_bytes <= pbr,
            padded@.len() == nrows * pbr,
            nrows * pbr <= u32::MAX,
            out@ == unpad_rows_spec(padded@, row_bytes as int, pbr as int, i as int),
        decreases nrows - i,
    {
        let ghost row_start = out@;
        proof {
            assert(i * pbr >= 0 && i * pbr + pbr <= nrows * pbr) by (nonlinear_arith)
                requires
                    0 <= i < nrows,
                    pbr >= 1,
            ;
        }
        let base: usize = (i as usize) * (pbr as usize);
        let mut k: u32 = 0;
        while k < row_bytes
            invariant
                0 <= k <= row_bytes,
                0 <= i < nrows,
                0 < row_bytes <= pbr,
                padded@.len() == nrows * pbr,
                base == i * pbr,
                base + pbr <= padded@.len(),
                base + pbr <= u32::MAX,
                out@ == row_start + padded@.subrange(i * pbr, i * pbr + k),
            decreases row_bytes - k,
        {
            let b = padded[base + (k as usize)];
            out.push(b);
            proof {
                assert(row_start + padded@.subrange(i * pbr, i * pbr + k + 1) =~= (row_start
                    + padded@.subrange(i * pbr, i * pbr + k)).push(b));
            }
            k = k + 1;
        }
        proof {
            assert(padded@.subrange(i * pbr, i * pbr + row_bytes) == row_of(
                padded@,
                i as int,
                pbr as int,
                row_bytes as int,
            ));
            assert(out@ == unpad_rows_spec(
                padded@,
                row_bytes as int,
                pbr as int,
                i as int + 1,
            ));
        }
        i = i + 1;
    }
    proof {
        lemma_unpad_rows_len(padded@, row_bytes as int, pbr as int, nrows as int);
    }
    out
}

/// Round trip of the padding itself: padding rows out to the copy
/// stride and then dropping the padding returns the original buffer.
pub proof fn lemma_pad_unpad_round_trip(tight: Seq<u8>, row_bytes: int, pbr: int, nrows: int)
    requires
        0 <= row_bytes <= pbr,
        nrows >= 0,
        tight.len() == nrows * row_bytes,
    ensures
        unpad_rows_spec(
            pad_rows_spec(tight, row_bytes, pbr, nrows),
            row_bytes,
            pbr,
            nrows,
        ) == tight,
{
    lemma_pad_rows_len(tight, row_bytes, pbr, nrows);
    lemma_pad_rows_match(tight, row_bytes, pbr, nrows);
    lemma_unpad_rows_match(
        pad_rows_spec(tight, row_bytes, pbr, nrows),
        tight,
        row_bytes,
        pbr,
        nrows,
    );
}

} // verus!
