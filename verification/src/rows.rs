//! Writing a converted frame into the host's buffer. The host's rows may lie
//! further apart than a row of pixels is long: what lies between the end of
//! one row and the start of the next belongs to the host and is not written.

use vstd::prelude::*;
use vstd::arithmetic::div_mod::{lemma_fundamental_div_mod, lemma_fundamental_div_mod_converse};

verus! {

/// Whether byte `i` of a buffer whose rows start `stride` bytes apart is one
/// of the first `row_bytes` bytes of one of the first `rows` rows.
pub open spec fn in_row(i: int, stride: int, row_bytes: int, rows: int) -> bool {
    stride > 0 && 0 <= i && i / stride < rows && i % stride < row_bytes
}

/// Whether `rows` rows of `row_bytes` bytes can be taken from a packed buffer
/// and put into a buffer whose rows start `stride` bytes apart. The last row
/// needs no room behind its pixels.
pub open spec fn rows_fit(
    dest_len: int,
    stride: int,
    packed_len: int,
    row_bytes: int,
    rows: int,
) -> bool {
    &&& row_bytes <= stride
    &&& rows * row_bytes <= packed_len
    &&& rows > 0 ==> (rows - 1) * stride + row_bytes <= dest_len
}

/// The buffer `dest` after the first `rows` rows of `packed` were written
/// into it: the bytes of a row hold the row, every other byte is as it was.
pub open spec fn stored(
    dest: Seq<u8>,
    stride: int,
    packed: Seq<u8>,
    row_bytes: int,
    rows: int,
) -> Seq<u8> {
    Seq::new(
        dest.len(),
        |i: int|
            if in_row(i, stride, row_bytes, rows) {
                packed[(i / stride) * row_bytes + i % stride]
            } else {
                dest[i]
            },
    )
}

/// What lies behind the pixels of a row, up to the start of the next row, is
/// left as it was; so is everything behind the last row.
pub proof fn lemma_padding_untouched(
    dest: Seq<u8>,
    stride: int,
    packed: Seq<u8>,
    row_bytes: int,
    rows: int,
    i: int,
)
    requires
        0 <= i < dest.len(),
        stride > 0,
        i % stride >= row_bytes || i / stride >= rows,
    ensures
        stored(dest, stride, packed, row_bytes, rows)[i] == dest[i],
{
}

/// The pixels of row `r` hold row `r` of the packed buffer.
pub proof fn lemma_pixels_written(
    dest: Seq<u8>,
    stride: int,
    packed: Seq<u8>,
    row_bytes: int,
    rows: int,
    r: int,
    c: int,
)
    requires
        0 <= r < rows,
        0 <= c < row_bytes <= stride,
        r * stride + c < dest.len(),
    ensures
        stored(dest, stride, packed, row_bytes, rows)[r * stride + c] == packed[r * row_bytes + c],
{
    assert(0 <= r * stride) by (nonlinear_arith)
        requires
            0 <= r,
            0 < stride,
    ;
    lemma_row_of(r * stride + c, stride, row_bytes, r);
}

/// Whether the rows fit, computed without overflow.
pub fn check_rows_fit(
    dest_len: usize,
    stride: usize,
    packed_len: usize,
    row_bytes: usize,
    rows: usize,
) -> (r: bool)
    ensures
        r == rows_fit(
            dest_len as int,
            stride as int,
            packed_len as int,
            row_bytes as int,
            rows as int,
        ),
{
    if row_bytes > stride {
        return false;
    }
    let packed_ok = match rows.checked_mul(row_bytes) {
        Some(needed) => needed <= packed_len,
        None => false,
    };
    if !packed_ok {
        return false;
    }
    if rows == 0 {
        return true;
    }
    match (rows - 1).checked_mul(stride) {
        Some(before_last) => match before_last.checked_add(row_bytes) {
            Some(needed) => needed <= dest_len,
            None => false,
        },
        None => false,
    }
}

/// Copies `count` bytes of `packed`, from `from` on, over the bytes of `dest`
/// from `at` on.
pub fn store_run(dest: &mut [u8], at: usize, packed: &[u8], from: usize, count: usize)
    requires
        at + count <= old(dest)@.len(),
        from + count <= packed@.len(),
    ensures
        final(dest)@.len() == old(dest)@.len(),
        forall|i: int|
            0 <= i < old(dest)@.len() ==> #[trigger] final(dest)@[i] == (if at <= i < at + count {
                packed@[from + (i - at)]
            } else {
                old(dest)@[i]
            }),
{
    let dest_len = dest.len();
    let packed_len = packed.len();
    let mut c: usize = 0;
    while c < count
        invariant
            c <= count,
            dest_len == dest@.len(),
            packed_len == packed@.len(),
            at + count <= dest@.len(),
            from + count <= packed@.len(),
            dest@.len() == old(dest)@.len(),
            forall|i: int|
                0 <= i < dest@.len() ==> #[trigger] dest@[i] == (if at <= i < at + c {
                    packed@[from + (i - at)]
                } else {
                    old(dest)@[i]
                }),
        decreases count - c,
    {
        dest[at + c] = packed[from + c];
        c += 1;
    }
}

/// Row `r` of a buffer is the run of bytes from `r * stride` on.
pub proof fn lemma_row_of(i: int, stride: int, row_bytes: int, r: int)
    requires
        0 <= r,
        0 <= row_bytes <= stride,
        0 <= i,
    ensures
        (r * stride <= i < r * stride + row_bytes) <==> (stride > 0 && i / stride == r && i % stride
            < row_bytes),
        r * stride <= i < r * stride + row_bytes ==> i % stride == i - r * stride,
{
    if stride > 0 {
        lemma_fundamental_div_mod(i, stride);
        if r * stride <= i < r * stride + row_bytes {
            lemma_fundamental_div_mod_converse(i, stride, r, i - r * stride);
        }
        if i / stride == r {
            assert(stride * (i / stride) == r * stride) by (nonlinear_arith)
                requires
                    i / stride == r,
            ;
        }
    } else {
        assert(r * stride == 0) by (nonlinear_arith)
            requires
                stride == 0,
        ;
    }
}

/// Writes the first `rows` rows of the packed buffer into the host's buffer,
/// whose rows start `stride` bytes apart, `row_bytes` bytes for each row. Says
/// whether it did: where the rows do not fit, nothing is written.
pub fn store_rows(dest: &mut [u8], stride: usize, packed: &[u8], row_bytes: usize, rows: usize) -> (ok:
    bool)
    ensures
        ok == rows_fit(
            old(dest)@.len() as int,
            stride as int,
            packed@.len() as int,
            row_bytes as int,
            rows as int,
        ),
        ok ==> final(dest)@ == stored(
            old(dest)@,
            stride as int,
            packed@,
            row_bytes as int,
            rows as int,
        ),
        !ok ==> final(dest)@ == old(dest)@,
{
    let dest_len = dest.len();
    let packed_len = packed.len();
    if !check_rows_fit(dest_len, stride, packed_len, row_bytes, rows) {
        return false;
    }
    assert(dest@ =~= stored(old(dest)@, stride as int, packed@, row_bytes as int, 0));
    let mut r: usize = 0;
    while r < rows
        invariant
            r <= rows,
            dest_len == dest@.len(),
            packed_len == packed@.len(),
            dest@.len() == old(dest)@.len(),
            rows_fit(
                dest@.len() as int,
                stride as int,
                packed@.len() as int,
                row_bytes as int,
                rows as int,
            ),
            dest@ == stored(old(dest)@, stride as int, packed@, row_bytes as int, r as int),
        decreases rows - r,
    {
        proof {
            assert(r * stride <= (rows - 1) * stride) by (nonlinear_arith)
                requires
                    r <= rows - 1,
                    stride >= 0,
            ;
            assert((r + 1) * row_bytes <= rows * row_bytes) by (nonlinear_arith)
                requires
                    r + 1 <= rows,
                    row_bytes >= 0,
            ;
            assert((r + 1) * row_bytes == r * row_bytes + row_bytes) by (nonlinear_arith);
            assert(0 <= r * stride && 0 <= r * row_bytes) by (nonlinear_arith)
                requires
                    r >= 0,
                    stride >= 0,
                    row_bytes >= 0,
            ;
        }
        let ghost before = dest@;
        let at: usize = r * stride;
        let from: usize = r * row_bytes;
        store_run(dest, at, packed, from, row_bytes);
        proof {
            let next = stored(old(dest)@, stride as int, packed@, row_bytes as int, r + 1);
            assert forall|i: int| 0 <= i < dest@.len() implies dest@[i] == next[i] by {
                lemma_row_of(i, stride as int, row_bytes as int, r as int);
            }
            assert(dest@ =~= next);
        }
        r += 1;
    }
    true
}

} // verus!
