//! Copying pixel rows into a locked native-window buffer.
use vstd::prelude::*;

use super::{area_bytes, area_bytes_outcome, detail_with_int, is_operation_failure, BYTES_PER_PIXEL};
use crate::error::{Error, Result};
use crate::payload::PixelData;
use crate::text::{append_i64, append_str, signed_decimal};


verus! {

/// `destination` after the first `row_bytes` bytes of each of the first
/// `rows` rows of `source` (rows `source_stride` bytes apart) were copied
/// into the same rows of `destination` (rows `destination_stride` bytes
/// apart); every other byte keeps its value.
pub open spec fn copied_rows(
    destination: Seq<u8>,
    source: Seq<u8>,
    source_stride: int,
    destination_stride: int,
    rows: int,
    row_bytes: int,
) -> Seq<u8> {
    if row_bytes <= 0 {
        destination
    } else {
        Seq::new(
            destination.len(),
            |i: int|
                if i / destination_stride < rows && i % destination_stride < row_bytes {
                    source[(i / destination_stride) * source_stride + i % destination_stride]
                } else {
                    destination[i]
                },
        )
    }
}

/// The copy after all rows before `row` and the first `col` bytes of `row`.
spec fn copied_prefix(
    destination: Seq<u8>,
    source: Seq<u8>,
    source_stride: int,
    destination_stride: int,
    row_bytes: int,
    row: int,
    col: int,
) -> Seq<u8> {
    Seq::new(
        destination.len(),
        |i: int|
            if i % destination_stride < row_bytes && (i / destination_stride < row || (i
                / destination_stride == row && i % destination_stride < col)) {
                source[(i / destination_stride) * source_stride + i % destination_stride]
            } else {
                destination[i]
            },
    )
}

proof fn lemma_row_end_le(rows: int, r: int, stride: int, j: int, row_bytes: int)
    by (nonlinear_arith)
    requires
        0 <= r < rows,
        0 <= j < row_bytes,
        stride >= 0,
    ensures
        r * stride + j < (rows - 1) * stride + row_bytes,
        r * stride >= 0,
{
}

/// Copies the first `row_bytes` bytes of each of the first `rows` rows.
pub fn copy_rows(
    source: &[u8],
    source_stride: usize,
    destination: &mut [u8],
    destination_stride: usize,
    rows: usize,
    row_bytes: usize,
)
    requires
        row_bytes <= source_stride,
        row_bytes <= destination_stride,
        rows > 0 && row_bytes > 0 ==> (rows - 1) * source_stride + row_bytes <= source@.len(),
        rows > 0 && row_bytes > 0 ==> (rows - 1) * destination_stride + row_bytes
            <= old(destination)@.len(),
    ensures
        final(destination)@ == copied_rows(
            old(destination)@,
            source@,
            source_stride as int,
            destination_stride as int,
            rows as int,
            row_bytes as int,
        ),
{
    if row_bytes == 0 {
        return;
    }
    let ghost old_dest = destination@;
    let ghost ss = source_stride as int;
    let ghost ds = destination_stride as int;
    let ghost rb = row_bytes as int;
    assert(copied_prefix(old_dest, source@, ss, ds, rb, 0, 0) =~= old_dest);
    let source_len = source.len();
    let destination_len = destination.len();
    let mut r: usize = 0;
    while r < rows
        invariant
            0 <= r <= rows,
            row_bytes <= source_stride,
            row_bytes <= destination_stride,
            row_bytes > 0,
            ss == source_stride,
            ds == destination_stride,
            rb == row_bytes,
            (rows - 1) * source_stride + row_bytes <= source@.len(),
            source_len == source@.len(),
            destination_len == destination@.len(),
            (rows - 1) * destination_stride + row_bytes <= old_dest.len(),
            destination@ == copied_prefix(old_dest, source@, ss, ds, rb, r as int, 0),
        decreases rows - r,
    {
        let mut j: usize = 0;
        while j < row_bytes
            invariant
                0 <= r < rows,
                0 <= j <= row_bytes,
                row_bytes <= source_stride,
                row_bytes <= destination_stride,
                row_bytes > 0,
                ss == source_stride,
                ds == destination_stride,
                rb == row_bytes,
                (rows - 1) * source_stride + row_bytes <= source@.len(),
            source_len == source@.len(),
            destination_len == destination@.len(),
                (rows - 1) * destination_stride + row_bytes <= old_dest.len(),
                destination@ == copied_prefix(old_dest, source@, ss, ds, rb, r as int, j as int),
            decreases row_bytes - j,
        {
            proof {
                lemma_row_end_le(rows as int, r as int, ss, j as int, rb);
                lemma_row_end_le(rows as int, r as int, ds, j as int, rb);
            }
            let s_index = r * source_stride + j;
            let d_index = r * destination_stride + j;
            let byte = source[s_index];
            let ghost before = destination@;
            destination[d_index] = byte;
            proof {
                vstd::arithmetic::div_mod::lemma_fundamental_div_mod_converse(d_index as int, ds, r as int, j as int);
                assert forall|i: int| 0 <= i < destination@.len() implies destination@[i]
                    == copied_prefix(old_dest, source@, ss, ds, rb, r as int, j + 1)[i] by {
                    vstd::arithmetic::div_mod::lemma_fundamental_div_mod(i, ds);
                    if i != d_index {
                        if i / ds == r && i % ds == j {
                            assert(i == d_index) by (nonlinear_arith)
                                requires
                                    i == ds * (i / ds) + i % ds,
                                    i / ds == r,
                                    i % ds == j,
                                    d_index == r * ds + j,
                            ;
                        }
                        assert(destination@[i] == before[i]);
                    } else {
                        assert(i / ds == r && i % ds == j);
                    }
                }
                assert(destination@ =~= copied_prefix(
                    old_dest,
                    source@,
                    ss,
                    ds,
                    rb,
                    r as int,
                    j + 1,
                ));
            }
            j = j + 1;
        }
        assert(copied_prefix(old_dest, source@, ss, ds, rb, r as int, rb) =~= copied_prefix(
            old_dest,
            source@,
            ss,
            ds,
            rb,
            r + 1,
            0,
        ));
        r = r + 1;
    }
    assert(destination@ =~= copied_rows(old_dest, source@, ss, ds, rows as int, rb));
}

/// The geometry of a locked native-window buffer.
#[derive(Clone, Copy, Debug, PartialEq, Eq, Structural)]
pub struct WindowBufferGeometry {
    pub width: i32,
    pub height: i32,
    pub stride: i32,
    pub format: i32,
}

pub open spec fn min_int(a: int, b: int) -> int {
    if a <= b { a } else { b }
}

/// The failure text for a destination buffer that has no rows or stride.
pub open spec fn invalid_destination_text(height: int, stride: int) -> Seq<char> {
    "Android destination geometry was invalid: height="@ + signed_decimal(height) + ", stride="@
        + signed_decimal(stride)
}

/// What copying `height` rows of `width` visible pixels from a source
/// buffer with rows of `source_stride` pixels into `window` comes to:
/// the rows copied, the bytes copied per row and both row strides in
/// bytes, or the failure text.
pub open spec fn row_copy_outcome(
    width: int,
    height: int,
    source_stride: int,
    window: WindowBufferGeometry,
) -> core::result::Result<(int, int, int, int), Seq<char>> {
    if window.height <= 0 || window.stride <= 0 {
        Err(invalid_destination_text(window.height as int, window.stride as int))
    } else {
        match area_bytes_outcome(height, source_stride, "source"@) {
            Err(m) => Err(m),
            Ok(_) => match area_bytes_outcome(
                window.height as int,
                window.stride as int,
                "destination"@,
            ) {
                Err(m) => Err(m),
                Ok(_) => if width < 0 || width * 4 > usize::MAX {
                    Err("visible row byte count overflowed"@)
                } else if source_stride * 4 > usize::MAX {
                    Err("source stride byte count overflowed"@)
                } else if window.stride * 4 > usize::MAX {
                    Err("destination stride byte count overflowed"@)
                } else {
                    Ok(
                        (
                            min_int(height, window.height as int),
                            min_int(width * 4, min_int(source_stride * 4, window.stride * 4)),
                            source_stride * 4,
                            window.stride * 4,
                        ),
                    )
                },
            },
        }
    }
}

proof fn lemma_rows_fit(rows: int, height: int, stride: int, row_bytes: int)
    by (nonlinear_arith)
    requires
        1 <= rows <= height,
        0 <= row_bytes <= stride,
    ensures
        (rows - 1) * stride + row_bytes <= height * stride,
{
}

fn operation_failed(text: &str) -> (e: Error)
    ensures
        is_operation_failure(e, text@),
{
    Error::texture_operation_failed(String::from_str(text))
}

/// Copies the visible part of each row of a hardware-buffer image into a
/// locked native-window buffer. `source` holds `height` rows of
/// `source_stride_pixels` RGBA pixels; `destination` is the window's
/// buffer of `window.height` rows of `window.stride` pixels.
pub fn copy_hardware_buffer_rows(
    source: &[u8],
    width: i32,
    height: i32,
    source_stride_pixels: i32,
    window: WindowBufferGeometry,
    destination: &mut [u8],
) -> (r: Result<()>)
    requires
        area_bytes_outcome(height as int, source_stride_pixels as int, "source"@) matches Ok(n)
            ==> source@.len() == n,
        area_bytes_outcome(window.height as int, window.stride as int, "destination"@)
            matches Ok(n) ==> old(destination)@.len() == n,
    ensures
        match row_copy_outcome(width as int, height as int, source_stride_pixels as int, window) {
            Err(m) => r matches Err(e) && is_operation_failure(e, m) && final(destination)@
                == old(destination)@,
            Ok((rows, row_bytes, source_stride, destination_stride)) => r is Ok
                && final(destination)@ == copied_rows(
                old(destination)@,
                source@,
                source_stride,
                destination_stride,
                rows,
                row_bytes,
            ),
        },
{
    if window.height <= 0 || window.stride <= 0 {
        let mut detail = detail_with_int(
            "Android destination geometry was invalid: height=",
            window.height as i64,
        );
        append_str(&mut detail, ", stride=");
        append_i64(&mut detail, window.stride as i64);
        return Err(Error::texture_operation_failed(detail));
    }
    let source_byte_len = match area_bytes(height, source_stride_pixels, "source") {
        Ok(n) => n,
        Err(e) => return Err(e),
    };
    let destination_byte_len = match area_bytes(window.height, window.stride, "destination") {
        Ok(n) => n,
        Err(e) => return Err(e),
    };
    let rows: usize = if height <= window.height { height as usize } else { window.height as usize };
    if width < 0 || (width as usize).checked_mul(BYTES_PER_PIXEL).is_none() {
        return Err(operation_failed("visible row byte count overflowed"));
    }
    let visible_bytes_per_row = width as usize * BYTES_PER_PIXEL;
    let source_stride_bytes = match (source_stride_pixels as usize).checked_mul(BYTES_PER_PIXEL) {
        Some(n) => n,
        None => return Err(operation_failed("source stride byte count overflowed")),
    };
    let destination_stride_bytes = match (window.stride as usize).checked_mul(BYTES_PER_PIXEL) {
        Some(n) => n,
        None => return Err(operation_failed("destination stride byte count overflowed")),
    };
    let narrower_stride = if source_stride_bytes <= destination_stride_bytes {
        source_stride_bytes
    } else {
        destination_stride_bytes
    };
    let row_copy_bytes = if visible_bytes_per_row <= narrower_stride {
        visible_bytes_per_row
    } else {
        narrower_stride
    };
    proof {
        if rows > 0 && row_copy_bytes > 0 {
            lemma_rows_fit(rows as int, height as int, source_stride_bytes as int, row_copy_bytes as int);
            lemma_rows_fit(
                rows as int,
                window.height as int,
                destination_stride_bytes as int,
                row_copy_bytes as int,
            );
            assert(height * source_stride_bytes == height * source_stride_pixels * 4) by (nonlinear_arith)
                requires source_stride_bytes == source_stride_pixels * 4;
            assert(window.height * destination_stride_bytes == window.height * window.stride * 4) by (nonlinear_arith)
                requires destination_stride_bytes == window.stride * 4;
        }
    }
    copy_rows(
        source,
        source_stride_bytes,
        destination,
        destination_stride_bytes,
        rows,
        row_copy_bytes,
    );
    Ok(())
}

proof fn lemma_offset_in_row(y: int, c: int, stride: int, rows: int)
    by (nonlinear_arith)
    requires
        0 <= y < rows,
        0 <= c < stride,
    ensures
        0 <= y * stride + c < rows * stride,
{
}

/// What a successful row copy does, in terms of its inputs: it copies
/// `min(height, window.height)` rows, and in each the first
/// `min(width, source stride, window stride)` pixels, so that every such
/// destination byte equals the source byte at the same row and column.
/// The bytes copied per row come from the width and the strides alone.
pub proof fn law_copy_copies_visible_rows(
    destination: Seq<u8>,
    source: Seq<u8>,
    width: i32,
    height: i32,
    source_stride_pixels: i32,
    window: WindowBufferGeometry,
    y: int,
    c: int,
)
    requires
        row_copy_outcome(width as int, height as int, source_stride_pixels as int, window) is Ok,
        destination.len() == window.height * window.stride * 4,
        0 <= y,
        y < height,
        y < window.height,
        0 <= c,
        c < width * 4,
        c < source_stride_pixels * 4,
        c < window.stride * 4,
    ensures
        ({
            let (rows, row_bytes, source_stride, destination_stride) = row_copy_outcome(
                width as int,
                height as int,
                source_stride_pixels as int,
                window,
            )->Ok_0;
            &&& rows == min_int(height as int, window.height as int)
            &&& row_bytes == min_int(width * 4, min_int(source_stride_pixels * 4, window.stride * 4))
            &&& source_stride == source_stride_pixels * 4
            &&& destination_stride == window.stride * 4
            &&& copied_rows(destination, source, source_stride, destination_stride, rows, row_bytes)[y
                * (window.stride * 4) + c] == source[y * (source_stride_pixels * 4) + c]
        }),
{
    let (rows, row_bytes, source_stride, destination_stride) = row_copy_outcome(
        width as int,
        height as int,
        source_stride_pixels as int,
        window,
    )->Ok_0;
    let ds = window.stride * 4;
    let i = y * ds + c;
    lemma_offset_in_row(y, c, ds, window.height as int);
    assert(window.height * window.stride * 4 == window.height * ds) by (nonlinear_arith)
        requires
            ds == window.stride * 4,
    ;
    vstd::arithmetic::div_mod::lemma_fundamental_div_mod_converse(i, ds, y, c);
    assert(row_bytes > 0);
}

/// A successful row copy leaves every other destination byte as it was:
/// the rows past `min(height, window.height)`, and in each row the bytes
/// past the visible width (or either stride).
pub proof fn law_copy_keeps_other_bytes(
    destination: Seq<u8>,
    source: Seq<u8>,
    width: i32,
    height: i32,
    source_stride_pixels: i32,
    window: WindowBufferGeometry,
    y: int,
    c: int,
)
    requires
        row_copy_outcome(width as int, height as int, source_stride_pixels as int, window) is Ok,
        destination.len() == window.height * window.stride * 4,
        0 <= y < window.height,
        0 <= c < window.stride * 4,
        y >= height || c >= width * 4 || c >= source_stride_pixels * 4,
    ensures
        ({
            let (rows, row_bytes, source_stride, destination_stride) = row_copy_outcome(
                width as int,
                height as int,
                source_stride_pixels as int,
                window,
            )->Ok_0;
            copied_rows(destination, source, source_stride, destination_stride, rows, row_bytes)[y
                * (window.stride * 4) + c] == destination[y * (window.stride * 4) + c]
        }),
{
    let ds = window.stride * 4;
    let i = y * ds + c;
    lemma_offset_in_row(y, c, ds, window.height as int);
    assert(window.height * window.stride * 4 == window.height * ds) by (nonlinear_arith)
        requires
            ds == window.stride * 4,
    ;
    vstd::arithmetic::div_mod::lemma_fundamental_div_mod_converse(i, ds, y, c);
}

/// True when the rows of `payload` can be copied into a window buffer of
/// `destination_len` bytes with the strides that the upload uses.
pub open spec fn pixel_rows_fit(payload_width: int, payload_height: int, data_len: int, window: WindowBufferGeometry, destination_len: int) -> bool {
    let source_stride = payload_width * 4;
    let destination_stride = window.stride * 4;
    let row_bytes = min_int(source_stride, destination_stride);
    &&& i32::MIN <= source_stride <= i32::MAX
    &&& i32::MIN <= destination_stride <= i32::MAX
    &&& payload_height > 0 ==> {
        &&& row_bytes >= 0
        &&& (payload_height - 1) * source_stride + row_bytes <= data_len
        &&& (payload_height - 1) * destination_stride + row_bytes <= destination_len
        &&& payload_height * source_stride <= usize::MAX
        &&& payload_height * destination_stride <= usize::MAX
    }
}

/// True when `upload_pixel_data` can copy a payload of `payload_width` by
/// `payload_height` pixels (`data_len` bytes) into a window buffer of
/// `destination_len` bytes: the buffer is the window's whole area, which
/// fits in `i32`; without row padding the sizes agree, with padding every
/// row fits.
pub open spec fn upload_fits(
    payload_width: int,
    payload_height: int,
    data_len: int,
    window: WindowBufferGeometry,
    destination_len: int,
) -> bool {
    &&& 0 <= window.height * window.stride * 4 <= i32::MAX
    &&& destination_len == window.height * window.stride * 4
    &&& window.stride == window.width ==> data_len == destination_len
    &&& window.stride != window.width ==> pixel_rows_fit(
        payload_width,
        payload_height,
        data_len,
        window,
        destination_len,
    )
}

/// Whether `payload` can be uploaded into a window buffer of
/// `destination_len` bytes (see `upload_fits`).
pub fn pixel_upload_fits(payload: &PixelData, window: WindowBufferGeometry, destination_len: usize) -> (r: bool)
    ensures
        r == upload_fits(
            payload.width as int,
            payload.height as int,
            payload.data@.len() as int,
            window,
            destination_len as int,
        ),
{
    let wh = window.height as i128;
    let ws = window.stride as i128;
    assert(-0x8000_0000 <= wh < 0x8000_0000 && -0x8000_0000 <= ws < 0x8000_0000);
    assert(-0x4000_0000_0000_0000 <= wh * ws <= 0x4000_0000_0000_0000) by (nonlinear_arith)
        requires
            -0x8000_0000 <= wh < 0x8000_0000,
            -0x8000_0000 <= ws < 0x8000_0000,
    ;
    let area: i128 = wh * ws * 4;
    if area < 0 || area > 0x7fff_ffff || destination_len as i128 != area {
        return false;
    }
    if window.stride == window.width {
        return payload.data.len() == destination_len;
    }
    let source_stride: i128 = payload.width as i128 * 4;
    let destination_stride: i128 = ws * 4;
    if source_stride < -0x8000_0000 || source_stride > 0x7fff_ffff || destination_stride < -0x8000_0000
        || destination_stride > 0x7fff_ffff {
        return false;
    }
    if payload.height <= 0 {
        return true;
    }
    let row_bytes: i128 = if source_stride <= destination_stride { source_stride } else { destination_stride };
    let h = payload.height as i128;
    assert(0 < h < 0x8000_0000);
    assert(-0x8000_0000_0000_0000 <= h * source_stride <= 0x8000_0000_0000_0000) by (nonlinear_arith)
        requires
            0 < h < 0x8000_0000,
            -0x8000_0000 <= source_stride <= 0x7fff_ffff,
    ;
    assert(-0x8000_0000_0000_0000 <= h * destination_stride <= 0x8000_0000_0000_0000) by (nonlinear_arith)
        requires
            0 < h < 0x8000_0000,
            -0x8000_0000 <= destination_stride <= 0x7fff_ffff,
    ;
    assert((h - 1) * source_stride == h * source_stride - source_stride) by (nonlinear_arith);
    assert((h - 1) * destination_stride == h * destination_stride - destination_stride) by (nonlinear_arith);
    let source_last: i128 = h * source_stride - source_stride;
    let destination_last: i128 = h * destination_stride - destination_stride;
    row_bytes >= 0 && source_last + row_bytes <= payload.data.len() as i128 && destination_last + row_bytes
        <= destination_len as i128 && h * source_stride <= usize::MAX as i128 && h * destination_stride
        <= usize::MAX as i128
}

/// Copies pixel data into a locked native-window buffer of
/// `window.height` rows of `window.stride` pixels: the whole buffer at
/// once when the window's rows have no padding, row by row otherwise.
pub fn upload_pixel_data(payload: &PixelData, window: WindowBufferGeometry, destination: &mut [u8])
    requires
        upload_fits(
            payload.width as int,
            payload.height as int,
            payload.data@.len() as int,
            window,
            old(destination)@.len() as int,
        ),
    ensures
        window.stride == window.width ==> final(destination)@ == payload.data@,
        window.stride != window.width ==> final(destination)@ == copied_rows(
            old(destination)@,
            payload.data@,
            payload.width * 4,
            window.stride * 4,
            if payload.height > 0 { payload.height as int } else { 0 },
            min_int(payload.width * 4, window.stride * 4),
        ),
{
    if window.stride == window.width {
        let n = destination.len();
        let mut i: usize = 0;
        while i < n
            invariant
                n == destination@.len(),
                n == payload.data@.len(),
                0 <= i <= n,
                forall|k: int| 0 <= k < i ==> destination@[k] == payload.data@[k],
            decreases n - i,
        {
            destination[i] = payload.data[i];
            i = i + 1;
        }
        assert(destination@ =~= payload.data@);
    } else {
        let source_stride = payload.width * 4;
        let destination_stride = window.stride * 4;
        let min_stride = if source_stride <= destination_stride { source_stride } else { destination_stride };
        if payload.height > 0 && min_stride > 0 {
            copy_rows(
                payload.data,
                source_stride as usize,
                destination,
                destination_stride as usize,
                payload.height as usize,
                min_stride as usize,
            );
        } else {
            let ghost rows: int = if payload.height > 0 { payload.height as int } else { 0 };
            assert(destination@ =~= copied_rows(
                old(destination)@,
                payload.data@,
                payload.width * 4,
                window.stride * 4,
                rows,
                min_int(payload.width * 4, window.stride * 4),
            ));
        }
    }
}

} // verus!
