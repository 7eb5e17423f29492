//! Layout of the buffer through which a rendered picture is read back from the
//! GPU. The GPU copies rows whose length is a multiple of its alignment; a
//! picture holds the rows without that padding.

use vstd::prelude::*;
use vstd::arithmetic::div_mod::*;

use crate::png;
use crate::png::{PngError, BYTES_PER_PIXEL};

verus! {

/// The least multiple of `align` that is not below `len`.
pub open spec fn round_up(len: nat, align: nat) -> nat
    recommends
        align > 0,
{
    (((len + align - 1) / align as int) * align) as nat
}

/// The number of rows in `len` bytes that are laid out in rows of `padded`
/// bytes, the last of which may be short.
pub open spec fn row_count(len: nat, padded: nat) -> nat
    recommends
        padded > 0,
{
    ((len + padded - 1) / padded as int) as nat
}

/// The first `unpadded` bytes of each row of `padded` bytes, in order.
pub open spec fn stripped_rows(data: Seq<u8>, padded: nat, unpadded: nat) -> Seq<u8> {
    Seq::new(
        row_count(data.len(), padded) * unpadded,
        |i: int| data[(i / unpadded as int) * padded + i % unpadded as int],
    )
}

/// Whether each row of `padded` bytes, also a short last one, holds at least
/// `unpadded` bytes.
pub open spec fn rows_complete(len: nat, padded: nat, unpadded: nat) -> bool {
    &&& 0 < padded
    &&& unpadded <= padded
    &&& len % padded == 0 || len % padded >= unpadded
}

proof fn lemma_row_start(len: nat, padded: nat, unpadded: nat, y: nat)
    requires
        rows_complete(len, padded, unpadded),
    ensures
        y < row_count(len, padded) ==> y * padded < len && y * padded + unpadded <= len,
        y >= row_count(len, padded) ==> y * padded >= len,
{
    let rows = row_count(len, padded);
    lemma_fundamental_div_mod(len + padded - 1, padded as int);
    lemma_fundamental_div_mod(len as int, padded as int);
    let q = len as int / padded as int;
    let r = len as int % padded as int;
    assert(len == padded * q + r);
    if r == 0 {
        assert(len + padded - 1 == q * padded + (padded - 1)) by (nonlinear_arith)
            requires
                len == padded * q + r,
                r == 0,
        ;
        lemma_fundamental_div_mod_converse(len + padded - 1, padded as int, q, padded - 1);
        assert(rows == q);
    } else {
        assert(len + padded - 1 == (q + 1) * padded + (r - 1)) by (nonlinear_arith)
            requires
                len == padded * q + r,
        ;
        lemma_fundamental_div_mod_converse(len + padded - 1, padded as int, q + 1, r - 1);
        assert(rows == q + 1);
    }
    if y < rows {
        if y < q {
            assert(y * padded + padded <= len) by (nonlinear_arith)
                requires
                    y < q,
                    len == padded * q + r,
                    r >= 0,
                    padded > 0,
            ;
        } else {
            assert(y == q && r > 0);
            assert(y * padded == padded * q) by (nonlinear_arith)
                requires
                    y == q,
            ;
        }
    } else {
        assert(y * padded >= len) by (nonlinear_arith)
            requires
                y >= rows,
                rows == q && r == 0 || rows == q + 1,
                len == padded * q + r,
                r < padded,
                padded > 0,
        ;
    }
}

/// Takes the row padding out of `data`: keeps the first `unpadded` bytes of
/// each chunk of `padded` bytes.
pub fn strip_row_padding(data: &[u8], padded: usize, unpadded: usize) -> (pixels: Vec<u8>)
    requires
        rows_complete(data@.len(), padded as nat, unpadded as nat),
    ensures
        pixels@ == stripped_rows(data@, padded as nat, unpadded as nat),
{
    let mut pixels: Vec<u8> = Vec::new();
    let mut start: usize = 0;
    let ghost mut y: nat = 0;
    let ghost rows = row_count(data@.len(), padded as nat);
    proof {
        assert(0 * padded == 0 && 0 * unpadded == 0);
        lemma_row_start(data@.len(), padded as nat, unpadded as nat, 0);
    }
    while start < data.len()
        invariant
            rows_complete(data@.len(), padded as nat, unpadded as nat),
            rows == row_count(data@.len(), padded as nat),
            y <= rows,
            start < data@.len() ==> start == y * padded,
            start <= data@.len(),
            start < data@.len() <==> y < rows,
            pixels@.len() == y * unpadded,
            forall|i: int|
                0 <= i < y * unpadded ==> #[trigger] pixels@[i] == data@[(i / unpadded as int)
                    * padded + i % unpadded as int],
        decreases rows - y,
    {
        proof {
            lemma_row_start(data@.len(), padded as nat, unpadded as nat, y);
            lemma_row_start(data@.len(), padded as nat, unpadded as nat, y + 1);
            assert((y + 1) * unpadded == y * unpadded + unpadded) by (nonlinear_arith);
            assert((y + 1) * padded == y * padded + padded) by (nonlinear_arith);
        }
        let row = vstd::slice::slice_subrange(data, start, start + unpadded);
        let ghost before = pixels@;
        pixels.extend_from_slice(row);
        proof {
            assert forall|i: int| 0 <= i < (y + 1) * unpadded implies #[trigger] pixels@[i]
                == data@[(i / unpadded as int) * padded + i % unpadded as int] by {
                if i < y * unpadded {
                    assert(pixels@[i] == before[i]);
                } else {
                    let x = i - y * unpadded;
                    assert(pixels@[i] == row@[x]);
                    lemma_fundamental_div_mod_converse(i, unpadded as int, y as int, x);
                }
            }
            y = y + 1;
        }
        if data.len() - start <= padded {
            start = data.len();
        } else {
            start = start + padded;
        }
    }
    assert(pixels@ =~= stripped_rows(data@, padded as nat, unpadded as nat));
    pixels
}

/// The alignment, in bytes, of the rows in a copy between a texture and a
/// buffer: the constant `wgpu::COPY_BYTES_PER_ROW_ALIGNMENT`, which is 256.
#[verifier::external_body]
fn copy_bytes_per_row_alignment() -> (align: u32)
    ensures
        align == row_alignment(),
{
    wgpu::COPY_BYTES_PER_ROW_ALIGNMENT
}

/// What rows of a readback buffer are aligned to, in bytes.
pub open spec fn row_alignment() -> nat {
    256
}

/// The number of bytes in a row of pixels.
pub open spec fn unpadded_row(width: u32) -> nat {
    (BYTES_PER_PIXEL * width) as nat
}

/// The number of bytes in a row of the readback buffer.
pub open spec fn padded_row(width: u32) -> nat {
    round_up(unpadded_row(width), row_alignment())
}

/// The width of a rendered picture, in pixels.
pub const WIDTH: u32 = 1024;

/// The height of a rendered picture, in pixels.
pub const HEIGHT: u32 = 1024;

/// How a picture lies in the buffer that it is read back through.
#[derive(Debug, Clone, Copy, PartialEq, Eq)]
pub struct ReadbackLayout {
    pub width: u32,
    pub height: u32,
    pub unpadded_bytes_per_row: u32,
    pub padded_bytes_per_row: u32,
    pub buffer_size: u64,
}

impl ReadbackLayout {
    /// Whether the sizes for these dimensions fit in 32 bits.
    pub open spec fn fits(width: u32, height: u32) -> bool {
        &&& unpadded_row(width) + row_alignment() - 1 <= u32::MAX
        &&& padded_row(width) * height <= u32::MAX
    }

    /// The row lengths and the buffer size are those of the dimensions.
    pub open spec fn wf(self) -> bool {
        &&& self.unpadded_bytes_per_row == unpadded_row(self.width)
        &&& self.padded_bytes_per_row == padded_row(self.width)
        &&& self.buffer_size == padded_row(self.width) * self.height
        &&& Self::fits(self.width, self.height)
    }

    /// The layout for a picture of `width` by `height` pixels.
    pub fn new(width: u32, height: u32) -> (layout: ReadbackLayout)
        requires
            Self::fits(width, height),
        ensures
            layout.wf(),
            layout.width == width,
            layout.height == height,
            layout.unpadded_bytes_per_row == 4 * width,
            layout.padded_bytes_per_row % 256 == 0,
            4 * width <= layout.padded_bytes_per_row < 4 * width + 256,
            layout.buffer_size == layout.padded_bytes_per_row * height,
    {
        let unpadded: u32 = width * BYTES_PER_PIXEL;
        let align: u32 = copy_bytes_per_row_alignment();
        proof {
            law_round_up(unpadded_row(width), row_alignment());
        }
        let padded: u32 = ((unpadded + (align - 1)) / align) * align;
        let size: u32 = padded * height;
        ReadbackLayout {
            width,
            height,
            unpadded_bytes_per_row: unpadded,
            padded_bytes_per_row: padded,
            buffer_size: size as u64,
        }
    }

    /// The layout for the pictures that the service renders.
    pub fn rendered() -> (layout: ReadbackLayout)
        ensures
            layout.wf(),
            layout.width == WIDTH,
            layout.height == HEIGHT,
            layout.padded_bytes_per_row == 4096,
            layout.unpadded_bytes_per_row == 4096,
            layout.buffer_size == 4194304,
    {
        ReadbackLayout::new(WIDTH, HEIGHT)
    }

    /// The pixels in a readback buffer of this layout that holds `data`.
    pub open spec fn pixels(self, data: Seq<u8>) -> Seq<u8> {
        stripped_rows(data, padded_row(self.width), unpadded_row(self.width))
    }

    /// Makes a PNG file of what the readback buffer holds.
    pub fn encode(&self, data: &[u8]) -> (file: Result<Vec<u8>, PngError>)
        requires
            self.wf(),
            self.width > 0,
            data@.len() == self.buffer_size,
        ensures
            file is Ok <==> self.height > 0,
            file matches Ok(f) ==> f@ == png::png_encoding(self.width, self.height, self.pixels(data@)),
            file matches Err(e) ==> e == PngError::Encoder,
    {
        proof {
            law_round_up(unpadded_row(self.width), row_alignment());
            self.lemma_pixels_len(data@);
        }
        let pixels = strip_row_padding(
            data,
            self.padded_bytes_per_row as usize,
            self.unpadded_bytes_per_row as usize,
        );
        assert(pixels@.take(pixels@.len() as int) =~= pixels@);
        png::encode_png(self.width, self.height, pixels)
    }

    proof fn lemma_pixels_len(self, data: Seq<u8>)
        requires
            self.wf(),
            self.width > 0,
            data.len() == self.buffer_size,
        ensures
            rows_complete(data.len(), padded_row(self.width), unpadded_row(self.width)),
            row_count(data.len(), padded_row(self.width)) == self.height,
            self.pixels(data).len() == png::picture_len(self.width, self.height),
    {
        let padded = padded_row(self.width);
        law_round_up(unpadded_row(self.width), row_alignment());
        assert(data.len() == self.height * padded) by (nonlinear_arith)
            requires
                data.len() == padded * self.height,
        ;
        lemma_fundamental_div_mod_converse(
            data.len() as int,
            padded as int,
            self.height as int,
            0,
        );
        lemma_fundamental_div_mod_converse(
            data.len() + padded - 1,
            padded as int,
            self.height as int,
            padded - 1,
        );
        assert(self.height * (4 * self.width) == 4 * self.width * self.height)
            by (nonlinear_arith);
    }
}

/// Byte `x` of row `y`, where a row is `row_len` bytes long.
pub open spec fn byte_at(rows: Seq<u8>, row_len: nat, y: int, x: int) -> u8 {
    rows[y * row_len + x]
}

/// `round_up` gives a multiple of the alignment, not below the length, and
/// less than one alignment above it.
pub proof fn law_round_up(len: nat, align: nat)
    requires
        align > 0,
    ensures
        round_up(len, align) % align == 0,
        len <= round_up(len, align) < len + align,
{
    let q = (len + align - 1) / align as int;
    lemma_fundamental_div_mod(len + align - 1, align as int);
    assert(q >= 0) by (nonlinear_arith)
        requires
            len + align - 1 == align * q + (len + align - 1) % align as int,
            ((len + align - 1) % align as int) < align,
            len >= 0,
            align > 0,
    ;
    assert(q * align == align * q) by (nonlinear_arith);
    lemma_fundamental_div_mod_converse(q * align, align as int, q, 0);
}

/// Row padding, whatever it holds, does not show in the picture: where each
/// row of `data` starts with the matching row of `pixels`, taking the padding
/// out gives `pixels` back.
pub proof fn law_padding_is_dropped(
    layout: ReadbackLayout,
    data: Seq<u8>,
    pixels: Seq<u8>,
)
    requires
        layout.wf(),
        layout.width > 0,
        data.len() == layout.buffer_size,
        pixels.len() == png::picture_len(layout.width, layout.height),
        forall|y: int, x: int|
            0 <= y < layout.height && 0 <= x < unpadded_row(layout.width) ==> #[trigger] byte_at(
                data,
                padded_row(layout.width),
                y,
                x,
            ) == byte_at(pixels, unpadded_row(layout.width), y, x),
    ensures
        layout.pixels(data) == pixels,
{
    let padded = padded_row(layout.width);
    let unpadded = unpadded_row(layout.width);
    layout.lemma_pixels_len(data);
    assert forall|i: int| 0 <= i < pixels.len() implies layout.pixels(data)[i] == pixels[i] by {
        let y = i / unpadded as int;
        let x = i % unpadded as int;
        lemma_fundamental_div_mod(i, unpadded as int);
        assert(0 <= y < layout.height && y * unpadded == unpadded * y) by (nonlinear_arith)
            requires
                i == unpadded * y + x,
                0 <= x < unpadded,
                0 <= i < layout.height * unpadded,
        ;
        assert(byte_at(data, padded, y, x) == byte_at(pixels, unpadded, y, x));
    }
    assert(layout.pixels(data) =~= pixels);
}

/// A layout fits exactly if a row with the alignment less one, and a whole
/// buffer, do not pass 32 bits.
pub proof fn law_layout_fits(width: u32, height: u32, padded: nat)
    requires
        padded % 256 == 0,
        4 * width <= padded < 4 * width + 256,
    ensures
        padded_row(width) == padded,
        ReadbackLayout::fits(width, height) <==> 4 * width + 255 <= u32::MAX && padded * height
            <= u32::MAX,
{
    law_round_up(unpadded_row(width), row_alignment());
}

/// Each byte of a row that is no padding is kept, at its place in its row, and
/// the rows follow one another in order.
pub proof fn law_rows_are_kept(data: Seq<u8>, padded: nat, unpadded: nat, y: nat, x: nat)
    requires
        0 < padded,
        unpadded <= padded,
        data.len() % padded == 0 || data.len() % padded >= unpadded,
        x < unpadded,
        y * padded + x < data.len(),
    ensures
        y * unpadded + x < stripped_rows(data, padded, unpadded).len(),
        stripped_rows(data, padded, unpadded)[(y * unpadded + x) as int] == data[(y * padded
            + x) as int],
{
    lemma_row_start(data.len(), padded, unpadded, y);
    let rows = row_count(data.len(), padded);
    assert(y < rows);
    assert(y * unpadded + x < rows * unpadded) by (nonlinear_arith)
        requires
            y < rows,
            x < unpadded,
    ;
    lemma_fundamental_div_mod_converse(
        (y * unpadded + x) as int,
        unpadded as int,
        y as int,
        x as int,
    );
}

/// Nothing but the rows is kept: as many bytes as there are rows, times the
/// length of a row without its padding.
pub proof fn law_only_the_rows_are_kept(data: Seq<u8>, padded: nat, unpadded: nat, rows: nat)
    requires
        0 < padded,
        unpadded <= padded,
        data.len() % padded == 0 || data.len() % padded >= unpadded,
        data.len() <= rows * padded < data.len() + padded,
    ensures
        stripped_rows(data, padded, unpadded).len() == rows * unpadded,
{
    lemma_row_start(data.len(), padded, unpadded, rows);
    if rows > 0 {
        let before = (rows - 1) as nat;
        lemma_row_start(data.len(), padded, unpadded, before);
        assert(before * padded == rows * padded - padded) by (nonlinear_arith)
            requires
                before == rows - 1,
        ;
    }
}

/// The picture in a readback buffer has four bytes for each pixel, and byte `x`
/// of its row `y` is byte `x` of row `y` of the buffer.
pub proof fn law_picture_of_a_readback(layout: ReadbackLayout, data: Seq<u8>, y: nat, x: nat)
    requires
        layout.wf(),
        data.len() == layout.buffer_size,
        y < layout.height,
        x < 4 * layout.width,
    ensures
        layout.pixels(data).len() == 4 * layout.width * layout.height,
        y * (4 * layout.width) + x < layout.pixels(data).len(),
        layout.pixels(data)[y * (4 * layout.width) + x] == data[y * layout.padded_bytes_per_row
            + x],
{
    let padded = padded_row(layout.width);
    let unpadded = unpadded_row(layout.width);
    layout.lemma_pixels_len(data);
    law_round_up(unpadded, row_alignment());
    assert(y * padded + x < data.len()) by (nonlinear_arith)
        requires
            data.len() == padded * layout.height,
            y < layout.height,
            x < padded,
    ;
    law_rows_are_kept(data, padded, unpadded, y, x);
}

} // verus!
