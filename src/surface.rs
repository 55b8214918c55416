//! The braille canvas of the `drawille` crate, as the drawing step uses it.

use vstd::prelude::*;

verus! {

/// `drawille::Canvas`: a grid of braille cells that grows to fit what is drawn.
#[verifier::external_type_specification]
#[verifier::external_body]
pub struct ExCanvas(drawille::Canvas);

/// What a canvas holds: for each braille cell, keyed by (column, row), its
/// dot bits and the character stamped there.
pub uninterp spec fn canvas_cells(c: drawille::Canvas) -> Map<(u16, u16), (u8, char)>;

/// The cells after a line from `(x1, y1)` to `(x2, y2)` is drawn onto `m`.
pub uninterp spec fn line_cells(
    m: Map<(u16, u16), (u8, char)>,
    x1: u32,
    y1: u32,
    x2: u32,
    y2: u32,
) -> Map<(u16, u16), (u8, char)>;

/// The cells after `text` is stamped onto `m` at `(x, y)`, up to `max_width`.
pub uninterp spec fn text_cells(
    m: Map<(u16, u16), (u8, char)>,
    x: u32,
    y: u32,
    max_width: u32,
    text: Seq<char>,
) -> Map<(u16, u16), (u8, char)>;

/// Relies on `drawille::Canvas::line`, which rasterises a line between two
/// points. It steps `i` over `0..=r`, with `r` the larger of the two spans,
/// and computes `i * span` in `u32`, and it starts from each coordinate cast
/// to `i32`: both stay in range when the coordinates fit in `i32` and each
/// span is at most 65535. Each pixel it sets changes one cell, from that
/// cell's old value and the coordinates alone, so the new cells depend only on
/// the old cells and the endpoints.
pub assume_specification[ drawille::Canvas::line ](
    canvas: &mut drawille::Canvas,
    x1: u32,
    y1: u32,
    x2: u32,
    y2: u32,
)
    requires
        x1 <= i32::MAX,
        y1 <= i32::MAX,
        x2 <= i32::MAX,
        y2 <= i32::MAX,
        x1 - x2 <= 65535,
        x2 - x1 <= 65535,
        y1 - y2 <= 65535,
        y2 - y1 <= 65535,
    ensures
        canvas_cells(*final(canvas)) == line_cells(canvas_cells(*old(canvas)), x1, y1, x2, y2),
;

/// Relies on `drawille::Canvas::text`, which stamps the characters of `text`
/// two pixels apart from `(x, y)` and stops past `max_width`. It computes
/// `i * 2` for each character index `i` and adds the offset to `x` only while
/// it is at most `max_width`. Each character it stamps replaces one cell
/// whatever it held, so the new cells depend only on the old cells and the
/// arguments.
pub assume_specification[ drawille::Canvas::text ](
    canvas: &mut drawille::Canvas,
    x: u32,
    y: u32,
    max_width: u32,
    text: &str,
)
    requires
        x + max_width <= u32::MAX,
        text@.len() <= 0x7fff_ffff,
    ensures
        canvas_cells(*final(canvas)) == text_cells(canvas_cells(*old(canvas)), x, y, max_width, text@),
;

} // verus!
