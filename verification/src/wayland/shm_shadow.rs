//! The CPU-side copy of a layer's picture, and the dirty rectangles it is
//! patched with.

use vstd::prelude::*;

use crate::abi::max_int;
use crate::abi::min_int;
use crate::abi::JfnRect;
use crate::wayland::layer::PresentError;

verus! {

/// A dirty rectangle with its own pixels, row after row.
pub struct ShmRect {
    pub x: i32,
    pub y: i32,
    pub w: i32,
    pub h: i32,
    pub pixels: Vec<u8>,
}

pub ghost struct ShmRectView {
    pub x: i32,
    pub y: i32,
    pub w: i32,
    pub h: i32,
    pub pixels: Seq<u8>,
}

impl View for ShmRect {
    type V = ShmRectView;

    open spec fn view(&self) -> ShmRectView {
        ShmRectView { x: self.x, y: self.y, w: self.w, h: self.h, pixels: self.pixels@ }
    }
}

pub open spec fn rects_view(rects: Seq<ShmRect>) -> Seq<ShmRectView> {
    Seq::new(rects.len(), |i: int| rects[i]@)
}

/// The `n` bytes of `s` from `off` on, or nothing where `s` does not hold them.
pub open spec fn bytes_at(s: Seq<u8>, off: int, n: int) -> Seq<u8> {
    if 0 <= off && off + n <= s.len() {
        s.subrange(off, off + n)
    } else {
        Seq::empty()
    }
}

/// Rows `from..to` of `s`, each cut to the `n` bytes from `skip` on. A row that
/// does not fit in `s` is left out.
pub open spec fn cut_rows(s: Seq<u8>, stride: int, skip: int, n: int, from: int, to: int) -> Seq<
    u8,
>
    decreases to - from,
{
    if from >= to {
        Seq::empty()
    } else {
        cut_rows(s, stride, skip, n, from, to - 1) + bytes_at(s, (to - 1) * stride + skip, n)
    }
}

/// `rect` cut to a frame of `width` by `height`; `None` when nothing is left.
pub open spec fn clamped_rect(rect: JfnRect, width: int, height: int) -> Option<JfnRect> {
    let x0 = max_int(rect.x as int, 0);
    let y0 = max_int(rect.y as int, 0);
    let x1 = min_int(rect.x + rect.w, width);
    let y1 = min_int(rect.y + rect.h, height);
    if x1 <= x0 || y1 <= y0 || 4 * (x1 - x0) > usize::MAX || 4 * x0 > usize::MAX {
        None
    } else {
        Some(JfnRect { x: x0 as i32, y: y0 as i32, w: (x1 - x0) as i32, h: (y1 - y0) as i32 })
    }
}

/// The part of a frame that `rect` covers.
pub open spec fn dirty_rect(
    pixels: Seq<u8>,
    src_stride: int,
    width: int,
    height: int,
    rect: JfnRect,
) -> Option<ShmRectView> {
    match clamped_rect(rect, width, height) {
        Some(r) => Some(
            ShmRectView {
                x: r.x,
                y: r.y,
                w: r.w,
                h: r.h,
                pixels: cut_rows(pixels, src_stride, 4 * r.x, 4 * r.w, r.y as int, r.y + r.h),
            },
        ),
        None => None,
    }
}

/// Copies the part of a frame that `rect` covers.
pub fn copy_dirty_rect(
    pixels: &[u8],
    src_stride: usize,
    width: i32,
    height: i32,
    rect: &JfnRect,
) -> (r: Option<ShmRect>)
    ensures
        match (r, dirty_rect(pixels@, src_stride as int, width as int, height as int, *rect)) {
            (Some(a), Some(b)) => a@ == b,
            (None, None) => true,
            _ => false,
        },
{
    // In i64, so that `x + w` and `y + h` cannot overflow.
    let x0: i64 = if rect.x >= 0 {
        rect.x as i64
    } else {
        0
    };
    let y0: i64 = if rect.y >= 0 {
        rect.y as i64
    } else {
        0
    };
    let xe: i64 = rect.x as i64 + rect.w as i64;
    let ye: i64 = rect.y as i64 + rect.h as i64;
    let x1: i64 = if xe <= width as i64 {
        xe
    } else {
        width as i64
    };
    let y1: i64 = if ye <= height as i64 {
        ye
    } else {
        height as i64
    };
    if x1 <= x0 || y1 <= y0 {
        return None;
    }
    let rx: i32 = x0 as i32;
    let ry: i32 = y0 as i32;
    let rw: i32 = (x1 - x0) as i32;
    let rh: i32 = (y1 - y0) as i32;
    let (row_bytes, rx_bytes): (usize, usize) = match (
        (rw as usize).checked_mul(4),
        (rx as usize).checked_mul(4),
    ) {
        (Some(a), Some(b)) => (a, b),
        _ => return None,
    };
    let mut out: Vec<u8> = Vec::new();
    let mut row: i32 = ry;
    while row < ry + rh
        invariant
            0 <= ry <= row <= ry + rh <= i32::MAX,
            out@ == cut_rows(
                pixels@,
                src_stride as int,
                rx_bytes as int,
                row_bytes as int,
                ry as int,
                row as int,
            ),
        decreases ry + rh - row,
    {
        let ghost before = out@;
        let ghost at = row * src_stride + rx_bytes;
        assert(out@ + Seq::<u8>::empty() =~= out@);
        let end: Option<usize> = match (row as usize).checked_mul(src_stride) {
            Some(v) => match v.checked_add(rx_bytes) {
                Some(off) => off.checked_add(row_bytes),
                None => None,
            },
            None => None,
        };
        if let Some(end) = end {
            if end <= pixels.len() {
                let off: usize = end - row_bytes;
                let slice = vstd::slice::slice_subrange(pixels, off, end);
                out.extend_from_slice(slice);
                assert(out@ =~= before + bytes_at(pixels@, at, row_bytes as int));
            }
        } else {
            assert(pixels@.len() == pixels.len());
            assert(at + row_bytes > usize::MAX);
        }
        row += 1;
    }
    Some(ShmRect { x: rx, y: ry, w: rw, h: rh, pixels: out })
}

/// `s` with `src` written over it from `off` on.
pub open spec fn overwrite(s: Seq<u8>, off: int, src: Seq<u8>) -> Seq<u8> {
    Seq::new(
        s.len(),
        |i: int|
            if off <= i < off + src.len() {
                src[i - off]
            } else {
                s[i]
            },
    )
}

/// One row of `rect` written into a picture. A row that the rectangle lacks or
/// that does not fit in the picture is left out.
pub open spec fn patched_row(s: Seq<u8>, stride: int, rect: ShmRectView, row: int) -> Seq<u8> {
    let n = 4 * rect.w;
    let src = row * n;
    let dst = (rect.y + row) * stride + 4 * rect.x;
    if 0 <= rect.y + row <= i32::MAX && src + n <= rect.pixels.len() && dst + n <= s.len() {
        overwrite(s, dst, rect.pixels.subrange(src, src + n))
    } else {
        s
    }
}

pub open spec fn patched_rows(s: Seq<u8>, stride: int, rect: ShmRectView, rows: int) -> Seq<u8>
    decreases rows,
{
    if rows <= 0 {
        s
    } else {
        patched_row(patched_rows(s, stride, rect, rows - 1), stride, rect, rows - 1)
    }
}

/// `rect` written into a picture whose rows are `stride` bytes apart.
pub open spec fn patched_rect(s: Seq<u8>, stride: int, rect: ShmRectView) -> Seq<u8> {
    if rect.w < 0 || rect.x < 0 || 4 * rect.w > usize::MAX || 4 * rect.x > usize::MAX {
        s
    } else {
        patched_rows(s, stride, rect, rect.h as int)
    }
}

/// All of `rects` written into a picture, one after the other.
pub open spec fn patched(s: Seq<u8>, stride: int, rects: Seq<ShmRectView>) -> Seq<u8>
    decreases rects.len(),
{
    if rects.len() == 0 {
        s
    } else {
        patched_rect(patched(s, stride, rects.drop_last()), stride, rects.last())
    }
}

/// Rectangles written into a picture `width` pixels wide.
pub open spec fn patched_picture(s: Seq<u8>, width: int, rects: Seq<ShmRectView>) -> Seq<u8> {
    if width < 0 || 4 * width > usize::MAX {
        s
    } else {
        patched(s, 4 * width, rects)
    }
}

/// Writes `src[from..from + n]` over `dst` from `to` on.
fn copy_into(dst: &mut Vec<u8>, to: usize, src: &Vec<u8>, from: usize, n: usize)
    requires
        to + n <= old(dst)@.len(),
        from + n <= src@.len(),
    ensures
        final(dst)@ == overwrite(
            old(dst)@,
            to as int,
            src@.subrange(from as int, from + n),
        ),
{
    let ghost before = dst@;
    let ghost part = src@.subrange(from as int, from + n);
    assert(dst@.len() == dst.len() && src@.len() == src.len());
    let mut i: usize = 0;
    while i < n
        invariant
            i <= n,
            to + n <= dst@.len(),
            from + n <= src@.len(),
            dst@.len() == before.len(),
            dst@.len() <= usize::MAX,
            src@.len() <= usize::MAX,
            part == src@.subrange(from as int, from + n),
            forall|k: int|
                0 <= k < dst@.len() ==> dst@[k] == (if to <= k < to + i {
                    part[k - to]
                } else {
                    before[k]
                }),
        decreases n - i,
    {
        dst[to + i] = src[from + i];
        i += 1;
    }
    assert(dst@ =~= overwrite(before, to as int, part));
}

/// Writes one row of `rect` where both sides hold it.
fn apply_row(
    shadow: &mut Vec<u8>,
    dst_stride: usize,
    rect: &ShmRect,
    row_bytes: usize,
    rx_bytes: usize,
    row: i32,
)
    requires
        0 <= row < rect.h,
        row_bytes == 4 * rect.w,
        rx_bytes == 4 * rect.x,
    ensures
        final(shadow)@ == patched_row(old(shadow)@, dst_stride as int, rect@, row as int),
{
    let ghost dst_at = (rect.y + row) * dst_stride + rx_bytes;
    let ghost src_at = row * row_bytes;
    assert(row * (4 * rect.w) == src_at);
    assert(shadow@.len() == shadow.len() && rect.pixels@.len() == rect.pixels.len());
    let dst_row: usize = match rect.y.checked_add(row) {
        Some(y) => if y >= 0 {
            y as usize
        } else {
            return ;
        },
        None => return ,
    };
    let src_off: usize = match (row as usize).checked_mul(row_bytes) {
        Some(v) => v,
        None => return ,
    };
    let dst_off: usize = match dst_row.checked_mul(dst_stride) {
        Some(v) => match v.checked_add(rx_bytes) {
            Some(off) => off,
            None => return ,
        },
        None => return ,
    };
    match (src_off.checked_add(row_bytes), dst_off.checked_add(row_bytes)) {
        (Some(src_end), Some(dst_end)) => {
            if src_end <= rect.pixels.len() && dst_end <= shadow.len() {
                copy_into(shadow, dst_off, &rect.pixels, src_off, row_bytes);
            }
        },
        _ => {},
    }
}

/// Writes `rects` into a picture `width` pixels wide.
pub fn apply_dirty_to_shadow(shadow: &mut Vec<u8>, width: i32, rects: &Vec<ShmRect>)
    ensures
        final(shadow)@ == patched_picture(old(shadow)@, width as int, rects_view(rects@)),
{
    if width < 0 {
        return ;
    }
    let dst_stride: usize = match (width as usize).checked_mul(4) {
        Some(v) => v,
        None => return ,
    };
    let ghost before = shadow@;
    let ghost views = rects_view(rects@);
    let mut i: usize = 0;
    assert(views.take(0) =~= Seq::empty());
    while i < rects.len()
        invariant
            i <= rects@.len(),
            views == rects_view(rects@),
            shadow@ == patched(before, dst_stride as int, views.take(i as int)),
        decreases rects@.len() - i,
    {
        let rect = &rects[i];
        let ghost so_far = shadow@;
        assert(views.take(i + 1).drop_last() =~= views.take(i as int));
        assert(views.take(i + 1).last() == rect@);
        if rect.w >= 0 && rect.x >= 0 {
            match ((rect.w as usize).checked_mul(4), (rect.x as usize).checked_mul(4)) {
                (Some(row_bytes), Some(rx_bytes)) => {
                    let mut row: i32 = 0;
                    while row < rect.h
                        invariant
                            0 <= row,
                            row <= rect.h || rect.h < 0 && row == 0,
                            row_bytes == 4 * rect.w,
                            rx_bytes == 4 * rect.x,
                            shadow@ == patched_rows(
                                so_far,
                                dst_stride as int,
                                rect@,
                                row as int,
                            ),
                        decreases rect.h - row,
                    {
                        apply_row(shadow, dst_stride, rect, row_bytes, rx_bytes, row);
                        row += 1;
                    }
                },
                _ => {},
            }
        }
        i += 1;
    }
    assert(views.take(rects@.len() as int) =~= views);
}

/// What one shared-memory frame brings: dirty rectangles, or the whole picture
/// first.
pub struct ShmPayload {
    pub rects: Vec<ShmRect>,
    pub full_pixels: Option<Vec<u8>>,
    pub width: i32,
    pub height: i32,
}

/// A 32-bit number as a count of this machine, a negative one wrapping round.
pub open spec fn as_count(v: int) -> int {
    if v < 0 {
        usize::MAX + 1 + v
    } else {
        v
    }
}

fn to_count(v: i32) -> (r: usize)
    ensures
        r == as_count(v as int),
{
    if v < 0 {
        usize::MAX - ((-(v + 1)) as usize)
    } else {
        v as usize
    }
}

/// Bytes of a picture of this extent. A negative extent wraps round, so that
/// beside a positive one there are more bytes than memory can address.
pub open spec fn frame_len(width: int, height: int) -> int {
    as_count(height) * min_int(4 * as_count(width), usize::MAX as int)
}

/// Bytes of a picture of this extent, `None` past what memory can address.
pub fn checked_frame_len(width: i32, height: i32) -> (r: Option<usize>)
    ensures
        match r {
            Some(n) => n == frame_len(width as int, height as int),
            None => frame_len(width as int, height as int) > usize::MAX,
        },
{
    let stride: usize = match to_count(width).checked_mul(4) {
        Some(v) => v,
        None => usize::MAX,
    };
    to_count(height).checked_mul(stride)
}

/// A negative extent beside one that is not zero makes no picture.
proof fn negative_extent_is_too_large(width: int, height: int)
    requires
        i32::MIN <= width <= i32::MAX,
        i32::MIN <= height <= i32::MAX,
        (width < 0 && height != 0) || (width > 0 && height < 0),
    ensures
        frame_len(width, height) >= usize::MAX,
{
    let h = as_count(height);
    let stride = min_int(4 * as_count(width), usize::MAX as int);
    assert(h * stride >= usize::MAX) by (nonlinear_arith)
        requires
            (h >= 1 && stride == usize::MAX) || (stride >= 4 && 2 * h >= usize::MAX),
            h >= 0,
            usize::MAX > 0,
    ;
}

/// The picture a layer last showed.
pub struct ShmShadow {
    pub pixels: Vec<u8>,
    pub size: (i32, i32),
}

/// A picture has the bytes its extent calls for.
pub open spec fn picture_ok(pixels: Seq<u8>, size: (i32, i32)) -> bool {
    pixels.len() == frame_len(size.0 as int, size.1 as int)
}

proof fn patched_rows_len(s: Seq<u8>, stride: int, rect: ShmRectView, rows: int)
    ensures
        patched_rows(s, stride, rect, rows).len() == s.len(),
    decreases rows,
{
    if rows > 0 {
        patched_rows_len(s, stride, rect, rows - 1);
    }
}

proof fn patched_len(s: Seq<u8>, stride: int, rects: Seq<ShmRectView>)
    ensures
        patched(s, stride, rects).len() == s.len(),
    decreases rects.len(),
{
    if rects.len() > 0 {
        let before = patched(s, stride, rects.drop_last());
        patched_len(s, stride, rects.drop_last());
        patched_rows_len(before, stride, rects.last(), rects.last().h as int);
    }
}

impl Default for ShmShadow {
    fn default() -> (s: Self)
        ensures
            s.pixels@ == Seq::<u8>::empty(),
            s.size == (0i32, 0i32),
            picture_ok(s.pixels@, s.size),
    {
        assert(frame_len(0, 0) == 0) by (nonlinear_arith);
        ShmShadow { pixels: Vec::new(), size: (0, 0) }
    }
}

/// The picture to start from: the one at hand if it has the right extent, a
/// black one otherwise.
pub open spec fn shadow_base(pixels: Seq<u8>, size: (i32, i32), width: i32, height: i32) -> Seq<
    u8,
> {
    if size == (width, height) {
        pixels
    } else {
        Seq::new(frame_len(width as int, height as int) as nat, |i: int| 0u8)
    }
}

/// The picture with a whole frame copied over its start.
pub open spec fn with_full(s: Seq<u8>, full: Option<Seq<u8>>) -> Seq<u8> {
    match full {
        Some(f) => if f.len() <= s.len() {
            overwrite(s, 0, f)
        } else {
            s
        },
        None => s,
    }
}

pub open spec fn full_view(full: Option<Vec<u8>>) -> Option<Seq<u8>> {
    match full {
        Some(v) => Some(v@),
        None => None,
    }
}

/// A picture of this extent is at hand, or can be made, or is refused: not one
/// whose bytes can be counted but not be held in one vector.
pub open spec fn picture_holdable(size: (i32, i32), width: i32, height: i32) -> bool {
    ||| size == (width, height)
    ||| frame_len(width as int, height as int) <= isize::MAX
    ||| frame_len(width as int, height as int) > usize::MAX
}

/// Brings the picture up to date with a frame. It fails, and leaves the picture
/// alone, only where the frame's extent exceeds what memory can address; a
/// negative extent beside one that is not zero does, and so is refused.
pub fn compose_shm_shadow(shadow: &mut ShmShadow, payload: &ShmPayload) -> (r: Result<
    (),
    PresentError,
>)
    requires
        picture_holdable(old(shadow).size, payload.width, payload.height),
    ensures
        picture_ok(old(shadow).pixels@, old(shadow).size) ==> picture_ok(
            final(shadow).pixels@,
            final(shadow).size,
        ),
        match r {
            Ok(_) => {
                &&& final(shadow).size == (payload.width, payload.height)
                &&& final(shadow).pixels@ == patched_picture(
                    with_full(
                        shadow_base(
                            old(shadow).pixels@,
                            old(shadow).size,
                            payload.width,
                            payload.height,
                        ),
                        full_view(payload.full_pixels),
                    ),
                    payload.width as int,
                    rects_view(payload.rects@),
                )
            },
            Err(e) => {
                &&& e == PresentError::BadDimensions(payload.width, payload.height)
                &&& *final(shadow) == *old(shadow)
            },
        },
        r is Err <==> old(shadow).size != (payload.width, payload.height) && frame_len(
            payload.width as int,
            payload.height as int,
        ) > usize::MAX,
        old(shadow).size != (payload.width, payload.height) && (payload.width < 0
            && payload.height != 0 || payload.width > 0 && payload.height < 0) ==> r is Err,
{
    let (width, height) = (payload.width, payload.height);
    let ghost base = shadow_base(shadow.pixels@, shadow.size, width, height);
    if shadow.size.0 != width || shadow.size.1 != height {
        let size: usize = match checked_frame_len(width, height) {
            Some(n) => n,
            None => return Err(PresentError::BadDimensions(width, height)),
        };
        shadow.pixels.clear();
        shadow.pixels.resize(size, 0);
        shadow.size = (width, height);
        assert(shadow.pixels@ =~= base);
    }
    if let Some(full) = &payload.full_pixels {
        if full.len() <= shadow.pixels.len() {
            copy_into(&mut shadow.pixels, 0, full, 0, full.len());
            assert(full@.subrange(0, full@.len() as int) =~= full@);
        }
    }
    proof {
        if (width < 0 && height != 0) || (width > 0 && height < 0) {
            negative_extent_is_too_large(width as int, height as int);
        }
        patched_len(shadow.pixels@, 4 * width, rects_view(payload.rects@));
    }
    apply_dirty_to_shadow(&mut shadow.pixels, width, &payload.rects);
    Ok(())
}

} // verus!
