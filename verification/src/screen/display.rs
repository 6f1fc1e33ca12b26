//! The display side of the capture session: which part of a captured frame
//! changed, the copy of that part into a frame of the hand-off buffer, and the
//! bitmap update that the consumer makes of it.

use crate::counter::interval_between;
use crate::counter::IntervalCounter;
use crate::screen::ScreenOutputIndex;
use vstd::prelude::*;
use vstd::slice::slice_subrange;

verus! {

/// Bytes of one pixel (blue, green, red, alpha).
pub const BYTES_PER_PIXEL: u64 = 4;

/// The largest value of a frame's origin and of its dimensions.
pub const MAX_EXTENT: u64 = 0xFFFF;

/// A rectangle of the screen that changed since the previous sample.
#[derive(Debug, Clone, Copy, PartialEq, Eq, Structural)]
pub struct DirtyRect {
    pub x: u32,
    pub y: u32,
    pub width: u32,
    pub height: u32,
}

/// A rectangle of a captured image, in pixels.
#[derive(Debug, Clone, Copy, PartialEq, Eq, Structural)]
pub struct Region {
    pub x: u64,
    pub y: u64,
    pub width: u64,
    pub height: u64,
}

/// One captured frame: a rectangle of the screen and its pixels, four bytes
/// each, row after row without padding.
#[derive(Debug)]
pub struct CapturedData {
    pub x: u16,
    pub y: u16,
    pub width: u16,
    pub height: u16,
    pub data: Vec<u8>,
}

impl DirtyRect {
    /// The column just right of the rectangle.
    pub open spec fn right(self) -> int {
        self.x + self.width
    }

    /// The row just below the rectangle.
    pub open spec fn bottom(self) -> int {
        self.y + self.height
    }
}

impl Region {
    /// The rectangle lies inside this region.
    pub open spec fn encloses(self, rect: DirtyRect) -> bool {
        &&& self.x <= rect.x
        &&& self.y <= rect.y
        &&& rect.right() <= self.x + self.width
        &&& rect.bottom() <= self.y + self.height
    }

    /// The region holds no pixel.
    pub open spec fn is_empty(self) -> bool {
        self.width == 0 || self.height == 0
    }
}

/// The smallest left edge among the rectangles (of a sequence that is not
/// empty).
pub open spec fn min_left(rects: Seq<DirtyRect>) -> int
    decreases rects.len(),
{
    if rects.len() <= 1 {
        rects[0].x as int
    } else {
        let rest = min_left(rects.drop_last());
        if rects.last().x < rest {
            rects.last().x as int
        } else {
            rest
        }
    }
}

/// The smallest top edge among the rectangles.
pub open spec fn min_top(rects: Seq<DirtyRect>) -> int
    decreases rects.len(),
{
    if rects.len() <= 1 {
        rects[0].y as int
    } else {
        let rest = min_top(rects.drop_last());
        if rects.last().y < rest {
            rects.last().y as int
        } else {
            rest
        }
    }
}

/// The largest right edge among the rectangles.
pub open spec fn max_right(rects: Seq<DirtyRect>) -> int
    decreases rects.len(),
{
    if rects.len() <= 1 {
        rects[0].right()
    } else {
        let rest = max_right(rects.drop_last());
        if rects.last().right() > rest {
            rects.last().right()
        } else {
            rest
        }
    }
}

/// The largest bottom edge among the rectangles.
pub open spec fn max_bottom(rects: Seq<DirtyRect>) -> int
    decreases rects.len(),
{
    if rects.len() <= 1 {
        rects[0].bottom()
    } else {
        let rest = max_bottom(rects.drop_last());
        if rects.last().bottom() > rest {
            rects.last().bottom()
        } else {
            rest
        }
    }
}

/// The axis-aligned bounding box of the rectangles (of a sequence that is not
/// empty).
pub open spec fn bounding_box(rects: Seq<DirtyRect>) -> Region {
    Region {
        x: min_left(rects) as u64,
        y: min_top(rects) as u64,
        width: (max_right(rects) - min_left(rects)) as u64,
        height: (max_bottom(rects) - min_top(rects)) as u64,
    }
}

/// The whole frame of `width` x `height` pixels.
pub open spec fn full_frame(width: u32, height: u32) -> Region {
    Region { x: 0, y: 0, width: width as u64, height: height as u64 }
}

/// The part of a frame to hand on: the bounding box of the dirty rectangles,
/// or the whole frame where that box holds no pixel or no rectangle is known.
pub open spec fn spec_frame_region(rects: Seq<DirtyRect>, frame_width: u32, frame_height: u32) -> Region {
    if rects.len() == 0 || bounding_box(rects).is_empty() {
        full_frame(frame_width, frame_height)
    } else {
        bounding_box(rects)
    }
}

/// The four edges of the bounding box are edges of rectangles, and every
/// rectangle lies between them.
pub proof fn bounding_box_is_tight(rects: Seq<DirtyRect>)
    requires
        rects.len() > 0,
    ensures
        forall|i: int| 0 <= i < rects.len() ==> bounding_box(rects).encloses(#[trigger] rects[i]),
        exists|i: int| 0 <= i < rects.len() && #[trigger] rects[i].x == bounding_box(rects).x,
        exists|i: int| 0 <= i < rects.len() && #[trigger] rects[i].y == bounding_box(rects).y,
        exists|i: int|
            0 <= i < rects.len() && #[trigger] rects[i].right() == bounding_box(rects).x
                + bounding_box(rects).width,
        exists|i: int|
            0 <= i < rects.len() && #[trigger] rects[i].bottom() == bounding_box(rects).y
                + bounding_box(rects).height,
        0 <= min_left(rects) <= max_right(rects) <= 2 * u32::MAX,
        0 <= min_top(rects) <= max_bottom(rects) <= 2 * u32::MAX,
    decreases rects.len(),
{
    if rects.len() == 1 {
        assert(rects[0].x == bounding_box(rects).x);
        assert(rects[0].y == bounding_box(rects).y);
        assert(rects[0].right() == bounding_box(rects).x + bounding_box(rects).width);
        assert(rects[0].bottom() == bounding_box(rects).y + bounding_box(rects).height);
    } else {
        let rest = rects.drop_last();
        let last = rects.len() - 1;
        bounding_box_is_tight(rest);
        assert forall|i: int| 0 <= i < rects.len() implies bounding_box(rects).encloses(
            #[trigger] rects[i],
        ) by {
            if i < last {
                assert(rest[i] == rects[i]);
            }
        }
        let left = choose|i: int| 0 <= i < rest.len() && #[trigger] rest[i].x == bounding_box(rest).x;
        let top = choose|i: int| 0 <= i < rest.len() && #[trigger] rest[i].y == bounding_box(rest).y;
        let right = choose|i: int|
            0 <= i < rest.len() && #[trigger] rest[i].right() == bounding_box(rest).x
                + bounding_box(rest).width;
        let bottom = choose|i: int|
            0 <= i < rest.len() && #[trigger] rest[i].bottom() == bounding_box(rest).y
                + bounding_box(rest).height;
        let left_at = if rects[last].x < min_left(rest) {
            last
        } else {
            left
        };
        let top_at = if rects[last].y < min_top(rest) {
            last
        } else {
            top
        };
        let right_at = if rects[last].right() > max_right(rest) {
            last
        } else {
            right
        };
        let bottom_at = if rects[last].bottom() > max_bottom(rest) {
            last
        } else {
            bottom
        };
        assert(rects[left_at].x == bounding_box(rects).x);
        assert(rects[top_at].y == bounding_box(rects).y);
        assert(rects[right_at].right() == bounding_box(rects).x + bounding_box(rects).width);
        assert(rects[bottom_at].bottom() == bounding_box(rects).y + bounding_box(rects).height);
    }
}

/// Picks the part of a frame to hand on from the rectangles that changed: their
/// bounding box, or the whole frame of `frame_width` x `frame_height` pixels
/// where the box holds no pixel.
pub fn frame_region(rects: &[DirtyRect], frame_width: u32, frame_height: u32) -> (region: Region)
    ensures
        region == spec_frame_region(rects@, frame_width, frame_height),
{
    let whole = Region { x: 0, y: 0, width: frame_width as u64, height: frame_height as u64 };
    if rects.len() == 0 {
        return whole;
    }
    let mut left: u64 = rects[0].x as u64;
    let mut top: u64 = rects[0].y as u64;
    let mut right: u64 = rects[0].x as u64 + rects[0].width as u64;
    let mut bottom: u64 = rects[0].y as u64 + rects[0].height as u64;
    let mut i: usize = 1;
    while i < rects.len()
        invariant
            1 <= i <= rects.len(),
            left == min_left(rects@.subrange(0, i as int)),
            top == min_top(rects@.subrange(0, i as int)),
            right == max_right(rects@.subrange(0, i as int)),
            bottom == max_bottom(rects@.subrange(0, i as int)),
            left <= right <= 2 * u32::MAX,
            top <= bottom <= 2 * u32::MAX,
        decreases rects.len() - i,
    {
        let rect = rects[i];
        let ghost seen = rects@.subrange(0, i as int + 1);
        assert(seen.drop_last() == rects@.subrange(0, i as int));
        if (rect.x as u64) < left {
            left = rect.x as u64;
        }
        if (rect.y as u64) < top {
            top = rect.y as u64;
        }
        if rect.x as u64 + rect.width as u64 > right {
            right = rect.x as u64 + rect.width as u64;
        }
        if rect.y as u64 + rect.height as u64 > bottom {
            bottom = rect.y as u64 + rect.height as u64;
        }
        i += 1;
    }
    assert(rects@.subrange(0, i as int) == rects@);
    let region = Region { x: left, y: top, width: right - left, height: bottom - top };
    if region.width == 0 || region.height == 0 {
        whole
    } else {
        region
    }
}

/// Where row `row` of the region starts in an image of `bytes_per_row` bytes a
/// row.
pub open spec fn row_start(region: Region, row: int, bytes_per_row: int) -> int {
    (region.y + row) * bytes_per_row + BYTES_PER_PIXEL * region.x
}

/// Bytes of one row of the region.
pub open spec fn row_len(region: Region) -> int {
    BYTES_PER_PIXEL * region.width
}

/// The region can be cut from an image of `source_len` bytes: origin and
/// dimensions fit 16 bits, and its last row ends inside the image.
pub open spec fn region_fits(region: Region, source_len: nat, bytes_per_row: u32) -> bool {
    &&& region.x <= MAX_EXTENT
    &&& region.y <= MAX_EXTENT
    &&& region.width <= MAX_EXTENT
    &&& region.height <= MAX_EXTENT
    &&& !region.is_empty() ==> row_start(region, region.height - 1, bytes_per_row as int) + row_len(
        region,
    ) <= source_len
}

/// The first `rows` rows of the region, cut from `source` and laid end to end.
pub open spec fn region_rows(source: Seq<u8>, region: Region, bytes_per_row: int, rows: nat) -> Seq<
    u8,
>
    decreases rows,
{
    if rows == 0 {
        Seq::empty()
    } else {
        let start = row_start(region, rows - 1, bytes_per_row);
        region_rows(source, region, bytes_per_row, (rows - 1) as nat) + source.subrange(
            start,
            start + row_len(region),
        )
    }
}

/// The pixels of the region, cut from `source`: its rows laid end to end, or
/// nothing for a region without pixels.
pub open spec fn region_bytes(source: Seq<u8>, region: Region, bytes_per_row: u32) -> Seq<u8> {
    if region.is_empty() {
        Seq::empty()
    } else {
        region_rows(source, region, bytes_per_row as int, region.height as nat)
    }
}

proof fn lemma_row_inside(region: Region, row: int, source_len: nat, bytes_per_row: u32)
    requires
        region_fits(region, source_len, bytes_per_row),
        !region.is_empty(),
        0 <= row < region.height,
    ensures
        0 <= (region.y + row) * bytes_per_row,
        0 <= row_start(region, row, bytes_per_row as int),
        row_start(region, row, bytes_per_row as int) + row_len(region) <= source_len,
        row_start(region, row, bytes_per_row as int) + row_len(region) <= row_start(
            region,
            region.height - 1,
            bytes_per_row as int,
        ) + row_len(region),
{
    let b = bytes_per_row as int;
    let first = region.y + row;
    let last = region.y + region.height - 1;
    assert(0 <= first * b <= last * b) by (nonlinear_arith)
        requires
            0 <= first <= last,
            0 <= b,
    ;
}

proof fn lemma_rows_len(source: Seq<u8>, region: Region, source_len: nat, bytes_per_row: u32, rows: nat)
    requires
        source.len() == source_len,
        region_fits(region, source_len, bytes_per_row),
        !region.is_empty(),
        rows <= region.height,
    ensures
        region_rows(source, region, bytes_per_row as int, rows).len() == rows * row_len(region),
    decreases rows,
{
    if rows > 0 {
        lemma_rows_len(source, region, source_len, bytes_per_row, (rows - 1) as nat);
        lemma_row_inside(region, rows - 1, source_len, bytes_per_row);
        assert(rows * row_len(region) == (rows - 1) * row_len(region) + row_len(region))
            by (nonlinear_arith);
    } else {
        assert(0 * row_len(region) == 0);
    }
}

/// What the bytes of a region are, one by one: they number four times width
/// times height, and byte `column` of row `row` is the byte of the image at that
/// row's start plus `column`.
pub proof fn region_bytes_at(
    source: Seq<u8>,
    region: Region,
    bytes_per_row: u32,
    row: int,
    column: int,
)
    requires
        region_fits(region, source.len(), bytes_per_row),
        0 <= row < region.height,
        0 <= column < row_len(region),
    ensures
        region_bytes(source, region, bytes_per_row).len() == region.height * row_len(region),
        0 <= row * row_len(region) + column < region_bytes(source, region, bytes_per_row).len(),
        0 <= row_start(region, row, bytes_per_row as int) + column < source.len(),
        region_bytes(source, region, bytes_per_row)[row * row_len(region) + column] == source[row_start(
            region,
            row,
            bytes_per_row as int,
        ) + column],
{
    lemma_rows_len(source, region, source.len(), bytes_per_row, region.height as nat);
    lemma_rows_at(source, region, bytes_per_row, region.height as nat, row, column);
    lemma_row_inside(region, row, source.len(), bytes_per_row);
}

proof fn lemma_rows_at(
    source: Seq<u8>,
    region: Region,
    bytes_per_row: u32,
    rows: nat,
    row: int,
    column: int,
)
    requires
        region_fits(region, source.len(), bytes_per_row),
        !region.is_empty(),
        rows <= region.height,
        0 <= row < rows,
        0 <= column < row_len(region),
    ensures
        0 <= row * row_len(region) + column < rows * row_len(region),
        region_rows(source, region, bytes_per_row as int, rows).len() == rows * row_len(region),
        region_rows(source, region, bytes_per_row as int, rows)[row * row_len(region) + column]
            == source[row_start(region, row, bytes_per_row as int) + column],
    decreases rows,
{
    let len = row_len(region);
    lemma_rows_len(source, region, source.len(), bytes_per_row, rows);
    lemma_rows_len(source, region, source.len(), bytes_per_row, (rows - 1) as nat);
    lemma_row_inside(region, rows - 1, source.len(), bytes_per_row);
    assert(0 <= row * len && row * len + len <= rows * len) by (nonlinear_arith)
        requires
            0 <= row < rows,
            0 < len,
    ;
    if row == rows - 1 {
        assert((rows - 1) * len == rows * len - len) by (nonlinear_arith);
    } else {
        lemma_rows_at(source, region, bytes_per_row, (rows - 1) as nat, row, column);
    }
}

/// Copies the pixels of `region` out of the image `source`, whose rows are
/// `bytes_per_row` bytes apart, into `output`, and records the region there.
///
/// Returns `false`, and leaves `output` as it was, when the region cannot be
/// cut from the image.
pub fn convert_buffer(region: Region, source: &[u8], bytes_per_row: u32, output: &mut CapturedData) -> (converted:
    bool)
    ensures
        converted == region_fits(region, source@.len(), bytes_per_row),
        converted ==> {
            &&& final(output).x == region.x
            &&& final(output).y == region.y
            &&& final(output).width == region.width
            &&& final(output).height == region.height
            &&& final(output).data@ == region_bytes(source@, region, bytes_per_row)
            &&& final(output).is_complete()
        },
        !converted ==> *final(output) == *old(output),
{
    if region.x > MAX_EXTENT || region.y > MAX_EXTENT || region.width > MAX_EXTENT || region.height
        > MAX_EXTENT {
        return false;
    }
    let source_len = source.len();
    let stride: u64 = bytes_per_row as u64;
    let row_bytes: u64 = BYTES_PER_PIXEL * region.width;
    let left_bytes: u64 = BYTES_PER_PIXEL * region.x;
    let has_pixels = region.width != 0 && region.height != 0;
    if has_pixels {
        let last_row: u64 = region.y + region.height - 1;
        assert(last_row * stride <= 0x1_FFFD * 0xFFFF_FFFF) by (nonlinear_arith)
            requires
                0 <= last_row <= 0x1_FFFD,
                0 <= stride <= 0xFFFF_FFFF,
        ;
        let last_end: u64 = last_row * stride + left_bytes + row_bytes;
        if last_end > source_len as u64 {
            return false;
        }
    }
    output.data.clear();
    if has_pixels {
        let mut row: u64 = 0;
        while row < region.height
            invariant
                row <= region.height,
                !region.is_empty(),
                source@.len() == source_len,
                region_fits(region, source@.len(), bytes_per_row),
                stride == bytes_per_row,
                row_bytes == row_len(region),
                left_bytes == BYTES_PER_PIXEL * region.x,
                output.data@ == region_rows(source@, region, bytes_per_row as int, row as nat),
            decreases region.height - row,
        {
            proof {
                lemma_row_inside(region, row as int, source@.len(), bytes_per_row);
            }
            let start: u64 = (region.y + row) * stride + left_bytes;
            let end: u64 = start + row_bytes;
            output.data.extend_from_slice(slice_subrange(source, start as usize, end as usize));
            row += 1;
        }
    }
    output.x = region.x as u16;
    output.y = region.y as u16;
    output.width = region.width as u16;
    output.height = region.height as u16;
    proof {
        if has_pixels {
            lemma_rows_len(source@, region, source@.len(), bytes_per_row, region.height as nat);
            assert(region.height * row_len(region) == BYTES_PER_PIXEL * region.width
                * region.height) by (nonlinear_arith);
        } else {
            assert(BYTES_PER_PIXEL * region.width * region.height == 0) by (nonlinear_arith)
                requires
                    region.width == 0 || region.height == 0,
            ;
        }
    }
    true
}

impl CapturedData {
    /// The frame holds exactly the pixels of its rectangle: four bytes for
    /// each.
    pub open spec fn is_complete(&self) -> bool {
        self.data@.len() == BYTES_PER_PIXEL * self.width * self.height
    }

    /// The two frames show the same rectangle with the same bytes.
    pub open spec fn same_as(&self, other: CapturedData) -> bool {
        &&& self.x == other.x
        &&& self.y == other.y
        &&& self.width == other.width
        &&& self.height == other.height
        &&& self.data@ == other.data@
    }

    /// A frame for a screen of `width` x `height` pixels that holds no pixels
    /// yet.
    pub open spec fn is_blank(&self, width: u16, height: u16) -> bool {
        &&& self.x == 0
        &&& self.y == 0
        &&& self.width == width
        &&& self.height == height
        &&& self.data@.len() == 0
    }
}

impl Clone for CapturedData {
    /// A frame that shows the same rectangle with the same bytes.
    fn clone(&self) -> (copy: Self)
        ensures
            copy.same_as(*self),
    {
        let data = self.data.clone();
        CapturedData { x: self.x, y: self.y, width: self.width, height: self.height, data }
    }
}

/// A request to the capture loop that concerns the display.
#[derive(Debug, Clone, Copy, PartialEq, Eq, Structural)]
pub enum Job {
    /// Asks for the logical size of the capture session.
    GetSize,
    /// The client announced a resolution.
    SetSize(u16, u16),
    /// Asks for frames to be produced.
    CaptureStart,
    /// The consumer of the frames of this output is gone.
    CaptureStop(ScreenOutputIndex),
}

/// The job for a monitor of `width` x `height` pixels in a layout that the
/// client announced.  The job carries 16 bits of each dimension.
pub fn resize_job(width: u32, height: u32) -> (job: Job)
    ensures
        job == Job::SetSize((width % 0x1_0000) as u16, (height % 0x1_0000) as u16),
{
    Job::SetSize((width % 0x1_0000) as u16, (height % 0x1_0000) as u16)
}

/// A part of the screen to send to the client: its place, its size, and its
/// pixels in rows of `stride` bytes.
#[derive(Debug, Clone)]
pub struct BitmapUpdate {
    pub x: u16,
    pub y: u16,
    pub width: u16,
    pub height: u16,
    pub stride: usize,
    pub data: Vec<u8>,
}

impl BitmapUpdate {
    /// The update shows at least one pixel, and its bytes are exactly `height`
    /// rows of four bytes a pixel.
    pub open spec fn well_formed(&self) -> bool {
        &&& self.width > 0
        &&& self.height > 0
        &&& self.stride == BYTES_PER_PIXEL * self.width
        &&& self.data@.len() == self.stride * self.height
    }
}

impl CapturedData {
    /// The update that shows this frame, for a frame that is complete and not
    /// empty.
    pub open spec fn spec_bitmap_update(&self) -> Option<BitmapUpdate> {
        if self.is_complete() && self.width > 0 && self.height > 0 {
            Some(
                BitmapUpdate {
                    x: self.x,
                    y: self.y,
                    width: self.width,
                    height: self.height,
                    stride: (BYTES_PER_PIXEL * self.width) as usize,
                    data: self.data,
                },
            )
        } else {
            None
        }
    }

    /// A frame for a screen of `width` x `height` pixels that holds no pixels
    /// yet.
    pub fn new(width: u16, height: u16) -> (frame: CapturedData)
        ensures
            frame.is_blank(width, height),
    {
        CapturedData { x: 0, y: 0, width, height, data: Vec::new() }
    }

    /// Makes the update that shows this frame.
    ///
    /// There is none for a frame without pixels, nor for one whose bytes do not
    /// match its rectangle (a frame that was never filled).
    pub fn bitmap_update(&self) -> (update: Option<BitmapUpdate>)
        ensures
            match (update, self.spec_bitmap_update()) {
                (Some(made), Some(expected)) => {
                    &&& made.x == expected.x
                    &&& made.y == expected.y
                    &&& made.width == expected.width
                    &&& made.height == expected.height
                    &&& made.stride == expected.stride
                    &&& made.data@ == expected.data@
                    &&& made.well_formed()
                },
                (None, None) => true,
                _ => false,
            },
    {
        if self.width == 0 || self.height == 0 {
            return None;
        }
        assert(self.width as u64 * self.height as u64 <= 0xFFFF * 0xFFFF) by (nonlinear_arith)
            requires
                self.width <= 0xFFFF,
                self.height <= 0xFFFF,
        ;
        let bytes: u64 = BYTES_PER_PIXEL * (self.width as u64 * self.height as u64);
        assert(bytes == BYTES_PER_PIXEL * self.width * self.height) by (nonlinear_arith)
            requires
                bytes == BYTES_PER_PIXEL * (self.width as u64 * self.height as u64),
        ;
        if self.data.len() as u64 != bytes {
            return None;
        }
        let stride: usize = 4 * (self.width as usize);
        assert(stride * self.height == BYTES_PER_PIXEL * self.width * self.height)
            by (nonlinear_arith)
            requires
                stride == 4 * self.width,
        ;
        let data = self.data.clone();
        Some(BitmapUpdate { x: self.x, y: self.y, width: self.width, height: self.height, stride, data })
    }
}

/// `triple_buffer::Input`: the producer's end of a triple buffer.  Nothing
/// inside it is visible to the verifier.
#[verifier::external_type_specification]
#[verifier::external_body]
#[verifier::reject_recursive_types(T)]
pub struct ExTripleBufferInput<T: Send>(triple_buffer::Input<T>);

/// `triple_buffer::Output`: the consumer's end of a triple buffer.  Nothing
/// inside it is visible to the verifier.
#[verifier::external_type_specification]
#[verifier::external_body]
#[verifier::reject_recursive_types(T)]
pub struct ExTripleBufferOutput<T: Send>(triple_buffer::Output<T>);

/// The frame in the slot that the producer's end owns at the moment: the one
/// that `Input::input_buffer_mut` gives access to.
pub uninterp spec fn staged_frame(input: triple_buffer::Input<CapturedData>) -> CapturedData;

/// The frame in the slot that the consumer's end owns at the moment: the one
/// that `Output::peek_output_buffer` gives access to.
pub uninterp spec fn shown_frame(output: triple_buffer::Output<CapturedData>) -> CapturedData;

/// Calls `triple_buffer::triple_buffer`, which makes the three slots, each by
/// `initial.clone()`, and hands out the two ends: the slot of either end holds
/// what a clone of `initial` holds.
#[verifier::external_body]
fn frame_buffers(initial: &CapturedData) -> (ends: (
    triple_buffer::Input<CapturedData>,
    triple_buffer::Output<CapturedData>,
))
    ensures
        staged_frame(ends.0).same_as(*initial),
        shown_frame(ends.1).same_as(*initial),
{
    triple_buffer::triple_buffer(initial)
}

/// Calls `Input::input_buffer_mut`: a mutable reference to the producer's own
/// slot.  What is written through it is what the slot holds afterwards.
#[verifier::external_body]
fn staging_slot(input: &mut triple_buffer::Input<CapturedData>) -> (slot: &mut CapturedData)
    ensures
        *slot == staged_frame(*old(input)),
        staged_frame(*final(input)) == *final(slot),
{
    input.input_buffer_mut()
}

/// Calls `Input::publish`: the producer's slot becomes the one that the
/// consumer takes next, and the producer gets another slot with unrelated
/// contents.  The result tells whether a frame that the consumer never took was
/// replaced; it depends on the consumer, and nothing is claimed of it.
#[verifier::external_body]
fn publish_staged(input: &mut triple_buffer::Input<CapturedData>) -> (replaced: bool) {
    input.publish()
}

/// Calls `Output::update`: if the producer published since the last call, the
/// consumer's slot becomes the newest published one and the result is `true`;
/// otherwise the consumer keeps its slot and the result is `false`.
#[verifier::external_body]
fn take_published(output: &mut triple_buffer::Output<CapturedData>) -> (fresh: bool)
    ensures
        !fresh ==> shown_frame(*final(output)) == shown_frame(*old(output)),
{
    output.update()
}

/// Calls `Output::peek_output_buffer`: a reference to the consumer's own slot.
#[verifier::external_body]
fn shown_slot(output: &triple_buffer::Output<CapturedData>) -> (frame: &CapturedData)
    ensures
        *frame == shown_frame(*output),
{
    output.peek_output_buffer()
}

/// The image behind a captured sample, as far as it could be read.
pub struct PixelBuffer<'a> {
    /// Width of the whole image, in pixels.
    pub width: u32,
    /// Height of the whole image, in pixels.
    pub height: u32,
    /// Distance between the starts of two rows, in bytes.
    pub bytes_per_row: u32,
    /// The image's bytes, or `None` where they could not be locked for
    /// reading.
    pub bytes: Option<&'a [u8]>,
}

/// What the capture session says of a sample.
pub struct FrameInfo {
    /// The sample holds a complete new frame.
    pub complete: bool,
    /// The rectangles that changed since the previous frame, where known.
    pub dirty_rects: Option<Vec<DirtyRect>>,
}

/// One sample as the capture session delivers it.
pub struct ScreenSample<'a> {
    /// The sample is of the screen (and not, say, of the audio).
    pub of_screen: bool,
    /// What the session says of the sample, where it says anything.
    pub frame_info: Option<FrameInfo>,
    /// The image of the sample, where it has one.
    pub pixel_buffer: Option<PixelBuffer<'a>>,
}

/// What became of a sample.
#[derive(Debug, Clone, Copy, PartialEq, Eq, Structural)]
pub enum SampleOutcome {
    /// Dropped: not a sample of the screen.
    NotScreen,
    /// Dropped: the session says nothing of it.
    NoFrameInfo,
    /// Dropped: not a complete frame.
    Incomplete,
    /// Dropped: the changed rectangles are not known.
    NoDirtyRects,
    /// Dropped: there is no image.
    NoPixelBuffer,
    /// Dropped: the image could not be locked.
    LockFailed,
    /// Dropped: the part to hand on does not lie inside the image.
    OutOfBounds,
    /// Handed to the consumer as the current frame.
    Published,
}

/// What becomes of a sample, by what can be read of it.
pub open spec fn sample_outcome(sample: ScreenSample) -> SampleOutcome {
    if !sample.of_screen {
        SampleOutcome::NotScreen
    } else if sample.frame_info is None {
        SampleOutcome::NoFrameInfo
    } else if !sample.frame_info->0.complete {
        SampleOutcome::Incomplete
    } else if sample.frame_info->0.dirty_rects is None {
        SampleOutcome::NoDirtyRects
    } else if sample.pixel_buffer is None {
        SampleOutcome::NoPixelBuffer
    } else if sample.pixel_buffer->0.bytes is None {
        SampleOutcome::LockFailed
    } else if !region_fits(
        sample_region(sample),
        sample.pixel_buffer->0.bytes->0@.len(),
        sample.pixel_buffer->0.bytes_per_row,
    ) {
        SampleOutcome::OutOfBounds
    } else {
        SampleOutcome::Published
    }
}

/// The part of a sample's image to hand on (for a sample that has an image and
/// whose changed rectangles are known).
pub open spec fn sample_region(sample: ScreenSample) -> Region {
    spec_frame_region(
        sample.frame_info->0.dirty_rects->0@,
        sample.pixel_buffer->0.width,
        sample.pixel_buffer->0.height,
    )
}

/// The frame that a published sample puts before the consumer.
pub open spec fn sample_frame(sample: ScreenSample) -> Seq<u8> {
    region_bytes(
        sample.pixel_buffer->0.bytes->0@,
        sample_region(sample),
        sample.pixel_buffer->0.bytes_per_row,
    )
}

/// The producing side of the frame hand-off: it receives the samples of the
/// capture session and publishes, of each good one, the part that changed.
pub struct DisplayCaptureDelegate {
    sender: triple_buffer::Input<CapturedData>,
    capture_counter: IntervalCounter,
    /// The part of the screen and the bytes that were published last.
    handed_over: Ghost<Option<(Region, Seq<u8>)>>,
}

/// The consuming side of the frame hand-off of one attached output.
pub struct DisplayUpdates {
    index: ScreenOutputIndex,
    capture_receiver: triple_buffer::Output<CapturedData>,
    send_counter: IntervalCounter,
}

/// The consuming side before its output is attached.
pub struct PendingUpdates {
    capture_receiver: triple_buffer::Output<CapturedData>,
    send_counter: IntervalCounter,
}

/// Makes the two sides of a frame hand-off for a screen of `width` x `height`
/// pixels.  Either side starts with a frame of that size that holds no pixels,
/// of which there is no update to make.
pub fn frame_relay(
    width: u16,
    height: u16,
    capture_counter: IntervalCounter,
    send_counter: IntervalCounter,
) -> (sides: (DisplayCaptureDelegate, PendingUpdates))
    ensures
        sides.0.staged().is_blank(width, height),
        sides.0.handed_over() is None,
        sides.0.rate() == capture_counter,
        sides.1.shown().is_blank(width, height),
        sides.1.rate() == send_counter,
{
    let initial = CapturedData::new(width, height);
    let (sender, capture_receiver) = frame_buffers(&initial);
    (
        DisplayCaptureDelegate { sender, capture_counter, handed_over: Ghost(None) },
        PendingUpdates { capture_receiver, send_counter },
    )
}

impl PendingUpdates {
    /// The frame that the consumer's slot holds.
    pub closed spec fn shown(&self) -> CapturedData {
        shown_frame(self.capture_receiver)
    }

    /// The counter of the rate at which updates are handed out.
    pub closed spec fn rate(&self) -> IntervalCounter {
        self.send_counter
    }

    /// The consuming side of the output that was attached under `index`.
    pub fn attached(self, index: ScreenOutputIndex) -> (updates: DisplayUpdates)
        ensures
            updates.spec_index() == index,
            updates.shown() == self.shown(),
            updates.rate() == self.rate(),
    {
        DisplayUpdates { index, capture_receiver: self.capture_receiver, send_counter: self.send_counter }
    }
}

/// Decides what becomes of a sample and, for a good one, writes the part of it
/// that changed into `slot`.
///
/// A sample of the screen that is complete, whose changed rectangles are known
/// and whose image could be locked and holds the part to hand on is good: `slot`
/// then holds that part, and the outcome is `Published`, for the caller to
/// publish the slot.  Any other sample leaves `slot` as it was.
pub fn stage_sample(sample: &ScreenSample, slot: &mut CapturedData) -> (outcome: SampleOutcome)
    ensures
        outcome == sample_outcome(*sample),
        outcome == SampleOutcome::Published ==> {
            &&& final(slot).x == sample_region(*sample).x
            &&& final(slot).y == sample_region(*sample).y
            &&& final(slot).width == sample_region(*sample).width
            &&& final(slot).height == sample_region(*sample).height
            &&& final(slot).data@ == sample_frame(*sample)
            &&& final(slot).is_complete()
        },
        outcome != SampleOutcome::Published ==> *final(slot) == *old(slot),
{
    if !sample.of_screen {
        return SampleOutcome::NotScreen;
    }
    let frame_info = match &sample.frame_info {
        Some(frame_info) => frame_info,
        None => {
            return SampleOutcome::NoFrameInfo;
        },
    };
    if !frame_info.complete {
        return SampleOutcome::Incomplete;
    }
    let dirty_rects = match &frame_info.dirty_rects {
        Some(dirty_rects) => dirty_rects,
        None => {
            return SampleOutcome::NoDirtyRects;
        },
    };
    let pixel_buffer = match &sample.pixel_buffer {
        Some(pixel_buffer) => pixel_buffer,
        None => {
            return SampleOutcome::NoPixelBuffer;
        },
    };
    let bytes = match pixel_buffer.bytes {
        Some(bytes) => bytes,
        None => {
            return SampleOutcome::LockFailed;
        },
    };
    let region = frame_region(dirty_rects.as_slice(), pixel_buffer.width, pixel_buffer.height);
    if convert_buffer(region, bytes, pixel_buffer.bytes_per_row, slot) {
        SampleOutcome::Published
    } else {
        SampleOutcome::OutOfBounds
    }
}

/// What the producer has handed over after one more sample, having handed over
/// `handed` before: the changed part of the sample if it is a good one, and
/// what it was otherwise.
pub open spec fn handed_over_after(handed: Option<(Region, Seq<u8>)>, sample: ScreenSample) -> Option<
    (Region, Seq<u8>),
> {
    if sample_outcome(sample) == SampleOutcome::Published {
        Some((sample_region(sample), sample_frame(sample)))
    } else {
        handed
    }
}

/// What the producer has handed over after a run of samples, taken in order.
pub open spec fn handed_over_after_all(handed: Option<(Region, Seq<u8>)>, samples: Seq<ScreenSample>) -> Option<
    (Region, Seq<u8>),
>
    decreases samples.len(),
{
    if samples.len() == 0 {
        handed
    } else {
        handed_over_after(handed_over_after_all(handed, samples.drop_last()), samples.last())
    }
}

/// Of a run of samples the producer has handed over the last good one, whatever
/// it handed over before and however many good ones came earlier in the run;
/// samples dropped after it change nothing.
pub proof fn latest_good_sample_is_handed_over(
    handed: Option<(Region, Seq<u8>)>,
    samples: Seq<ScreenSample>,
    latest: int,
)
    requires
        0 <= latest < samples.len(),
        sample_outcome(samples[latest]) == SampleOutcome::Published,
        forall|later: int|
            latest < later < samples.len() ==> sample_outcome(#[trigger] samples[later])
                != SampleOutcome::Published,
    ensures
        handed_over_after_all(handed, samples) == Some(
            (sample_region(samples[latest]), sample_frame(samples[latest])),
        ),
    decreases samples.len(),
{
    if latest < samples.len() - 1 {
        let earlier = samples.drop_last();
        assert(earlier[latest] == samples[latest]);
        assert forall|later: int| latest < later < earlier.len() implies sample_outcome(
            #[trigger] earlier[later],
        ) != SampleOutcome::Published by {
            assert(earlier[later] == samples[later]);
        }
        latest_good_sample_is_handed_over(handed, earlier, latest);
    }
}

impl DisplayCaptureDelegate {
    /// The frame in the slot that the next good sample is written to.
    pub closed spec fn staged(&self) -> CapturedData {
        staged_frame(self.sender)
    }

    /// The part of the screen and its bytes that this side published last, if
    /// it published any: what the producer's slot held when it was handed to
    /// the buffer.
    pub closed spec fn handed_over(&self) -> Option<(Region, Seq<u8>)> {
        self.handed_over@
    }

    /// The counter of the rate at which frames are captured.
    pub closed spec fn rate(&self) -> IntervalCounter {
        self.capture_counter
    }

    /// Takes one sample from the capture session.
    ///
    /// A good sample (see [`stage_sample`]) has its changed part written to the
    /// producer's slot and published, and the capture rate is updated: the
    /// interval counted is the time since the good sample before.  Any other
    /// sample is dropped, with the slot and the counter left as they were and
    /// nothing published, so the consumer keeps the frame it has.
    pub fn did_output_sample_buffer(&mut self, sample: &ScreenSample) -> (outcome: SampleOutcome)
        ensures
            outcome == sample_outcome(*sample),
            final(self).handed_over() == handed_over_after(old(self).handed_over(), *sample),
            outcome == SampleOutcome::Published ==> final(self).handed_over() == Some(
                (sample_region(*sample), sample_frame(*sample)),
            ),
            outcome == SampleOutcome::Published ==> final(self).rate().recorded()
                == interval_between(old(self).rate().anchor(), final(self).rate().anchor()),
            outcome != SampleOutcome::Published ==> {
                &&& final(self).staged() == old(self).staged()
                &&& final(self).handed_over() == old(self).handed_over()
                &&& final(self).rate() == old(self).rate()
            },
            final(self).rate().cell() == old(self).rate().cell(),
    {
        let outcome = stage_sample(sample, staging_slot(&mut self.sender));
        match outcome {
            SampleOutcome::Published => {
                let ghost frame = staged_frame(self.sender);
                publish_staged(&mut self.sender);
                self.handed_over = Ghost(
                    Some(
                        (
                            Region {
                                x: frame.x as u64,
                                y: frame.y as u64,
                                width: frame.width as u64,
                                height: frame.height as u64,
                            },
                            frame.data@,
                        ),
                    ),
                );
                self.capture_counter.update();
            },
            _ => {},
        }
        outcome
    }
}

impl DisplayUpdates {
    /// The handle of the output whose frames these are.
    pub closed spec fn spec_index(&self) -> ScreenOutputIndex {
        self.index
    }

    /// The frame that the consumer's slot holds.
    pub closed spec fn shown(&self) -> CapturedData {
        shown_frame(self.capture_receiver)
    }

    /// The counter of the rate at which updates are handed out.
    pub closed spec fn rate(&self) -> IntervalCounter {
        self.send_counter
    }

    /// The handle of the output whose frames these are.
    pub fn index(&self) -> (index: ScreenOutputIndex)
        ensures
            index == self.spec_index(),
    {
        self.index
    }

    /// The job to send to the capture loop when the consumer of the frames is
    /// dropped: the one that stops this output.
    pub fn stop_job(&self) -> (job: Job)
        ensures
            job == Job::CaptureStop(self.spec_index()),
    {
        Job::CaptureStop(self.index)
    }

    /// Takes the newest published frame, if one was published since the last
    /// call, and makes the update that shows it.
    ///
    /// However many frames were published in between, the update is of the
    /// frame that the consumer's slot holds after the call: the newest.  Without
    /// a new frame there is no update, and the slot keeps its frame; there is
    /// none either for a frame that shows nothing.  The send rate is updated
    /// with each update handed out.
    pub fn next_update(&mut self) -> (update: Option<BitmapUpdate>)
        ensures
            final(self).spec_index() == old(self).spec_index(),
            update matches Some(made) ==> {
                &&& final(self).shown().spec_bitmap_update() matches Some(expected)
                &&& made.x == expected.x
                &&& made.y == expected.y
                &&& made.width == expected.width
                &&& made.height == expected.height
                &&& made.stride == expected.stride
                &&& made.data@ == expected.data@
                &&& made.well_formed()
            },
            update is None ==> final(self).shown() == old(self).shown()
                || final(self).shown().spec_bitmap_update() is None,
            update is Some ==> final(self).rate().recorded() == interval_between(
                old(self).rate().anchor(),
                final(self).rate().anchor(),
            ),
            update is None ==> final(self).rate() == old(self).rate(),
            final(self).rate().cell() == old(self).rate().cell(),
    {
        let fresh = take_published(&mut self.capture_receiver);
        let update = fresh_update(fresh, shown_slot(&self.capture_receiver));
        if update.is_some() {
            self.send_counter.update();
        }
        update
    }
}

/// The update to hand out once the consumer's slot holds `frame`: the one that
/// shows the frame if it is a new one (`fresh`), none if the consumer has seen
/// it already.
pub fn fresh_update(fresh: bool, frame: &CapturedData) -> (update: Option<BitmapUpdate>)
    ensures
        !fresh ==> update is None,
        fresh ==> match (update, frame.spec_bitmap_update()) {
            (Some(made), Some(expected)) => {
                &&& made.x == expected.x
                &&& made.y == expected.y
                &&& made.width == expected.width
                &&& made.height == expected.height
                &&& made.stride == expected.stride
                &&& made.data@ == expected.data@
                &&& made.well_formed()
            },
            (None, None) => true,
            _ => false,
        },
{
    if fresh {
        frame.bitmap_update()
    } else {
        None
    }
}

} // verus!
