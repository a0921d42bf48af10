//! CPU side of RGBA8 image uploads and of the retained render target: byte-length validation,
//! the mip chain built by 2x2 box filtering, and the size bookkeeping of the persistent frame
//! attachment. The GPU calls themselves stay with the renderer.
use vstd::arithmetic::logarithm::{lemma_log0, lemma_log_s, log};
use vstd::prelude::*;
use vstd::slice::slice_to_vec;

verus! {

/// Encoding counters of the most recent frame.
#[derive(Clone, Copy, Debug, Default, PartialEq, Eq)]
pub struct RenderStats {
    /// Input commands.
    pub commands: u32,
    /// Primitive batches produced.
    pub batches: u32,
    /// Draw calls issued.
    pub draw_calls: u32,
    /// Vertices uploaded.
    pub vertices: u32,
    /// Indices uploaded.
    pub indices: u32,
    /// Commands skipped for an empty clip.
    pub skipped_empty_clip: u32,
    /// Commands whose payload is not supported yet.
    pub unsupported_commands: u32,
    /// Images referenced by the frame but not registered.
    pub missing_images: u32,
    /// Compatibility counter; borders are supported, so it is normally zero.
    pub ignored_borders: u32,
}

/// Why an RGBA8 image upload was refused.
#[derive(Clone, Debug, PartialEq, Eq, Structural)]
pub enum ImageUploadError {
    /// A dimension is zero, or the byte size does not fit in memory.
    InvalidDimensions,
    /// The pixel bytes are not `width * height * 4`.
    InvalidByteLength {
        /// Byte length derived from the dimensions.
        expected: usize,
        /// Byte length supplied by the caller.
        actual: usize,
    },
}

/// Bytes of a `width` x `height` RGBA8 image.
pub open spec fn rgba8_len(width: int, height: int) -> int {
    width * height * 4
}

/// The outcome of checking an upload of `actual` bytes as a `width` x `height` RGBA8 image: the
/// expected byte length, or the error the upload is refused with.
pub open spec fn upload_check(width: u32, height: u32, actual: usize) -> Result<usize, ImageUploadError> {
    if width == 0 || height == 0 || rgba8_len(width as int, height as int) > usize::MAX {
        Err(ImageUploadError::InvalidDimensions)
    } else if actual != rgba8_len(width as int, height as int) {
        Err(
            ImageUploadError::InvalidByteLength {
                expected: rgba8_len(width as int, height as int) as usize,
                actual,
            },
        )
    } else {
        Ok(actual)
    }
}

/// Checks the dimensions and byte length of an RGBA8 upload.
pub fn check_rgba8_upload(width: u32, height: u32, actual: usize) -> (result: Result<usize, ImageUploadError>)
    ensures
        result == upload_check(width, height, actual),
{
    if width == 0 || height == 0 {
        return Err(ImageUploadError::InvalidDimensions);
    }
    let pixels: usize = match (width as usize).checked_mul(height as usize) {
        Some(pixels) => pixels,
        None => {
            assert((width as int) * (height as int) * 4 > usize::MAX) by (nonlinear_arith)
                requires
                    (width as int) * (height as int) > usize::MAX,
            ;
            return Err(ImageUploadError::InvalidDimensions);
        },
    };
    let expected: usize = match pixels.checked_mul(4) {
        Some(expected) => expected,
        None => return Err(ImageUploadError::InvalidDimensions),
    };
    if actual != expected {
        return Err(ImageUploadError::InvalidByteLength { expected, actual });
    }
    Ok(expected)
}

/// The next mip extent of an image side: half, but at least one.
pub open spec fn half_extent(n: int) -> int {
    if n / 2 > 0 {
        n / 2
    } else {
        1
    }
}

/// Number of mip levels of a `width` x `height` image: `floor(log2(max(width, height))) + 1`.
pub open spec fn mip_levels(width: int, height: int) -> int {
    log(2, if width >= height { width } else { height }) + 1
}

/// `log2(n)` is below `n` for every positive `n`.
proof fn lemma_log2_below(n: int)
    requires
        n >= 1,
    ensures
        0 <= log(2, n) < n,
    decreases n,
{
    if n < 2 {
        lemma_log0(2, n);
    } else {
        lemma_log_s(2, n);
        lemma_log2_below(n / 2);
    }
}

/// The mip level count of an image whose longer side is not empty.
pub fn mip_level_count(width: u32, height: u32) -> (count: u32)
    requires
        width > 0 || height > 0,
    ensures
        count == mip_levels(width as int, height as int),
        count >= 1,
{
    let largest: u32 = if width >= height { width } else { height };
    let mut rest: u32 = largest;
    let mut count: u32 = 1;
    proof {
        lemma_log2_below(largest as int);
        lemma_log0(2, 1);
    }
    while rest >= 2
        invariant
            1 <= rest <= largest,
            1 <= count,
            count + log(2, rest as int) == log(2, largest as int) + 1,
            log(2, largest as int) < largest,
        decreases rest,
    {
        proof {
            lemma_log_s(2, rest as int);
            lemma_log2_below(rest as int / 2);
        }
        rest = rest / 2;
        count = count + 1;
    }
    proof {
        lemma_log0(2, rest as int);
    }
    count
}

/// One level of an image's mip chain.
#[derive(Clone, Debug)]
pub struct MipLevel {
    /// Level width in pixels.
    pub width: u32,
    /// Level height in pixels.
    pub height: u32,
    /// RGBA8 bytes of the level.
    pub pixels: Vec<u8>,
}

/// Whether `levels` is the full mip chain of the `width` x `height` RGBA8 image `rgba8`: the
/// image itself, then each level the box-filtered reduction of the one before, down to 1 x 1.
pub open spec fn is_mip_chain(levels: Seq<MipLevel>, width: u32, height: u32, rgba8: Seq<u8>) -> bool {
    &&& levels.len() == mip_levels(width as int, height as int)
    &&& levels[0].width == width
    &&& levels[0].height == height
    &&& levels[0].pixels@ == rgba8
    &&& forall|i: int|
        0 <= i < levels.len() - 1 ==> is_downsample_of(
            #[trigger] levels[i + 1].pixels@,
            levels[i + 1].width as int,
            levels[i + 1].height as int,
            levels[i].pixels@,
            levels[i].width as int,
            levels[i].height as int,
        )
}

/// Validates an RGBA8 upload and builds the mip chain the GPU texture is filled with, level by
/// level. A refused upload builds nothing.
pub fn rgba8_mip_chain(width: u32, height: u32, rgba8: &[u8]) -> (result: Result<Vec<MipLevel>, ImageUploadError>)
    ensures
        match upload_check(width, height, rgba8@.len() as usize) {
            Err(error) => result == Err::<Vec<MipLevel>, ImageUploadError>(error),
            Ok(_) => result matches Ok(levels) && is_mip_chain(levels@, width, height, rgba8@),
        },
{
    match check_rgba8_upload(width, height, rgba8.len()) {
        Err(error) => return Err(error),
        Ok(_) => {},
    }
    let count: u32 = mip_level_count(width, height);
    let mut levels: Vec<MipLevel> = Vec::new();
    levels.push(MipLevel { width, height, pixels: slice_to_vec(rgba8) });
    let mut i: u32 = 1;
    while i < count
        invariant
            1 <= i <= count,
            count == mip_levels(width as int, height as int),
            levels@.len() == i,
            levels@[0].width == width,
            levels@[0].height == height,
            levels@[0].pixels@ == rgba8@,
            levels@[i - 1].width >= 1,
            levels@[i - 1].height >= 1,
            levels@[i - 1].pixels@.len() == rgba8_len(
                levels@[i - 1].width as int,
                levels@[i - 1].height as int,
            ),
            forall|j: int|
                0 <= j < levels@.len() - 1 ==> is_downsample_of(
                    #[trigger] levels@[j + 1].pixels@,
                    levels@[j + 1].width as int,
                    levels@[j + 1].height as int,
                    levels@[j].pixels@,
                    levels@[j].width as int,
                    levels@[j].height as int,
                ),
        decreases count - i,
    {
        let last: usize = i as usize - 1;
        let (pixels, next_width, next_height) = downsample_rgba8(
            levels[last].pixels.as_slice(),
            levels[last].width,
            levels[last].height,
        );
        levels.push(MipLevel { width: next_width, height: next_height, pixels });
        i = i + 1;
    }
    Ok(levels)
}

/// A side of a render target: at least one pixel.
pub open spec fn target_side(n: u32) -> u32 {
    if n == 0 {
        1
    } else {
        n
    }
}

/// Persistent render attachment used for damage-based repaint across swapchain images: it owns
/// the rendered base frame, which is copied into each newly acquired surface image after the
/// candidate frame's damage was applied. `T` is the GPU attachment (texture and view) it owns.
pub struct RetainedFrameTarget<T> {
    attachment: T,
    width: u32,
    height: u32,
    initialized: bool,
}

impl<T> RetainedFrameTarget<T> {
    /// Current size of the attachment in pixels.
    pub closed spec fn extent(&self) -> (u32, u32) {
        (self.width, self.height)
    }

    /// Whether the attachment holds a fully rendered frame.
    pub closed spec fn holds_frame(&self) -> bool {
        self.initialized
    }

    /// The owned attachment.
    pub closed spec fn current_attachment(&self) -> T {
        self.attachment
    }

    /// Creates a target of the given size, a zero side raised to one; `create` builds the
    /// attachment for that size. It holds no frame yet.
    pub fn new<F: FnOnce(u32, u32) -> T>(width: u32, height: u32, create: F) -> (target: Self)
        requires
            create.requires((target_side(width), target_side(height))),
        ensures
            target.extent() == (target_side(width), target_side(height)),
            !target.holds_frame(),
            create.ensures((target_side(width), target_side(height)), target.current_attachment()),
    {
        let width: u32 = if width == 0 { 1 } else { width };
        let height: u32 = if height == 0 { 1 } else { height };
        let attachment = create(width, height);
        RetainedFrameTarget { attachment, width, height, initialized: false }
    }

    /// The owned attachment.
    pub fn attachment(&self) -> (attachment: &T)
        ensures
            *attachment == self.current_attachment(),
    {
        &self.attachment
    }

    /// Rebuilds the attachment when the size changed, which discards the retained frame;
    /// returns whether it did.
    pub fn ensure_size<F: FnOnce(u32, u32) -> T>(&mut self, width: u32, height: u32, create: F) -> (rebuilt: bool)
        requires
            create.requires((width, height)),
        ensures
            rebuilt == (old(self).extent() != (width, height)),
            rebuilt ==> final(self).extent() == (width, height) && !final(self).holds_frame()
                && create.ensures((width, height), final(self).current_attachment()),
            !rebuilt ==> *final(self) == *old(self),
    {
        if self.width == width && self.height == height {
            return false;
        }
        self.attachment = create(width, height);
        self.width = width;
        self.height = height;
        self.initialized = false;
        true
    }

    /// Prepares the target for one frame of `pixel_width` x `pixel_height` (a zero side raised
    /// to one) and decides the repaint: a full repaint when the attachment was rebuilt, holds no
    /// frame yet, or the damage covers the whole viewport; otherwise only the damage is redrawn.
    /// After a full repaint the target holds a frame.
    pub fn begin_frame<F: FnOnce(u32, u32) -> T>(
        &mut self,
        pixel_width: u32,
        pixel_height: u32,
        damage_covers_viewport: bool,
        create: F,
    ) -> (full_repaint: bool)
        requires
            create.requires((target_side(pixel_width), target_side(pixel_height))),
        ensures
            final(self).extent() == (target_side(pixel_width), target_side(pixel_height)),
            full_repaint == (old(self).extent() != (target_side(pixel_width), target_side(pixel_height))
                || !old(self).holds_frame() || damage_covers_viewport),
            final(self).holds_frame(),
            old(self).extent() == final(self).extent() ==> final(self).current_attachment()
                == old(self).current_attachment(),
    {
        let width: u32 = if pixel_width == 0 { 1 } else { pixel_width };
        let height: u32 = if pixel_height == 0 { 1 } else { pixel_height };
        let rebuilt = self.ensure_size(width, height, create);
        let full_repaint = rebuilt || !self.initialized || damage_covers_viewport;
        if full_repaint {
            self.initialized = true;
        }
        full_repaint
    }
}

/// Byte offset of channel `channel` of pixel `(x, y)` in rows of `row_width` RGBA8 pixels.
pub open spec fn pixel_index(row_width: int, x: int, y: int, channel: int) -> int {
    (y * row_width + x) * 4 + channel
}

/// One channel byte of a source pixel.
pub open spec fn source_byte(pixels: Seq<u8>, width: int, x: int, y: int, channel: int) -> int {
    pixels[pixel_index(width, x, y, channel)] as int
}

/// Source columns under target column `x`: two, or one at an odd right edge.
pub open spec fn box_columns(width: int, x: int) -> int {
    if 2 * x + 1 < width {
        2
    } else {
        1
    }
}

/// Source rows under target row `y`: two, or one at an odd bottom edge.
pub open spec fn box_rows(height: int, y: int) -> int {
    if 2 * y + 1 < height {
        2
    } else {
        1
    }
}

/// Sum of one channel over the source box of target pixel `(x, y)`.
pub open spec fn box_sum(pixels: Seq<u8>, width: int, height: int, x: int, y: int, channel: int) -> int {
    let row = source_byte(pixels, width, 2 * x, 2 * y, channel) + (if box_columns(width, x) == 2 {
        source_byte(pixels, width, 2 * x + 1, 2 * y, channel)
    } else {
        0
    });
    let next_row = if box_rows(height, y) == 2 {
        source_byte(pixels, width, 2 * x, 2 * y + 1, channel) + (if box_columns(width, x) == 2 {
            source_byte(pixels, width, 2 * x + 1, 2 * y + 1, channel)
        } else {
            0
        })
    } else {
        0
    };
    row + next_row
}

/// Truncated mean of one channel over the source box of target pixel `(x, y)`.
pub open spec fn box_average(pixels: Seq<u8>, width: int, height: int, x: int, y: int, channel: int) -> int {
    box_sum(pixels, width, height, x, y, channel) / (box_columns(width, x) * box_rows(height, y))
}

/// Whether `next` (`next_width` x `next_height`) is the 2x2 box-filtered reduction of the
/// `width` x `height` RGBA8 image `pixels`.
pub open spec fn is_downsample_of(
    next: Seq<u8>,
    next_width: int,
    next_height: int,
    pixels: Seq<u8>,
    width: int,
    height: int,
) -> bool {
    &&& next_width == half_extent(width)
    &&& next_height == half_extent(height)
    &&& next.len() == rgba8_len(next_width, next_height)
    &&& forall|x: int, y: int, channel: int|
        0 <= x < next_width && 0 <= y < next_height && 0 <= channel < 4 ==> #[trigger] next[pixel_index(
            next_width,
            x,
            y,
            channel,
        )] == box_average(pixels, width, height, x, y, channel)
}

proof fn lemma_pixel_in_bounds(width: int, height: int, x: int, y: int, channel: int)
    requires
        0 <= x < width,
        0 <= y < height,
        0 <= channel < 4,
    ensures
        0 <= pixel_index(width, x, y, channel) < rgba8_len(width, height),
{
    assert(0 <= y * width + x < width * height) by (nonlinear_arith)
        requires
            0 <= x < width,
            0 <= y < height,
    ;
}

/// Reads one channel byte of source pixel `(x, y)`.
fn read_channel(pixels: &[u8], width: u32, height: u32, x: u32, y: u32, channel: usize) -> (value: u32)
    requires
        pixels@.len() == rgba8_len(width as int, height as int),
        x < width,
        y < height,
        channel < 4,
    ensures
        value == source_byte(pixels@, width as int, x as int, y as int, channel as int),
{
    proof {
        lemma_pixel_in_bounds(width as int, height as int, x as int, y as int, channel as int);
    }
    assert((y as int) * (width as int) + (x as int) < (width as int) * (height as int));
    let row: u64 = y as u64;
    let stride: u64 = width as u64;
    assert(row * stride == (y as int) * (width as int));
    assert(pixels@.len() == pixels.len());
    assert((y as int) * (width as int) + (x as int) <= usize::MAX);
    let pixel: u64 = row * stride + (x as u64);
    let index: usize = (pixel as usize) * 4 + channel;
    pixels[index] as u32
}

/// One channel of target pixel `(x, y)`: the truncated mean over its source box.
fn box_value(pixels: &[u8], width: u32, height: u32, x: u32, y: u32, channel: usize) -> (value: u8)
    requires
        width >= 1,
        height >= 1,
        pixels@.len() == rgba8_len(width as int, height as int),
        x < half_extent(width as int),
        y < half_extent(height as int),
        channel < 4,
    ensures
        value == box_average(pixels@, width as int, height as int, x as int, y as int, channel as int),
{
    let sx: u32 = 2 * x;
    let sy: u32 = 2 * y;
    let two_columns = sx + 1 < width;
    let two_rows = sy + 1 < height;
    let mut sum: u32 = read_channel(pixels, width, height, sx, sy, channel);
    if two_columns {
        sum = sum + read_channel(pixels, width, height, sx + 1, sy, channel);
    }
    if two_rows {
        sum = sum + read_channel(pixels, width, height, sx, sy + 1, channel);
        if two_columns {
            sum = sum + read_channel(pixels, width, height, sx + 1, sy + 1, channel);
        }
    }
    let samples: u32 = (if two_columns { 2 } else { 1 }) * (if two_rows { 2 } else { 1 });
    assert(sum / samples <= 255) by (nonlinear_arith)
        requires
            sum <= 255 * samples,
            samples >= 1,
    ;
    (sum / samples) as u8
}

/// Halves an RGBA8 image with a 2x2 box filter; an odd last row or column averages over the
/// pixels that exist, and a side of one stays one.
pub fn downsample_rgba8(pixels: &[u8], width: u32, height: u32) -> (next: (Vec<u8>, u32, u32))
    requires
        width >= 1,
        height >= 1,
        pixels@.len() == rgba8_len(width as int, height as int),
    ensures
        is_downsample_of(next.0@, next.1 as int, next.2 as int, pixels@, width as int, height as int),
{
    let next_width: u32 = if width / 2 > 0 { width / 2 } else { 1 };
    let next_height: u32 = if height / 2 > 0 { height / 2 } else { 1 };
    let ghost nw = next_width as int;
    let ghost nh = next_height as int;
    let ghost source = pixels@;
    let mut next: Vec<u8> = Vec::new();
    let mut y: u32 = 0;
    while y < next_height
        invariant
            nw == next_width,
            nh == next_height,
            source == pixels@,
            width >= 1,
            height >= 1,
            pixels@.len() == rgba8_len(width as int, height as int),
            next_width == half_extent(width as int),
            next_height == half_extent(height as int),
            y <= next_height,
            next@.len() == pixel_index(nw, 0, y as int, 0),
            forall|xx: int, yy: int, c: int|
                0 <= xx < nw && 0 <= yy < y && 0 <= c < 4 ==> #[trigger] next@[pixel_index(nw, xx, yy, c)]
                    == box_average(source, width as int, height as int, xx, yy, c),
        decreases next_height - y,
    {
        let mut x: u32 = 0;
        while x < next_width
            invariant
                nw == next_width,
                nh == next_height,
                source == pixels@,
                width >= 1,
                height >= 1,
                pixels@.len() == rgba8_len(width as int, height as int),
                next_width == half_extent(width as int),
                next_height == half_extent(height as int),
                y < next_height,
                x <= next_width,
                next@.len() == pixel_index(nw, x as int, y as int, 0),
                forall|xx: int, yy: int, c: int|
                    0 <= xx < nw && 0 <= c < 4 && (0 <= yy < y || (yy == y && 0 <= xx < x))
                        ==> #[trigger] next@[pixel_index(nw, xx, yy, c)] == box_average(
                        source,
                        width as int,
                        height as int,
                        xx,
                        yy,
                        c,
                    ),
            decreases next_width - x,
        {
            let ghost before = next@;
            let mut channel: usize = 0;
            while channel < 4
                invariant
                    nw == next_width,
                    source == pixels@,
                    width >= 1,
                    height >= 1,
                    pixels@.len() == rgba8_len(width as int, height as int),
                    next_width == half_extent(width as int),
                    next_height == half_extent(height as int),
                    y < next_height,
                    x < next_width,
                    channel <= 4,
                    before.len() == pixel_index(nw, x as int, y as int, 0),
                    next@.len() == before.len() + channel,
                    forall|i: int| 0 <= i < before.len() ==> next@[i] == before[i],
                    forall|c: int|
                        0 <= c < channel ==> next@[before.len() + c] == box_average(
                            source,
                            width as int,
                            height as int,
                            x as int,
                            y as int,
                            c,
                        ),
                decreases 4 - channel,
            {
                let value: u8 = box_value(pixels, width, height, x, y, channel);
                next.push(value);
                channel = channel + 1;
            }
            proof {
                assert forall|xx: int, yy: int, c: int|
                    0 <= xx < nw && 0 <= c < 4 && (0 <= yy < y || (yy == y && 0 <= xx < x + 1))
                        implies #[trigger] next@[pixel_index(nw, xx, yy, c)] == box_average(
                        source,
                        width as int,
                        height as int,
                        xx,
                        yy,
                        c,
                    ) by {
                    if yy == y && xx == x {
                        assert(pixel_index(nw, xx, yy, c) == before.len() + c);
                    } else {
                        lemma_earlier_pixel(nw, xx, yy, x as int, y as int, c);
                        assert(next@[pixel_index(nw, xx, yy, c)] == before[pixel_index(nw, xx, yy, c)]);
                    }
                }
            }
            x = x + 1;
        }
        proof {
            assert(pixel_index(nw, nw, y as int, 0) == pixel_index(nw, 0, y as int + 1, 0)) by (nonlinear_arith);
        }
        y = y + 1;
    }
    proof {
        assert(pixel_index(nw, 0, nh, 0) == rgba8_len(nw, nh)) by (nonlinear_arith);
    }
    (next, next_width, next_height)
}

/// A pixel earlier in row-major order than `(x, y)` lies before its first byte.
proof fn lemma_earlier_pixel(row_width: int, xx: int, yy: int, x: int, y: int, channel: int)
    requires
        0 <= xx < row_width,
        0 <= x < row_width,
        0 <= channel < 4,
        0 <= yy,
        yy < y || (yy == y && xx < x),
    ensures
        0 <= pixel_index(row_width, xx, yy, channel) < pixel_index(row_width, x, y, 0),
{
    assert(0 <= yy * row_width) by (nonlinear_arith)
        requires
            0 <= yy,
            0 <= row_width,
    ;
    if yy < y {
        assert((yy + 1) * row_width <= y * row_width) by (nonlinear_arith)
            requires
                yy + 1 <= y,
                0 <= row_width,
        ;
        assert((yy + 1) * row_width == yy * row_width + row_width) by (nonlinear_arith);
    }
}

} // verus!
