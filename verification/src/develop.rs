//! The integer side of developing a RAW file into a preview: which sensor
//! area is used, which pixels are metered for auto exposure, and which raw
//! samples are averaged into each output pixel.
use vstd::prelude::*;

verus! {

/// The longest side of a preview when the caller asks for no other.
pub const DEFAULT_MAX_DIMENSION: usize = 2048;

/// The longest side a preview may have.
pub fn preview_max_dimension(requested: Option<usize>) -> (r: usize)
    ensures
        r == match requested {
            Some(d) => d,
            None => DEFAULT_MAX_DIMENSION,
        },
{
    match requested {
        Some(d) => d,
        None => DEFAULT_MAX_DIMENSION,
    }
}

/// A rectangle of the sensor, in raw pixel coordinates.
#[derive(Clone, Copy, Debug)]
pub struct CropRegion {
    pub x: usize,
    pub y: usize,
    pub width: usize,
    pub height: usize,
}

/// The area of the sensor that is developed: the recommended crop, else the
/// active area, else the whole sensor. Using it keeps the dark sensor edges
/// out of the preview.
pub open spec fn chosen_crop(
    crop_area: Option<CropRegion>,
    active_area: Option<CropRegion>,
    full_width: usize,
    full_height: usize,
) -> CropRegion {
    match crop_area {
        Some(c) => c,
        None => match active_area {
            Some(a) => a,
            None => CropRegion { x: 0, y: 0, width: full_width, height: full_height },
        },
    }
}

/// Chooses the area of the sensor that is developed.
pub fn select_crop(
    crop_area: Option<CropRegion>,
    active_area: Option<CropRegion>,
    full_width: usize,
    full_height: usize,
) -> (r: CropRegion)
    ensures
        r == chosen_crop(crop_area, active_area, full_width, full_height),
        crop_area matches Some(c) ==> r == c,
        crop_area is None ==> (active_area matches Some(a) ==> r == a),
        crop_area is None && active_area is None ==> r == (CropRegion { x: 0, y: 0, width: full_width, height: full_height }),
{
    match crop_area {
        Some(c) => c,
        None => match active_area {
            Some(a) => a,
            None => CropRegion { x: 0, y: 0, width: full_width, height: full_height },
        },
    }
}

/// Which part of the sorted brightness samples the auto exposure averages.
#[derive(Clone, Copy, Debug)]
pub enum SampleWindow {
    /// The samples `start..end`.
    Range { start: usize, end: usize },
    /// The single sample at `index`.
    Single { index: usize },
    /// No sample at all.
    Empty,
}

/// The interquartile window of `n` sorted samples: from the first quartile
/// `n / 4` up to the third `3 * n / 4`; where that is empty, the median
/// `n / 2`; where there is no sample, nothing.
pub open spec fn interquartile(n: usize) -> SampleWindow {
    if 3 * n / 4 > n / 4 {
        SampleWindow::Range { start: (n / 4) as usize, end: (3 * n / 4) as usize }
    } else if n / 2 < n {
        SampleWindow::Single { index: (n / 2) as usize }
    } else {
        SampleWindow::Empty
    }
}

/// Chooses the samples of the interquartile mean of `n` sorted brightness
/// samples, the middle half that leaves out deep shadows and blown
/// highlights.
pub fn interquartile_window(n: usize) -> (r: SampleWindow)
    requires
        3 * n <= usize::MAX,
    ensures
        r == interquartile(n),
{
    let q1 = n / 4;
    let q3 = 3 * n / 4;
    if q3 > q1 {
        SampleWindow::Range { start: q1, end: q3 }
    } else if n / 2 < n {
        SampleWindow::Single { index: n / 2 }
    } else {
        SampleWindow::Empty
    }
}

/// The rows (or columns) that a block of side `block` around `center`
/// covers, clipped to `0..limit`.
pub open spec fn block_bounds(center: usize, block: usize, limit: usize) -> (usize, usize) {
    let half = block / 2;
    let start = if center >= half { (center - half) as usize } else { 0 };
    let end = if center + half + 1 <= limit { (center + half + 1) as usize } else { limit };
    (start, end)
}

/// The span `start..end` of a block of side `block` centred on `center`,
/// clipped to `0..limit`.
pub fn block_span(center: usize, block: usize, limit: usize) -> (r: (usize, usize))
    requires
        center + block / 2 + 1 <= usize::MAX,
    ensures
        r == block_bounds(center, block, limit),
        r.0 == if center >= block / 2 { center - block / 2 } else { 0 },
        r.1 == if center + block / 2 + 1 <= limit { center + block / 2 + 1 } else { limit as int },
{
    let half = block / 2;
    let start = center.saturating_sub(half);
    let reach = center + half + 1;
    let end = if reach <= limit { reach } else { limit };
    (start, end)
}

/// The colour filter array of a sensor: a tile of `width * height` colour
/// indices (0 red, 1 green, 2 blue, ...) stored row by row, repeated over the
/// whole sensor. An empty tile gives colour 0 everywhere.
pub struct CfaPattern {
    width: usize,
    height: usize,
    colors: Vec<usize>,
}

impl CfaPattern {
    #[verifier::type_invariant]
    spec fn tile_is_complete(self) -> bool {
        self.colors@.len() == self.width * self.height
    }

    /// The width of the repeating tile.
    pub closed spec fn tile_width(self) -> usize {
        self.width
    }

    /// The height of the repeating tile.
    pub closed spec fn tile_height(self) -> usize {
        self.height
    }

    /// The tile's colours, row by row.
    pub closed spec fn tile(self) -> Seq<usize> {
        self.colors@
    }

    /// The colour at a sensor position: the tile's entry at the position
    /// taken modulo the tile.
    pub open spec fn color(self, row: int, col: int) -> usize {
        if self.tile_width() == 0 || self.tile_height() == 0 {
            0
        } else {
            self.tile()[(row % self.tile_height() as int) * self.tile_width() + col % self.tile_width() as int]
        }
    }

    /// A pattern from a tile of `width * height` colours given row by row;
    /// `None` where the colours do not fill the tile.
    pub fn new(width: usize, height: usize, colors: Vec<usize>) -> (r: Option<CfaPattern>)
        ensures
            r is Some <==> colors@.len() == width * height,
            r matches Some(p) ==> p.tile_width() == width && p.tile_height() == height && p.tile() == colors@,
    {
        let len = colors.len();
        match width.checked_mul(height) {
            Some(n) => if n == len {
                Some(CfaPattern { width, height, colors })
            } else {
                None
            },
            None => None,
        }
    }

    /// The colour at a sensor position.
    pub fn color_at(&self, row: usize, col: usize) -> (r: usize)
        ensures
            r == self.color(row as int, col as int),
            self.tile_width() > 0 && self.tile_height() > 0 ==> r == self.tile()[(row % self.tile_height()) * self.tile_width() + col % self.tile_width()],
            self.tile_width() == 0 || self.tile_height() == 0 ==> r == 0,
    {
        proof {
            use_type_invariant(self);
        }
        if self.width == 0 || self.height == 0 {
            0
        } else {
            let tile_len = self.colors.len();
            let r = row % self.height;
            let c = col % self.width;
            proof {
                lemma_tile_index(r as int, c as int, self.width as int, self.height as int);
                assert(r * self.width + c < tile_len);
            }
            self.colors[r * self.width + c]
        }
    }
}

proof fn lemma_tile_index(r: int, c: int, w: int, h: int)
    requires
        0 <= r < h,
        0 <= c < w,
    ensures
        0 <= r * w + c < w * h,
{
    assert(r * w + c < w * h) by (nonlinear_arith)
        requires
            0 <= r < h,
            0 <= c < w,
    ;
    assert(0 <= r * w) by (nonlinear_arith)
        requires
            0 <= r,
            0 <= w,
    ;
}

/// Where the developed area lies in the raw data: the sensor's full width in
/// pixels, the number of components per pixel (1 for a colour filter array,
/// 3 for RGB data) and the crop, in sensor coordinates.
#[derive(Clone, Copy, Debug)]
pub struct RawGeometry {
    pub full_width: usize,
    pub components: usize,
    pub crop: CropRegion,
}

/// The sensor row of a row of the crop.
pub open spec fn sensor_row(g: RawGeometry, row: int) -> int {
    row + g.crop.y
}

/// The sensor column of a column of the crop.
pub open spec fn sensor_col(g: RawGeometry, col: int) -> int {
    col + g.crop.x
}

/// The index in the raw data of channel `target` at a position of the crop:
/// for colour filter data one sample per pixel, else `components` samples
/// per pixel.
pub open spec fn channel_index(g: RawGeometry, target: usize, row: int, col: int) -> int {
    let sr = sensor_row(g, row);
    let sc = sensor_col(g, col);
    if g.components == 1 {
        sr * g.full_width + sc
    } else {
        sr * g.full_width * g.components + sc * g.components + target
    }
}

/// Computing `channel_index` stays within `usize`, step by step.
pub open spec fn channel_index_fits(g: RawGeometry, target: usize, row: int, col: int) -> bool {
    let sr = sensor_row(g, row);
    let sc = sensor_col(g, col);
    if g.components == 1 {
        &&& sr * g.full_width <= usize::MAX
        &&& sr * g.full_width + sc <= usize::MAX
    } else {
        &&& sr * g.full_width <= usize::MAX
        &&& sr * g.full_width * g.components <= usize::MAX
        &&& sc * g.components <= usize::MAX
        &&& sr * g.full_width * g.components + sc * g.components <= usize::MAX
        &&& sr * g.full_width * g.components + sc * g.components + target <= usize::MAX
    }
}

/// The raw sample at a position of the crop counts toward channel `target`:
/// for RGB data every pixel does, for colour filter data the pixels whose
/// filter has that colour.
pub open spec fn contributes(g: RawGeometry, cfa: CfaPattern, target: usize, row: int, col: int) -> bool {
    g.components != 1 || cfa.color(sensor_row(g, row), sensor_col(g, col)) == target
}

/// The contributing samples of row `row` in the columns `x0..x1`, left to right.
pub open spec fn row_samples(g: RawGeometry, cfa: CfaPattern, target: usize, row: int, x0: int, x1: int) -> Seq<usize>
    decreases x1 - x0,
{
    if x1 <= x0 {
        Seq::empty()
    } else {
        let before = row_samples(g, cfa, target, row, x0, x1 - 1);
        if contributes(g, cfa, target, row, x1 - 1) {
            before.push(channel_index(g, target, row, x1 - 1) as usize)
        } else {
            before
        }
    }
}

/// The contributing samples of the rows `y0..y1` and columns `x0..x1`, row by row.
pub open spec fn window_samples(
    g: RawGeometry,
    cfa: CfaPattern,
    target: usize,
    y0: int,
    y1: int,
    x0: int,
    x1: int,
) -> Seq<usize>
    decreases y1 - y0,
{
    if y1 <= y0 {
        Seq::empty()
    } else {
        window_samples(g, cfa, target, y0, y1 - 1, x0, x1) + row_samples(g, cfa, target, y1 - 1, x0, x1)
    }
}

/// Computing the samples of a window stays within `usize`.
pub open spec fn window_fits(g: RawGeometry, cfa: CfaPattern, target: usize, y0: int, y1: int, x0: int, x1: int) -> bool {
    &&& forall|r: int, c: int| y0 <= r < y1 && x0 <= c < x1
        ==> #[trigger] sensor_row(g, r) <= usize::MAX && #[trigger] sensor_col(g, c) <= usize::MAX
    &&& forall|r: int, c: int|
        y0 <= r < y1 && x0 <= c < x1 && #[trigger] contributes(g, cfa, target, r, c)
            ==> channel_index_fits(g, target, r, c)
}

/// The raw samples of channel `target` that are averaged into the output
/// pixel whose block of side `block` is centred at row `cy`, column `cx` of
/// the crop.
pub open spec fn block_samples(g: RawGeometry, cfa: CfaPattern, target: usize, cy: usize, cx: usize, block: usize) -> Seq<usize> {
    let (y0, y1) = block_bounds(cy, block, g.crop.height);
    let (x0, x1) = block_bounds(cx, block, g.crop.width);
    window_samples(g, cfa, target, y0 as int, y1 as int, x0 as int, x1 as int)
}

/// Computing the samples of a block stays within `usize`.
pub open spec fn block_fits(g: RawGeometry, cfa: CfaPattern, target: usize, cy: usize, cx: usize, block: usize) -> bool {
    let (y0, y1) = block_bounds(cy, block, g.crop.height);
    let (x0, x1) = block_bounds(cx, block, g.crop.width);
    &&& cy + block / 2 + 1 <= usize::MAX
    &&& cx + block / 2 + 1 <= usize::MAX
    &&& window_fits(g, cfa, target, y0 as int, y1 as int, x0 as int, x1 as int)
}

/// The indices in the raw data of the samples of channel `target` that the
/// area-averaged demosaic averages into the output pixel whose block is
/// centred at row `cy`, column `cx` of the crop, row by row. The caller sums
/// the samples and divides by their number.
pub fn block_sample_indices(
    g: &RawGeometry,
    cfa: &CfaPattern,
    cy: usize,
    cx: usize,
    target: usize,
    block: usize,
) -> (r: Vec<usize>)
    requires
        block_fits(*g, *cfa, target, cy, cx, block),
    ensures
        r@ == block_samples(*g, *cfa, target, cy, cx, block),
{
    let (y0, y1) = block_span(cy, block, g.crop.height);
    let (x0, x1) = block_span(cx, block, g.crop.width);
    let mut out: Vec<usize> = Vec::new();
    let mut row = y0;
    while row < y1
        invariant
            y0 <= row,
            y0 < y1 ==> row <= y1,
            y1 <= y0 ==> row == y0,
            window_fits(*g, *cfa, target, y0 as int, y1 as int, x0 as int, x1 as int),
            out@ == window_samples(*g, *cfa, target, y0 as int, row as int, x0 as int, x1 as int),
        decreases y1 - row,
    {
        let ghost before = out@;
        let mut col = x0;
        while col < x1
            invariant
                y0 <= row < y1,
                x0 <= col,
                x0 < x1 ==> col <= x1,
                x1 <= x0 ==> col == x0,
                window_fits(*g, *cfa, target, y0 as int, y1 as int, x0 as int, x1 as int),
                out@ == before + row_samples(*g, *cfa, target, row as int, x0 as int, col as int),
            decreases x1 - col,
        {
            assert(sensor_row(*g, row as int) <= usize::MAX && sensor_col(*g, col as int) <= usize::MAX);
            let sr = row + g.crop.y;
            let sc = col + g.crop.x;
            let ghost prefix = out@;
            if g.components != 1 {
                assert(contributes(*g, *cfa, target, row as int, col as int));
                assert(channel_index_fits(*g, target, row as int, col as int));
                let idx = sr * g.full_width * g.components + sc * g.components + target;
                out.push(idx);
            } else if cfa.color_at(sr, sc) == target {
                assert(contributes(*g, *cfa, target, row as int, col as int));
                assert(channel_index_fits(*g, target, row as int, col as int));
                let idx = sr * g.full_width + sc;
                out.push(idx);
            }
            proof {
                assert(out@ =~= before + row_samples(*g, *cfa, target, row as int, x0 as int, col + 1));
            }
            col = col + 1;
        }
        proof {
            if x1 <= x0 {
                assert(col == x0);
            }
            assert(out@ =~= window_samples(*g, *cfa, target, y0 as int, row + 1, x0 as int, x1 as int));
        }
        row = row + 1;
    }
    proof {
        if y1 <= y0 {
            assert(row == y0);
        }
    }
    out
}

/// The smallest distance between metered pixels.
pub const MIN_METERING_STEP: usize = 10;

/// The distance between metered pixels, given the integer square root of
/// the crop's area, but never less than `MIN_METERING_STEP`.
pub open spec fn metering_step(root: usize) -> usize {
    if root >= MIN_METERING_STEP {
        root
    } else {
        MIN_METERING_STEP
    }
}

/// How many of `0, step, 2 * step, ...` lie below `n`.
pub open spec fn steps_below(n: int, step: int) -> int {
    (n + step - 1) / step
}

/// The samples per pixel used to address a metered pixel: the number of
/// components, but at least one.
pub open spec fn pixel_stride(g: RawGeometry) -> int {
    if g.components >= 1 {
        g.components as int
    } else {
        1
    }
}

/// The index in the raw data of the first sample of the pixel at a position
/// of the crop.
pub open spec fn metering_index(g: RawGeometry, row: int, col: int) -> int {
    sensor_row(g, row) * g.full_width * pixel_stride(g) + sensor_col(g, col) * pixel_stride(g)
}

/// The metered pixels of the crop row `k * step`, left to right.
pub open spec fn metering_row(g: RawGeometry, step: int, k: int) -> Seq<usize> {
    Seq::new(
        steps_below(g.crop.width as int, step) as nat,
        |j: int| metering_index(g, k * step, j * step) as usize,
    )
}

/// The metered pixels of the first `k` metered rows, row by row.
pub open spec fn metering_rows(g: RawGeometry, step: int, k: int) -> Seq<usize>
    decreases k,
{
    if k <= 0 {
        Seq::empty()
    } else {
        metering_rows(g, step, k - 1) + metering_row(g, step, k - 1)
    }
}

/// The raw data indices of the pixels metered for auto exposure: every
/// `metering_step(root)`-th pixel of every `metering_step(root)`-th row of
/// the crop, row by row.
pub open spec fn metering_samples(g: RawGeometry, root: usize) -> Seq<usize> {
    let step = metering_step(root) as int;
    metering_rows(g, step, steps_below(g.crop.height as int, step))
}

/// Walking the metering grid stays within `usize`.
pub open spec fn metering_fits(g: RawGeometry, root: usize) -> bool {
    let step = metering_step(root) as int;
    let s = pixel_stride(g);
    &&& forall|k: int| 0 <= k && #[trigger] (k * step) < g.crop.height ==> k * step + step <= usize::MAX
    &&& forall|j: int| 0 <= j && #[trigger] (j * step) < g.crop.width
        ==> j * step + step <= usize::MAX && sensor_col(g, j * step) <= usize::MAX
            && sensor_col(g, j * step) * s <= usize::MAX
    &&& forall|k: int, j: int| 0 <= k && 0 <= j && k * step < g.crop.height && j * step < g.crop.width
        ==> sensor_row(g, k * step) <= usize::MAX && sensor_row(g, k * step) * g.full_width <= usize::MAX
            && sensor_row(g, k * step) * g.full_width * s <= usize::MAX
            && #[trigger] metering_index(g, k * step, j * step) <= usize::MAX
}

proof fn lemma_steps_below(n: int, step: int, k: int)
    requires
        step > 0,
        n >= 0,
        k >= 0,
        k * step >= n,
        k == 0 || (k - 1) * step < n,
    ensures
        k == steps_below(n, step),
{
    let q = (n + step - 1) / step;
    let r = (n + step - 1) % step;
    vstd::arithmetic::div_mod::lemma_fundamental_div_mod(n + step - 1, step);
    assert(0 <= r < step);
    assert(n + step - 1 == step * q + r);
    if k > 0 {
        assert((k - 1) * step == k * step - step) by (nonlinear_arith);
    }
    assert(k * step <= n + step - 1);
    assert(k * step > n + step - 1 - step);
    assert(k == q) by (nonlinear_arith)
        requires
            step > 0,
            n + step - 1 == step * q + r,
            0 <= r < step,
            k * step <= n + step - 1,
            k * step > n - 1,
    ;
}

proof fn lemma_step_below(n: int, step: int, j: int)
    requires
        step > 0,
        j >= 0,
        j * step < n,
    ensures
        j + 1 <= steps_below(n, step),
{
    assert((j + 1) * step == j * step + step) by (nonlinear_arith);
    assert((j + 1) * step <= n + step - 1);
    vstd::arithmetic::div_mod::lemma_div_is_ordered((j + 1) * step, n + step - 1, step);
    vstd::arithmetic::div_mod::lemma_div_by_multiple(j + 1, step);
}

/// The raw data indices of the pixels metered for auto exposure, given the
/// integer square root `root` of the crop's area (so that about one pixel in
/// `root * root` is metered). The caller reads and sorts their brightness.
pub fn metering_sample_indices(g: &RawGeometry, root: usize) -> (r: Vec<usize>)
    requires
        metering_fits(*g, root),
    ensures
        r@ == metering_samples(*g, root),
{
    let step = if root >= MIN_METERING_STEP { root } else { MIN_METERING_STEP };
    let stride = if g.components >= 1 { g.components } else { 1 };
    let ghost st = step as int;
    let h = g.crop.height;
    let w = g.crop.width;
    let mut out: Vec<usize> = Vec::new();
    let mut row: usize = 0;
    let ghost mut k: int = 0;
    while row < h
        invariant
            st == metering_step(root) as int,
            step as int == st,
            stride as int == pixel_stride(*g),
            h == g.crop.height,
            w == g.crop.width,
            metering_fits(*g, root),
            k >= 0,
            row as int == k * st,
            k == 0 || (k - 1) * st < h,
            out@ == metering_rows(*g, st, k),
            k <= steps_below(h as int, st),
        decreases steps_below(h as int, st) - k,
    {
        assert(k * st < g.crop.height);
        proof {
            lemma_step_below(h as int, st, k);
        }
        let ghost before = out@;
        let mut col: usize = 0;
        let ghost mut j: int = 0;
        while col < w
            invariant
                st == metering_step(root) as int,
                step as int == st,
                stride as int == pixel_stride(*g),
                w == g.crop.width,
                metering_fits(*g, root),
                row as int == k * st,
                k >= 0,
                k * st < g.crop.height,
                j >= 0,
                col as int == j * st,
                j == 0 || (j - 1) * st < w,
                out@ == before + metering_row(*g, st, k).take(j),
                j <= steps_below(w as int, st),
            decreases steps_below(w as int, st) - j,
        {
            assert(j * st < g.crop.width);
            proof {
                lemma_step_below(w as int, st, j);
            }
            assert(metering_index(*g, k * st, j * st) <= usize::MAX);
            let sr = row + g.crop.y;
            let sc = col + g.crop.x;
            let idx = sr * g.full_width * stride + sc * stride;
            out.push(idx);
            proof {
                assert((j + 1) * st == j * st + st) by (nonlinear_arith);
                assert(metering_row(*g, st, k).take(j + 1) =~= metering_row(*g, st, k).take(j).push(idx));
                j = j + 1;
            }
            col = col + step;
        }
        proof {
            lemma_steps_below(w as int, st, j);
            assert(metering_row(*g, st, k).take(j) =~= metering_row(*g, st, k));
            assert((k + 1) * st == k * st + st) by (nonlinear_arith);
            k = k + 1;
        }
        row = row + step;
    }
    proof {
        lemma_steps_below(h as int, st, k);
    }
    out
}

} // verus!
