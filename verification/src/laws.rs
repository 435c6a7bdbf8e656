//! Properties that span the library's functions.
use vstd::prelude::*;
use crate::browse::{FolderEntry, arw_paths, is_listed, last_index_of, lemma_last_index_of_bounds, names_arw_file};
use crate::develop::{
    DEFAULT_MAX_DIMENSION, pixel_stride, chosen_crop, contributes, CfaPattern, CropRegion, RawGeometry, SampleWindow, block_bounds, block_samples, channel_index, interquartile,
    metering_index, metering_row, metering_rows, metering_samples, metering_step, row_samples, steps_below,
    window_samples,
};
use crate::encoding::DATA_URL_PREFIX_LEN;
use crate::metadata::{HEADER_READ_LIMIT, THUMBNAIL_MAX_BYTES, ExifValues, ThumbnailSource, iso_text, thumbnail_source};
use crate::text::without_quotes;

verus! {

/// Removing quotes leaves no quote behind.
pub proof fn lemma_no_quotes_remain(s: Seq<char>)
    ensures
        !without_quotes(s).contains('"'),
    decreases s.len(),
{
    if s.len() > 0 {
        lemma_no_quotes_remain(s.drop_last());
        let rest = without_quotes(s.drop_last());
        if s.last() != '"' {
            assert forall|i: int| 0 <= i < rest.push(s.last()).len() implies rest.push(s.last())[i] != '"' by {
                if i < rest.len() {
                    assert(rest[i] == rest.push(s.last())[i]);
                }
            }
        }
    }
}

/// Text without quotes is left as it is.
pub proof fn lemma_quote_free_unchanged(s: Seq<char>)
    requires
        !s.contains('"'),
    ensures
        without_quotes(s) == s,
    decreases s.len(),
{
    if s.len() > 0 {
        assert(!s.drop_last().contains('"')) by {
            if s.drop_last().contains('"') {
                let i = choose|i: int| 0 <= i < s.drop_last().len() && s.drop_last()[i] == '"';
                assert(s[i] == '"');
            }
        }
        lemma_quote_free_unchanged(s.drop_last());
        assert(s.last() != '"') by {
            assert(s[s.len() - 1] == s.last());
        }
        assert(s.drop_last().push(s.last()) =~= s);
    }
}

/// Removing quotes twice is removing them once.
pub proof fn lemma_strip_quotes_idempotent(s: Seq<char>)
    ensures
        without_quotes(without_quotes(s)) == without_quotes(s),
{
    lemma_no_quotes_remain(s);
    lemma_quote_free_unchanged(without_quotes(s));
}

/// The folder listing is filtered entry by entry: the files of two listings
/// one after the other are the files of each, one after the other.
pub proof fn lemma_arw_paths_concat(a: Seq<FolderEntry>, b: Seq<FolderEntry>)
    ensures
        arw_paths(a + b) == arw_paths(a) + arw_paths(b),
    decreases b.len(),
{
    if b.len() == 0 {
        assert(a + b =~= a);
        assert(arw_paths(a) + arw_paths(b) =~= arw_paths(a));
    } else {
        lemma_arw_paths_concat(a, b.drop_last());
        assert((a + b).drop_last() =~= a + b.drop_last());
        assert((a + b).last() == b.last());
        if is_listed(b.last()) {
            assert(arw_paths(a) + arw_paths(b) =~= (arw_paths(a) + arw_paths(b.drop_last())).push(b.last().path@));
        }
    }
}

/// A listing of one entry shows its path exactly when it is a regular file
/// with the `.arw` extension.
pub proof fn lemma_arw_paths_single(e: FolderEntry)
    ensures
        arw_paths(seq![e]) == if is_listed(e) { seq![e.path@] } else { Seq::<Seq<char>>::empty() },
{
    assert(seq![e].drop_last() =~= Seq::<FolderEntry>::empty());
    assert(arw_paths(Seq::<FolderEntry>::empty()) =~= Seq::<Seq<char>>::empty());
    assert(seq![e].last() == e);
    if is_listed(e) {
        assert(Seq::<Seq<char>>::empty().push(e.path@) =~= seq![e.path@]);
    }
}

/// ASCII upper case letters turned to lower case, everything else kept.
pub open spec fn ascii_lower(c: char) -> char {
    if 'A' <= c && c <= 'Z' {
        ((c as u32) + 32) as char
    } else {
        c
    }
}

proof fn lemma_last_index_of_lower(s: Seq<char>)
    ensures
        last_index_of(s.map_values(|c: char| ascii_lower(c)), '.') == last_index_of(s, '.'),
    decreases s.len(),
{
    let t = s.map_values(|c: char| ascii_lower(c));
    if s.len() > 0 {
        assert(t.drop_last() =~= s.drop_last().map_values(|c: char| ascii_lower(c)));
        lemma_last_index_of_lower(s.drop_last());
        assert(t.last() == ascii_lower(s.last()));
    }
}

/// Whether a name has the `.arw` extension does not depend on the case of
/// its ASCII letters.
pub proof fn lemma_arw_extension_ignores_case(name: Seq<char>)
    ensures
        names_arw_file(name.map_values(|c: char| ascii_lower(c))) == names_arw_file(name),
{
    let t = name.map_values(|c: char| ascii_lower(c));
    lemma_last_index_of_lower(name);
    if name =~= seq!['.', '.'] {
        assert(t =~= seq!['.', '.']);
    }
    if t =~= seq!['.', '.'] {
        assert(t[0] == ascii_lower(name[0]));
        assert(t[1] == ascii_lower(name[1]));
        assert(name =~= seq!['.', '.']);
    }
    lemma_last_index_of_bounds(name, '.');
    match last_index_of(name, '.') {
        Some(i) => {
            if i > 0 && !(name =~= seq!['.', '.']) {
                let e = name.subrange(i + 1, name.len() as int);
                let f = t.subrange(i + 1, t.len() as int);
                assert(f =~= e.map_values(|c: char| ascii_lower(c)));
                if e.len() == 3 {
                    assert(f[0] == ascii_lower(e[0]));
                    assert(f[1] == ascii_lower(e[1]));
                    assert(f[2] == ascii_lower(e[2]));
                }
            }
        },
        None => {},
    }
}

/// A thumbnail is only ever read when it is at most 512 KiB; one taken from
/// the header lies inside it, and one read from the file does not.
pub proof fn lemma_thumbnail_source_bounds(offset: Option<u32>, length: Option<u32>, header_len: usize)
    ensures
        match thumbnail_source(offset, length, header_len) {
            ThumbnailSource::InHeader { start, end } => {
                &&& start <= end <= header_len
                &&& end - start <= THUMBNAIL_MAX_BYTES
                &&& offset == Some(start as u32)
                &&& length == Some((end - start) as u32)
            },
            ThumbnailSource::InFile { offset: o, length: l } => {
                &&& l <= THUMBNAIL_MAX_BYTES
                &&& o + l > header_len
                &&& offset == Some(o as u32)
                &&& length == Some(l as u32)
            },
            ThumbnailSource::Missing => offset is None || length is None || length.unwrap() > THUMBNAIL_MAX_BYTES,
        },
{
}

/// The block around a pixel of the crop contains it, stays inside the crop
/// and spans at most `block` (rounded up to odd) rows or columns.
pub proof fn lemma_block_bounds_contain_center(center: usize, block: usize, limit: usize)
    requires
        center < limit,
        center + block / 2 + 1 <= usize::MAX,
    ensures
        block_bounds(center, block, limit).0 <= center < block_bounds(center, block, limit).1 <= limit,
        block_bounds(center, block, limit).1 - block_bounds(center, block, limit).0 <= 2 * (block / 2) + 1,
{
}

/// The interquartile window of `n` samples is the middle half: it starts at
/// the first quartile, ends at the third, and lies within the samples; only
/// when there is no sample is nothing averaged.
pub proof fn lemma_interquartile_within(n: usize)
    requires
        3 * n <= usize::MAX,
    ensures
        match interquartile(n) {
            SampleWindow::Range { start, end } => start == n / 4 && end == 3 * n / 4 && start < end <= n,
            SampleWindow::Single { index } => index < n && n < 2,
            SampleWindow::Empty => n == 0,
        },
{
}

/// The colour filter array repeats with the tile: one tile further down or
/// right the colour is the same.
pub proof fn lemma_cfa_periodic(cfa: CfaPattern, row: int, col: int)
    requires
        row >= 0,
        col >= 0,
    ensures
        cfa.color(row + cfa.tile_height(), col) == cfa.color(row, col),
        cfa.color(row, col + cfa.tile_width()) == cfa.color(row, col),
{
    if cfa.tile_width() > 0 && cfa.tile_height() > 0 {
        vstd::arithmetic::div_mod::lemma_mod_add_multiples_vanish(row, cfa.tile_height() as int);
        vstd::arithmetic::div_mod::lemma_mod_add_multiples_vanish(col, cfa.tile_width() as int);
    }
}

proof fn lemma_metering_rows_layout(g: RawGeometry, step: int, k: int)
    requires
        k >= 0,
    ensures
        ({
            let cols = steps_below(g.crop.width as int, step);
            let rows = metering_rows(g, step, k);
            &&& cols >= 0 ==> rows.len() == k * cols
            &&& cols > 0 ==> forall|i: int| 0 <= i < rows.len()
                ==> #[trigger] rows[i] == metering_index(g, (i / cols) * step, (i % cols) * step) as usize
        }),
    decreases k,
{
    let cols = steps_below(g.crop.width as int, step);
    if k > 0 {
        lemma_metering_rows_layout(g, step, k - 1);
        let prev = metering_rows(g, step, k - 1);
        let row = metering_row(g, step, k - 1);
        if cols >= 0 {
            assert(k * cols == (k - 1) * cols + cols) by (nonlinear_arith);
        }
        if cols > 0 {
            assert forall|i: int| 0 <= i < metering_rows(g, step, k).len() implies
                #[trigger] metering_rows(g, step, k)[i] == metering_index(g, (i / cols) * step, (i % cols) * step) as usize by {
                if i >= prev.len() {
                    let j = i - (k - 1) * cols;
                    assert(0 <= j < cols);
                    assert(i == (k - 1) * cols + j);
                    vstd::arithmetic::div_mod::lemma_fundamental_div_mod_converse(i, cols, k - 1, j);
                    assert(metering_rows(g, step, k)[i] == row[j]);
                }
            }
        }
    }
}

/// Auto exposure meters one pixel per step in each direction: as many
/// pixels as there are metered rows times metered columns, row by row, the
/// `i`-th at row `i / cols` and column `i % cols` of the metering grid.
pub proof fn lemma_metering_grid(g: RawGeometry, root: usize)
    ensures
        ({
            let step = metering_step(root) as int;
            let rows = steps_below(g.crop.height as int, step);
            let cols = steps_below(g.crop.width as int, step);
            let samples = metering_samples(g, root);
            &&& samples.len() == rows * cols
            &&& forall|i: int| 0 <= i < samples.len()
                ==> #[trigger] samples[i] == metering_index(g, (i / cols) * step, (i % cols) * step) as usize
        }),
{
    let step = metering_step(root) as int;
    let rows = steps_below(g.crop.height as int, step);
    let cols = steps_below(g.crop.width as int, step);
    assert(rows >= 0 && cols >= 0) by {
        vstd::arithmetic::div_mod::lemma_div_pos_is_pos(g.crop.height + step - 1, step);
        vstd::arithmetic::div_mod::lemma_div_pos_is_pos(g.crop.width + step - 1, step);
    }
    lemma_metering_rows_layout(g, step, rows);
    if cols == 0 {
        assert(rows * cols == 0) by (nonlinear_arith)
            requires
                cols == 0,
        ;
    }
}

proof fn lemma_row_samples_all(g: RawGeometry, cfa: CfaPattern, target: usize, row: int, x0: int, x1: int)
    requires
        g.components != 1,
        x0 <= x1,
    ensures
        row_samples(g, cfa, target, row, x0, x1).len() == x1 - x0,
        forall|i: int| 0 <= i < x1 - x0
            ==> #[trigger] row_samples(g, cfa, target, row, x0, x1)[i] == channel_index(g, target, row, x0 + i) as usize,
    decreases x1 - x0,
{
    if x1 > x0 {
        lemma_row_samples_all(g, cfa, target, row, x0, x1 - 1);
    }
}

proof fn lemma_window_samples_all(g: RawGeometry, cfa: CfaPattern, target: usize, y0: int, y1: int, x0: int, x1: int)
    requires
        g.components != 1,
        y0 <= y1,
        x0 <= x1,
    ensures
        window_samples(g, cfa, target, y0, y1, x0, x1).len() == (y1 - y0) * (x1 - x0),
    decreases y1 - y0,
{
    if y1 > y0 {
        lemma_window_samples_all(g, cfa, target, y0, y1 - 1, x0, x1);
        lemma_row_samples_all(g, cfa, target, y1 - 1, x0, x1);
        assert((y1 - y0) * (x1 - x0) == (y1 - 1 - y0) * (x1 - x0) + (x1 - x0)) by (nonlinear_arith);
    } else {
        assert((y1 - y0) * (x1 - x0) == 0) by (nonlinear_arith)
            requires
                y1 == y0,
        ;
    }
}

/// For RGB data (not one sample per pixel) every pixel of a block is
/// averaged: the block gives as many samples as it has pixels, and the
/// samples of one block row are that row's pixels, left to right.
pub proof fn lemma_rgb_block_takes_every_pixel(
    g: RawGeometry,
    cfa: CfaPattern,
    target: usize,
    cy: usize,
    cx: usize,
    block: usize,
)
    requires
        g.components != 1,
        cy < g.crop.height,
        cx < g.crop.width,
        cy + block / 2 + 1 <= usize::MAX,
        cx + block / 2 + 1 <= usize::MAX,
    ensures
        ({
            let (y0, y1) = block_bounds(cy, block, g.crop.height);
            let (x0, x1) = block_bounds(cx, block, g.crop.width);
            &&& block_samples(g, cfa, target, cy, cx, block).len() == (y1 - y0) * (x1 - x0)
            &&& forall|i: int| 0 <= i < x1 - x0
                ==> #[trigger] row_samples(g, cfa, target, y0 as int, x0 as int, x1 as int)[i]
                    == channel_index(g, target, y0 as int, x0 + i) as usize
        }),
{
    let (y0, y1) = block_bounds(cy, block, g.crop.height);
    let (x0, x1) = block_bounds(cx, block, g.crop.width);
    lemma_window_samples_all(g, cfa, target, y0 as int, y1 as int, x0 as int, x1 as int);
    lemma_row_samples_all(g, cfa, target, y0 as int, x0 as int, x1 as int);
}

proof fn lemma_below_steps(n: int, step: int, k: int)
    requires
        step > 0,
        0 <= k < steps_below(n, step),
    ensures
        k * step < n,
{
    let q = steps_below(n, step);
    vstd::arithmetic::div_mod::lemma_fundamental_div_mod(n + step - 1, step);
    let r = (n + step - 1) % step;
    assert(0 <= r < step);
    assert(n + step - 1 == step * q + r);
    assert(k * step < n) by (nonlinear_arith)
        requires
            step > 0,
            0 <= k < q,
            n + step - 1 == step * q + r,
            0 <= r,
    ;
}

/// Every pixel metered for auto exposure lies inside the crop, so the dark
/// sensor edges outside it never weigh on the exposure: the `i`-th sample is
/// the pixel at crop row `(i / cols) * step` and column `(i % cols) * step`,
/// both inside the crop.
pub proof fn lemma_metering_inside_crop(g: RawGeometry, root: usize, i: int)
    requires
        0 <= i < metering_samples(g, root).len(),
    ensures
        ({
            let step = metering_step(root) as int;
            let cols = steps_below(g.crop.width as int, step);
            let row = (i / cols) * step;
            let col = (i % cols) * step;
            &&& 0 <= row < g.crop.height
            &&& 0 <= col < g.crop.width
            &&& metering_samples(g, root)[i] == metering_index(g, row, col) as usize
        }),
{
    let step = metering_step(root) as int;
    let rows = steps_below(g.crop.height as int, step);
    let cols = steps_below(g.crop.width as int, step);
    lemma_metering_grid(g, root);
    assert(cols > 0) by {
        vstd::arithmetic::div_mod::lemma_div_pos_is_pos(g.crop.height + step - 1, step);
        if cols <= 0 {
            assert(rows * cols <= 0) by (nonlinear_arith)
                requires
                    cols <= 0,
                    rows >= 0,
            ;
        }
    }
    vstd::arithmetic::div_mod::lemma_fundamental_div_mod(i, cols);
    let k = i / cols;
    let j = i % cols;
    assert(0 <= j < cols);
    assert(0 <= k) by {
        vstd::arithmetic::div_mod::lemma_div_pos_is_pos(i, cols);
    }
    assert(k < rows) by (nonlinear_arith)
        requires
            i == cols * k + j,
            0 <= j,
            i < rows * cols,
            cols > 0,
    ;
    lemma_below_steps(g.crop.height as int, step, k);
    lemma_below_steps(g.crop.width as int, step, j);
    assert(0 <= k * step && 0 <= j * step) by (nonlinear_arith)
        requires
            0 <= k,
            0 <= j,
            step > 0,
    ;
}

proof fn lemma_row_sample_column(g: RawGeometry, cfa: CfaPattern, target: usize, row: int, x0: int, x1: int, i: int) -> (c: int)
    requires
        0 <= i < row_samples(g, cfa, target, row, x0, x1).len(),
    ensures
        x0 <= c < x1,
        contributes(g, cfa, target, row, c),
        row_samples(g, cfa, target, row, x0, x1)[i] == channel_index(g, target, row, c) as usize,
    decreases x1 - x0,
{
    let before = row_samples(g, cfa, target, row, x0, x1 - 1);
    if i < before.len() {
        lemma_row_sample_column(g, cfa, target, row, x0, x1 - 1, i)
    } else {
        x1 - 1
    }
}

proof fn lemma_window_sample_position(
    g: RawGeometry,
    cfa: CfaPattern,
    target: usize,
    y0: int,
    y1: int,
    x0: int,
    x1: int,
    i: int,
) -> (rc: (int, int))
    requires
        0 <= i < window_samples(g, cfa, target, y0, y1, x0, x1).len(),
    ensures
        y0 <= rc.0 < y1,
        x0 <= rc.1 < x1,
        contributes(g, cfa, target, rc.0, rc.1),
        window_samples(g, cfa, target, y0, y1, x0, x1)[i] == channel_index(g, target, rc.0, rc.1) as usize,
    decreases y1 - y0,
{
    let before = window_samples(g, cfa, target, y0, y1 - 1, x0, x1);
    if i < before.len() {
        lemma_window_sample_position(g, cfa, target, y0, y1 - 1, x0, x1, i)
    } else {
        let c = lemma_row_sample_column(g, cfa, target, y1 - 1, x0, x1, i - before.len());
        (y1 - 1, c)
    }
}

/// Every raw sample that the demosaic averages into an output pixel lies
/// inside the crop, within the pixel's block, and has the wanted colour (or
/// comes from RGB data), so the dark sensor edges outside the crop never
/// reach the preview.
pub proof fn lemma_block_samples_inside_crop(
    g: RawGeometry,
    cfa: CfaPattern,
    target: usize,
    cy: usize,
    cx: usize,
    block: usize,
    i: int,
)
    requires
        0 <= i < block_samples(g, cfa, target, cy, cx, block).len(),
    ensures
        exists|r: int, c: int|
            #![trigger contributes(g, cfa, target, r, c)]
            block_bounds(cy, block, g.crop.height).0 <= r < block_bounds(cy, block, g.crop.height).1
                && block_bounds(cx, block, g.crop.width).0 <= c < block_bounds(cx, block, g.crop.width).1
                && 0 <= r < g.crop.height && 0 <= c < g.crop.width
                && contributes(g, cfa, target, r, c)
                && block_samples(g, cfa, target, cy, cx, block)[i] == channel_index(g, target, r, c) as usize,
{
    let (y0, y1) = block_bounds(cy, block, g.crop.height);
    let (x0, x1) = block_bounds(cx, block, g.crop.width);
    let (r, c) = lemma_window_sample_position(g, cfa, target, y0 as int, y1 as int, x0 as int, x1 as int, i);
    assert(contributes(g, cfa, target, r, c));
}

/// The recommended crop wins whenever there is one, whatever the active
/// area; the active area is used only without a recommended crop, and the
/// whole sensor only when there is neither.
pub proof fn lemma_crop_priority(
    crop_area: Option<CropRegion>,
    active_area: Option<CropRegion>,
    full_width: usize,
    full_height: usize,
)
    ensures
        crop_area matches Some(c) ==> chosen_crop(crop_area, active_area, full_width, full_height) == c,
        crop_area is None ==> (active_area matches Some(a) ==> chosen_crop(crop_area, active_area, full_width, full_height) == a),
        crop_area is None && active_area is None ==> chosen_crop(crop_area, active_area, full_width, full_height)
            == (CropRegion { x: 0, y: 0, width: full_width, height: full_height }),
{
}

/// The block of side `block` around `center` spans from `block / 2` before
/// the centre (stopping at 0) to `block / 2` after it (stopping before
/// `limit`), for odd and even blocks alike: it holds `2 * (block / 2) + 1`
/// rows unless clipped.
pub proof fn lemma_block_bounds_exact(center: usize, block: usize, limit: usize)
    ensures
        block_bounds(center, block, limit).0 == if center >= block / 2 { center - block / 2 } else { 0 },
        block_bounds(center, block, limit).1 == if center + block / 2 + 1 <= limit { center + block / 2 + 1 } else { limit as int },
        center >= block / 2 && center + block / 2 + 1 <= limit
            ==> block_bounds(center, block, limit).1 - block_bounds(center, block, limit).0 == 2 * (block / 2) + 1,
{
}

/// The colour filter tile is read row by row: for a pattern made from
/// `colors` with a tile of `width` by `height`, the colour at a sensor
/// position is the entry at row `row % height`, column `col % width` of the
/// row-major tile.
pub proof fn lemma_cfa_row_major(cfa: CfaPattern, width: usize, height: usize, colors: Seq<usize>, row: int, col: int)
    requires
        cfa.tile_width() == width,
        cfa.tile_height() == height,
        cfa.tile() == colors,
        width > 0,
        height > 0,
        row >= 0,
        col >= 0,
    ensures
        cfa.color(row, col) == colors[(row % height as int) * width + col % width as int],
{
}

/// Removing quotes works character by character: it distributes over
/// concatenation, drops a lone quote and keeps any other lone character.
pub proof fn lemma_without_quotes_concat(a: Seq<char>, b: Seq<char>)
    ensures
        without_quotes(a + b) == without_quotes(a) + without_quotes(b),
        without_quotes(seq!['"']) == Seq::<char>::empty(),
        forall|c: char| c != '"' ==> without_quotes(#[trigger] seq![c]) == seq![c],
    decreases b.len(),
{
    assert(seq!['"'].drop_last() =~= Seq::<char>::empty());
    assert forall|c: char| c != '"' implies without_quotes(#[trigger] seq![c]) == seq![c] by {
        let one = seq![c];
        assert(one.len() == 1);
        assert(one.last() == c);
        assert(one.drop_last() =~= Seq::<char>::empty());
        assert(without_quotes(one.drop_last()) == Seq::<char>::empty());
        assert(Seq::<char>::empty().push(c) =~= one);
    }
    if b.len() == 0 {
        assert(a + b =~= a);
        assert(without_quotes(b) =~= Seq::<char>::empty());
        assert(without_quotes(a) + without_quotes(b) =~= without_quotes(a));
    } else {
        lemma_without_quotes_concat(a, b.drop_last());
        assert((a + b).drop_last() =~= a + b.drop_last());
        assert((a + b).last() == b.last());
        if b.last() != '"' {
            assert(without_quotes(a) + without_quotes(b) =~= (without_quotes(a) + without_quotes(b.drop_last())).push(b.last()));
        }
    }
}

/// The ISO speed shown is the photographic sensitivity field whenever there
/// is one, and the ISO speed field only without it.
pub proof fn lemma_iso_prefers_photographic_sensitivity(v: ExifValues)
    ensures
        v.photographic_sensitivity matches Some(s) ==> iso_text(v) == Some(without_quotes(s)),
        v.photographic_sensitivity is None ==> (v.iso_speed matches Some(s) ==> iso_text(v) == Some(without_quotes(s))),
        v.photographic_sensitivity is None && v.iso_speed is None ==> iso_text(v) is None,
{
}

/// The fixed sizes the library works with: a 256 KiB header, a 512 KiB
/// thumbnail at most, 2048-pixel previews unless asked otherwise, metering
/// at least every tenth row and column, and a 23-character URL prefix.
pub proof fn lemma_fixed_sizes(root: usize)
    ensures
        HEADER_READ_LIMIT == 262144,
        THUMBNAIL_MAX_BYTES == 524288,
        DEFAULT_MAX_DIMENSION == 2048,
        metering_step(root) == if root >= 10 { root } else { 10 },
        DATA_URL_PREFIX_LEN == "data:image/jpeg;base64,"@.len(),
{
    reveal_strlit("data:image/jpeg;base64,");
}

/// Metered pixels are addressed row-major from the crop's corner: the crop's
/// first pixel is at `(crop.y * full_width + crop.x) * stride`, the next
/// column is `stride` samples further and the next row `full_width * stride`.
pub proof fn lemma_metering_index_steps(g: RawGeometry, row: int, col: int)
    ensures
        metering_index(g, 0, 0) == (g.crop.y * g.full_width + g.crop.x) * pixel_stride(g),
        metering_index(g, row, col + 1) == metering_index(g, row, col) + pixel_stride(g),
        metering_index(g, row + 1, col) == metering_index(g, row, col) + g.full_width * pixel_stride(g),
        pixel_stride(g) == if g.components == 0 { 1 } else { g.components as int },
{
    let s = pixel_stride(g);
    let w = g.full_width as int;
    let y = g.crop.y as int;
    let x = g.crop.x as int;
    assert(y * w * s + x * s == (y * w + x) * s) by (nonlinear_arith);
    assert((row + 1 + y) * w * s == (row + y) * w * s + w * s) by (nonlinear_arith);
    assert((col + 1 + x) * s == (col + x) * s + s) by (nonlinear_arith);
}

/// Raw samples of a colour are addressed row-major from the crop's corner:
/// one sample per pixel for colour filter data, `components` interleaved
/// samples per pixel otherwise, with the channel as offset.
pub proof fn lemma_channel_index_steps(g: RawGeometry, target: usize, row: int, col: int)
    ensures
        g.components == 1 ==> channel_index(g, target, 0, 0) == g.crop.y * g.full_width + g.crop.x,
        g.components != 1 ==> channel_index(g, target, 0, 0)
            == (g.crop.y * g.full_width + g.crop.x) * g.components + target,
        channel_index(g, target, row, col + 1) == channel_index(g, target, row, col)
            + if g.components == 1 { 1 } else { g.components as int },
        channel_index(g, target, row + 1, col) == channel_index(g, target, row, col)
            + if g.components == 1 { g.full_width as int } else { g.full_width * g.components },
{
    let k = g.components as int;
    let w = g.full_width as int;
    let y = g.crop.y as int;
    let x = g.crop.x as int;
    assert(y * w * k + x * k == (y * w + x) * k) by (nonlinear_arith);
    assert((row + 1 + y) * w * k == (row + y) * w * k + w * k) by (nonlinear_arith);
    assert((col + 1 + x) * k == (col + x) * k + k) by (nonlinear_arith);
    assert((row + 1 + y) * w == (row + y) * w + w) by (nonlinear_arith);
}

} // verus!
