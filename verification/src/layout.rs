use vstd::prelude::*;
use vstd::arithmetic::div_mod::{lemma_fundamental_div_mod, lemma_mod_division_less_than_divisor};

verus! {

/// A rectangular region of the terminal's character grid, in cells.
#[derive(Clone, Copy, PartialEq, Eq, Structural, Debug)]
pub struct Region {
    pub x: u16,
    pub y: u16,
    pub width: u16,
    pub height: u16,
}

impl Region {
    /// The far edges of the region still fit in the 16-bit cell coordinates.
    pub open spec fn wf(self) -> bool {
        self.x + self.width <= u16::MAX && self.y + self.height <= u16::MAX
    }
}

/// The direction along which a region is split into sub-regions.
#[derive(Clone, Copy, PartialEq, Eq, Structural, Debug)]
pub enum Axis {
    Horizontal,
    Vertical,
}

/// How many cells a segment weighted `weight` percent receives out of `total`
/// cells: the rounded-down share.
pub open spec fn seg_len(total: int, weight: int) -> int {
    total * weight / 100
}

/// The sum of the first `i` weights.
pub open spec fn wsum(weights: Seq<u16>, i: int) -> int
    decreases i,
{
    if i <= 0 {
        0
    } else {
        wsum(weights, i - 1) + weights[i - 1]
    }
}

/// Where the segment for `weights[i]` starts, counted from the start of the
/// split region: the segments before it tile the space with no gap.
pub open spec fn seg_offset(total: int, weights: Seq<u16>, i: int) -> int
    decreases i,
{
    if i <= 0 {
        0
    } else {
        seg_offset(total, weights, i - 1) + seg_len(total, weights[i - 1] as int)
    }
}

/// The `i`-th sub-region a split of `area` along `axis` with `weights` yields.
pub open spec fn split_spec(area: Region, axis: Axis, weights: Seq<u16>, i: int) -> Region {
    match axis {
        Axis::Horizontal => Region {
            x: (area.x + seg_offset(area.width as int, weights, i)) as u16,
            y: area.y,
            width: seg_len(area.width as int, weights[i] as int) as u16,
            height: area.height,
        },
        Axis::Vertical => Region {
            x: area.x,
            y: (area.y + seg_offset(area.height as int, weights, i)) as u16,
            width: area.width,
            height: seg_len(area.height as int, weights[i] as int) as u16,
        },
    }
}

/// A weighted share never exceeds the whole for a weight of at most 100
/// percent, and misses its exact proportional share by less than one cell
/// (times the 100 divisor).
pub proof fn lemma_seg_len_bounds(total: int, weight: int)
    requires
        0 <= total,
        0 <= weight,
    ensures
        0 <= seg_len(total, weight),
        100 * seg_len(total, weight) <= total * weight,
        100 * seg_len(total, weight) > total * weight - 100,
        weight <= 100 ==> seg_len(total, weight) <= total,
{
    assert(total * weight >= 0) by (nonlinear_arith)
        requires
            total >= 0,
            weight >= 0,
    ;
    lemma_fundamental_div_mod(total * weight, 100);
    lemma_mod_division_less_than_divisor(total * weight, 100);
    if weight <= 100 {
        assert(total * weight <= total * 100) by (nonlinear_arith)
            requires
                total >= 0,
                weight <= 100,
        ;
    }
}

/// The segments of a split tile the region in order: every offset is
/// non-negative and, while the weights seen so far sum to at most 100
/// percent, stays within the region.
pub proof fn lemma_seg_offset_bounds(total: int, weights: Seq<u16>, i: int)
    requires
        0 <= total,
        0 <= i <= weights.len(),
    ensures
        0 <= seg_offset(total, weights, i),
        100 * seg_offset(total, weights, i) <= total * wsum(weights, i),
        wsum(weights, i) <= 100 ==> seg_offset(total, weights, i) <= total,
    decreases i,
{
    if i > 0 {
        lemma_seg_offset_bounds(total, weights, i - 1);
        lemma_seg_len_bounds(total, weights[i - 1] as int);
        assert(total * wsum(weights, i - 1) + total * (weights[i - 1] as int) == total * wsum(
            weights,
            i,
        )) by (nonlinear_arith)
            requires
                wsum(weights, i - 1) + weights[i - 1] == wsum(weights, i),
        ;
    }
    if wsum(weights, i) <= 100 {
        assert(total * wsum(weights, i) <= total * 100) by (nonlinear_arith)
            requires
                total >= 0,
                wsum(weights, i) <= 100,
        ;
    }
}

/// Weights sum monotonically: a prefix never outweighs the whole list.
pub proof fn lemma_wsum_monotonic(weights: Seq<u16>, i: int, j: int)
    requires
        0 <= i <= j <= weights.len(),
    ensures
        wsum(weights, i) <= wsum(weights, j),
    decreases j,
{
    if i < j {
        lemma_wsum_monotonic(weights, i, j - 1);
    }
}

/// Splitting composes: every sub-region a split yields is itself a
/// well-formed region, so it can be fed back in as the input of a nested
/// split.
pub proof fn lemma_split_spec_wf(area: Region, axis: Axis, weights: Seq<u16>, i: int)
    requires
        area.wf(),
        0 <= i < weights.len(),
        wsum(weights, weights.len() as int) <= 100,
    ensures
        split_spec(area, axis, weights, i).wf(),
{
    let t = match axis {
        Axis::Horizontal => area.width as int,
        Axis::Vertical => area.height as int,
    };
    lemma_wsum_monotonic(weights, 0, i);
    lemma_wsum_monotonic(weights, i, i + 1);
    lemma_wsum_monotonic(weights, i + 1, weights.len() as int);
    lemma_seg_offset_bounds(t, weights, i);
    lemma_seg_offset_bounds(t, weights, i + 1);
    lemma_seg_len_bounds(t, weights[i] as int);
}

/// Splits `area` along `axis` into one sub-region per weight, in order.
/// Each weight is a percentage of the length of the split axis; the share is
/// rounded down, so the sub-regions tile the region from its start with no
/// gap or overlap and may leave a few unused cells at the far end.
pub fn split_region(area: Region, axis: Axis, weights: &Vec<u16>) -> (regions: Vec<Region>)
    requires
        area.wf(),
        wsum(weights@, weights@.len() as int) <= 100,
    ensures
        regions@.len() == weights@.len(),
        forall|i: int|
            0 <= i < weights@.len() ==> regions@[i] == split_spec(area, axis, weights@, i),
{
    let total: u16 = match axis {
        Axis::Horizontal => area.width,
        Axis::Vertical => area.height,
    };
    let ghost t = total as int;
    let mut regions: Vec<Region> = Vec::new();
    let mut offset: u16 = 0;
    let mut i: usize = 0;
    while i < weights.len()
        invariant
            area.wf(),
            wsum(weights@, weights@.len() as int) <= 100,
            t == (match axis {
                Axis::Horizontal => area.width as int,
                Axis::Vertical => area.height as int,
            }),
            total == t,
            0 <= i <= weights@.len(),
            offset == seg_offset(t, weights@, i as int),
            offset <= total,
            regions@.len() == i,
            forall|j: int| 0 <= j < i ==> regions@[j] == split_spec(area, axis, weights@, j),
        decreases weights@.len() - i,
    {
        let w: u16 = weights[i];
        proof {
            lemma_wsum_monotonic(weights@, (i + 1) as int, weights@.len() as int);
            lemma_seg_offset_bounds(t, weights@, i + 1);
            lemma_seg_len_bounds(t, w as int);
        }
        let len: u16 = ((total as u32) * (w as u32) / 100) as u16;
        assert(len == seg_len(t, w as int));
        let region: Region = match axis {
            Axis::Horizontal => Region {
                x: area.x + offset,
                y: area.y,
                width: len,
                height: area.height,
            },
            Axis::Vertical => Region {
                x: area.x,
                y: area.y + offset,
                width: area.width,
                height: len,
            },
        };
        assert(region == split_spec(area, axis, weights@, i as int));
        regions.push(region);
        offset = offset + len;
        i = i + 1;
    }
    regions
}

/// Root screen split for the forecast screen: title, tabs, body, controls.
pub open spec fn home_weights() -> Seq<u16> {
    seq![9u16, 9u16, 73u16, 9u16]
}

/// Root screen split for the menu screen: title, body, controls thirds.
pub open spec fn menu_weights() -> Seq<u16> {
    seq![33u16, 34u16, 33u16]
}

/// The seven forecast columns; the outer two are slightly wider since seven
/// columns do not divide a width evenly.
pub open spec fn forecast_weights() -> Seq<u16> {
    seq![15u16, 14u16, 14u16, 14u16, 14u16, 14u16, 15u16]
}

/// The eight rows of one forecast column: date header, spacer, then the six
/// data rows.
pub open spec fn slot_weights() -> Seq<u16> {
    seq![14u16, 6u16, 14u16, 14u16, 13u16, 13u16, 13u16, 13u16]
}

/// An even split into five strips.
pub open spec fn fifths() -> Seq<u16> {
    seq![20u16, 20u16, 20u16, 20u16, 20u16]
}

/// The centered region the loading message is drawn in: the middle cell of a
/// five-by-five grid of even strips.
pub open spec fn loading_panel_spec(area: Region) -> Region {
    split_spec(split_spec(area, Axis::Horizontal, fifths(), 2), Axis::Vertical, fifths(), 2)
}

/// Given the area to place it in, returns the rows of the home screen:
/// title, tabs, body and controls, top to bottom.
pub fn get_home_panel(area: Region) -> (rows: Vec<Region>)
    requires
        area.wf(),
    ensures
        rows@.len() == 4,
        forall|i: int| 0 <= i < 4 ==> rows@[i] == split_spec(area, Axis::Vertical, home_weights(), i),
{
    let weights: Vec<u16> = vec![9u16, 9u16, 73u16, 9u16];
    proof {
        assert(weights@ =~= home_weights());
        reveal_with_fuel(wsum, 5);
    }
    split_region(area, Axis::Vertical, &weights)
}

/// Given the area to place it in, returns the rows of the menu screen:
/// title, body and controls thirds, top to bottom.
pub fn get_menu_panel(area: Region) -> (rows: Vec<Region>)
    requires
        area.wf(),
    ensures
        rows@.len() == 3,
        forall|i: int| 0 <= i < 3 ==> rows@[i] == split_spec(area, Axis::Vertical, menu_weights(), i),
{
    let weights: Vec<u16> = vec![33u16, 34u16, 33u16];
    proof {
        assert(weights@ =~= menu_weights());
        reveal_with_fuel(wsum, 4);
    }
    split_region(area, Axis::Vertical, &weights)
}

/// Returns the layout for the seven forecast columns, left to right.
pub fn get_forecast_panel(area: Region) -> (columns: Vec<Region>)
    requires
        area.wf(),
    ensures
        columns@.len() == 7,
        forall|i: int|
            0 <= i < 7 ==> columns@[i] == split_spec(area, Axis::Horizontal, forecast_weights(), i),
{
    let weights: Vec<u16> = vec![15u16, 14u16, 14u16, 14u16, 14u16, 14u16, 15u16];
    proof {
        assert(weights@ =~= forecast_weights());
        reveal_with_fuel(wsum, 8);
    }
    split_region(area, Axis::Horizontal, &weights)
}

/// Returns the layout for one forecast column: the date header, a spacer,
/// and the six data rows, top to bottom.
pub fn get_forecast_slot_layout(area: Region) -> (rows: Vec<Region>)
    requires
        area.wf(),
    ensures
        rows@.len() == 8,
        forall|i: int| 0 <= i < 8 ==> rows@[i] == split_spec(area, Axis::Vertical, slot_weights(), i),
{
    let weights: Vec<u16> = vec![14u16, 6u16, 14u16, 14u16, 13u16, 13u16, 13u16, 13u16];
    proof {
        assert(weights@ =~= slot_weights());
        reveal_with_fuel(wsum, 9);
    }
    split_region(area, Axis::Vertical, &weights)
}

/// Given its anchor area, returns a region in the middle of the screen for
/// the loading message to go in.
pub fn get_loading_panel(area: Region) -> (panel: Region)
    requires
        area.wf(),
    ensures
        panel == loading_panel_spec(area),
{
    let weights: Vec<u16> = vec![20u16, 20u16, 20u16, 20u16, 20u16];
    proof {
        assert(weights@ =~= fifths());
        reveal_with_fuel(wsum, 6);
    }
    let columns: Vec<Region> = split_region(area, Axis::Horizontal, &weights);
    let middle: Region = columns[2];
    proof {
        let t = area.width as int;
        reveal_with_fuel(wsum, 6);
        reveal_with_fuel(seg_offset, 4);
        lemma_seg_offset_bounds(t, fifths(), 2);
        lemma_seg_offset_bounds(t, fifths(), 3);
        lemma_seg_len_bounds(t, 20);
        assert(middle.x + middle.width == area.x + seg_offset(t, fifths(), 3));
    }
    let rows: Vec<Region> = split_region(middle, Axis::Vertical, &weights);
    rows[2]
}

/// The seven forecast columns tile the width of the region they split:
/// each column's width is its rounded-down share, the widths sum back to the
/// full width within one cell per column, and a zero-width region yields
/// seven zero-width columns rather than an error.
pub proof fn lemma_forecast_split_tiles(area: Region)
    requires
        area.wf(),
    ensures
        forall|i: int|
            0 <= i < 7 ==> (#[trigger] split_spec(area, Axis::Horizontal, forecast_weights(), i)).width
                == seg_len(area.width as int, forecast_weights()[i] as int),
        seg_offset(area.width as int, forecast_weights(), 7) <= area.width,
        seg_offset(area.width as int, forecast_weights(), 7) >= area.width - 7,
        area.width == 0 ==> forall|i: int|
            0 <= i < 7 ==> (#[trigger] split_spec(area, Axis::Horizontal, forecast_weights(), i)).width
                == 0,
{
    let t = area.width as int;
    let ws = forecast_weights();
    reveal_with_fuel(wsum, 8);
    reveal_with_fuel(seg_offset, 8);
    lemma_seg_len_bounds(t, 15);
    lemma_seg_len_bounds(t, 14);
    assert forall|i: int| 0 <= i < 7 implies (#[trigger] split_spec(
        area,
        Axis::Horizontal,
        ws,
        i,
    )).width == seg_len(t, ws[i] as int) by {
        lemma_seg_len_bounds(t, ws[i] as int);
    }
    assert(100 * seg_offset(t, ws, 7) > 100 * t - 700);
    assert(seg_offset(t, ws, 7) >= t - 7);
    lemma_seg_offset_bounds(t, ws, 7);
}

} // verus!
