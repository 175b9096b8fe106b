use vstd::prelude::*;
use crate::layout::{
    Axis, Region, get_forecast_panel, get_forecast_slot_layout, get_home_panel,
    get_loading_panel, get_menu_panel, home_weights, forecast_weights, lemma_split_spec_wf,
    loading_panel_spec, menu_weights, slot_weights, split_spec, wsum,
};
use crate::render::{
    MenuList, TextBlock, forecast_blocks_ok, get_controls, get_forecast_paragraphs,
    get_loading_message, get_menu_list, get_tabs, get_title, menu_list_ok, position_of_index,
    ForecastPosition,
};
use crate::weather::WeeklyForecast;

verus! {

/// One block placed in the region of the frame it is drawn in.
#[derive(Debug)]
pub struct Placement {
    pub region: Region,
    pub block: TextBlock,
}

/// The region day `i`'s row `j` lands in: slot `j` of column `i` of the body
/// row of the home screen split.
pub open spec fn forecast_cell(area: Region, i: int, j: int) -> Region {
    split_spec(
        split_spec(
            split_spec(area, Axis::Vertical, home_weights(), 2),
            Axis::Horizontal,
            forecast_weights(),
            i,
        ),
        Axis::Vertical,
        slot_weights(),
        j,
    )
}

/// Builds one complete frame of the forecast screen: the title, tabs and
/// controls chrome in their home rows, then the eight rows of each of the
/// seven day columns, in day order, each block paired with the region it is
/// drawn in.
#[verifier::rlimit(100)]
pub fn build_forecast_frame(week: &WeeklyForecast, area: Region) -> (frame: Vec<Placement>)
    requires
        week.wf(),
        area.wf(),
    ensures
        frame@.len() == 59,
        frame@[0].region == split_spec(area, Axis::Vertical, home_weights(), 0),
        frame@[0].block.text@ == "weatherman 🌩️"@,
        frame@[1].region == split_spec(area, Axis::Vertical, home_weights(), 1),
        frame@[1].block.text@ == "7 day forecast"@,
        frame@[2].region == split_spec(area, Axis::Vertical, home_weights(), 3),
        frame@[2].block.text@ == "Q: quit | M: menu "@,
        forall|i: int, j: int|
            0 <= i < 7 && 0 <= j < 8 ==> (#[trigger] frame@[3 + 8 * i + j]).region
                == forecast_cell(area, i, j),
        forall|i: int|
            #![trigger week.days@[i]]
            0 <= i < 7 ==> forecast_blocks_ok(
                week.days@[i],
                position_of_index(i),
                Seq::new(8, |j: int| frame@[3 + 8 * i + j].block),
            ),
{
    let rows = get_home_panel(area);
    let mut frame: Vec<Placement> = Vec::new();
    frame.push(Placement { region: rows[0], block: get_title() });
    frame.push(Placement { region: rows[1], block: get_tabs() });
    frame.push(Placement { region: rows[3], block: get_controls() });
    let body = rows[2];
    proof {
        reveal_with_fuel(wsum, 9);
        lemma_split_spec_wf(area, Axis::Vertical, home_weights(), 2);
    }
    let columns = get_forecast_panel(body);
    let mut i: usize = 0;
    while i < 7
        invariant
            week.wf(),
            area.wf(),
            body == split_spec(area, Axis::Vertical, home_weights(), 2),
            body.wf(),
            columns@.len() == 7,
            forall|k: int|
                0 <= k < 7 ==> columns@[k] == split_spec(
                    body,
                    Axis::Horizontal,
                    forecast_weights(),
                    k,
                ),
            0 <= i <= 7,
            frame@.len() == 3 + 8 * i,
            frame@[0].region == split_spec(area, Axis::Vertical, home_weights(), 0),
            frame@[0].block.text@ == "weatherman 🌩️"@,
            frame@[1].region == split_spec(area, Axis::Vertical, home_weights(), 1),
            frame@[1].block.text@ == "7 day forecast"@,
            frame@[2].region == split_spec(area, Axis::Vertical, home_weights(), 3),
            frame@[2].block.text@ == "Q: quit | M: menu "@,
            forall|k: int, j: int|
                0 <= k < i && 0 <= j < 8 ==> (#[trigger] frame@[3 + 8 * k + j]).region
                    == forecast_cell(area, k, j),
            forall|k: int|
                #![trigger week.days@[k]]
                0 <= k < i ==> forecast_blocks_ok(
                    week.days@[k],
                    position_of_index(k),
                    Seq::new(8, |j: int| frame@[3 + 8 * k + j].block),
                ),
        decreases 7 - i,
    {
        proof {
            reveal_with_fuel(wsum, 9);
            lemma_split_spec_wf(body, Axis::Horizontal, forecast_weights(), i as int);
        }
        let slots = get_forecast_slot_layout(columns[i]);
        let pos = ForecastPosition::from_index(&i);
        let blocks = get_forecast_paragraphs(&week.days[i], pos);
        let ghost frame_before = frame@;
        let mut j: usize = 0;
        while j < 8
            invariant
                0 <= j <= 8,
                blocks@.len() == 8,
                slots@.len() == 8,
                frame@.len() == frame_before.len() + j,
                frame_before.len() == 3 + 8 * i,
                forall|l: int| 0 <= l < frame_before.len() ==> frame@[l] == frame_before[l],
                forall|l: int|
                    0 <= l < j ==> (#[trigger] frame@[frame_before.len() + l]).region == slots@[l]
                        && frame@[frame_before.len() + l].block == blocks@[l],
            decreases 8 - j,
        {
            frame.push(Placement { region: slots[j], block: blocks[j].clone() });
            j = j + 1;
        }
        proof {
            assert forall|l: int| 0 <= l < 8 implies (#[trigger] frame@[3 + 8 * (i as int)
                + l]).region == forecast_cell(area, i as int, l) by {
                assert(frame@[frame_before.len() + l].region == slots@[l]);
            }
            assert(Seq::new(8, |l: int| frame@[3 + 8 * (i as int) + l].block) =~= blocks@);
            assert(forecast_blocks_ok(
                week.days@[i as int],
                position_of_index(i as int),
                Seq::new(8, |l: int| frame@[3 + 8 * (i as int) + l].block),
            ));
        }
        i = i + 1;
        proof {
            assert forall|k: int, j: int|
                0 <= k < i && 0 <= j < 8 implies (#[trigger] frame@[3 + 8 * k + j]).region
                == forecast_cell(area, k, j) by {
                if k < i - 1 {
                    assert(3 + 8 * k + j < frame_before.len());
                    assert(frame@[3 + 8 * k + j] == frame_before[3 + 8 * k + j]);
                    assert(frame_before[3 + 8 * k + j].region == forecast_cell(area, k, j));
                } else {
                    assert(3 + 8 * k + j == frame_before.len() + j);
                    assert(frame@[frame_before.len() + j].region == slots@[j]);
                }
            }
            assert forall|k: int|
                #![trigger week.days@[k]]
                0 <= k < i implies forecast_blocks_ok(
                week.days@[k],
                position_of_index(k),
                Seq::new(8, |j2: int| frame@[3 + 8 * k + j2].block),
            ) by {
                if k < i - 1 {
                    assert(Seq::new(8, |j2: int| frame@[3 + 8 * k + j2].block) =~= Seq::new(
                        8,
                        |j2: int| frame_before[3 + 8 * k + j2].block,
                    ));
                }
            }
        }
    }
    frame
}

/// Builds the loading frame: the fixed loading message, centered.
pub fn build_loading_frame(area: Region) -> (p: Placement)
    requires
        area.wf(),
    ensures
        p.region == loading_panel_spec(area),
        p.block.text@ == "Loading..."@,
{
    Placement { region: get_loading_panel(area), block: get_loading_message() }
}

/// Builds the menu frame: the menu list, with the entry the cursor selects
/// highlighted, and the body row of the menu screen split it is drawn in.
pub fn build_menu_frame(cursor: Option<usize>, area: Region) -> (r: (MenuList, Region))
    requires
        area.wf(),
    ensures
        menu_list_ok(cursor, r.0),
        r.1 == split_spec(area, Axis::Vertical, menu_weights(), 1),
{
    let rows = get_menu_panel(area);
    (get_menu_list(cursor), rows[1])
}

} // verus!
