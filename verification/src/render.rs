use vstd::prelude::*;
use crate::text::{display_of_iso, concat3, reformat_date};
use crate::weather::DailyWeather;

verus! {

/// Where a forecast column stands in the seven-slot row; decides which
/// vertical borders it draws, so that neighbours share an edge.
#[derive(Clone, Copy, PartialEq, Eq, Structural, Debug)]
pub enum ForecastPosition {
    Left,
    Middle,
    Right,
}

/// The position of the forecast column at `index`: the three leftmost
/// columns are left columns, the centre one the middle, the rest right
/// columns.
pub open spec fn position_of_index(index: int) -> ForecastPosition {
    if index <= 2 {
        ForecastPosition::Left
    } else if index == 3 {
        ForecastPosition::Middle
    } else {
        ForecastPosition::Right
    }
}

impl ForecastPosition {
    /// The position of the forecast column at `index`: the three leftmost
    /// columns are left columns, the centre one the middle, the rest right
    /// columns. Only the seven slots of the forecast row are valid indices.
    pub fn from_index(index: &usize) -> (pos: ForecastPosition)
        requires
            *index <= 6,
        ensures
            pos == position_of_index(*index as int),
            *index <= 2 ==> pos == ForecastPosition::Left,
            *index == 3 ==> pos == ForecastPosition::Middle,
            *index >= 4 ==> pos == ForecastPosition::Right,
    {
        if *index <= 2 {
            ForecastPosition::Left
        } else if *index == 3 {
            ForecastPosition::Middle
        } else {
            ForecastPosition::Right
        }
    }
}

/// Which edges of a block get a drawn border.
#[derive(Clone, Copy, PartialEq, Eq, Structural, Debug)]
pub struct BorderSpec {
    pub top: bool,
    pub bottom: bool,
    pub left: bool,
    pub right: bool,
}

/// A cosmetic color hint for a block; not behaviorally significant.
#[derive(Clone, Copy, PartialEq, Eq, Structural, Debug)]
pub enum TextColor {
    Plain,
    White,
    LightBlue,
    LightRed,
    Cyan,
    Yellow,
    DarkGray,
    Blue,
    Magenta,
}

/// One styled text block, ready to be placed into a layout region. Blocks
/// are rebuilt every frame; none retains identity across draws.
#[derive(Debug)]
pub struct TextBlock {
    pub text: String,
    pub borders: BorderSpec,
    pub color: TextColor,
    /// Weight hint: drawn bold and underlined.
    pub emphasized: bool,
}

impl Clone for TextBlock {
    fn clone(&self) -> (res: TextBlock)
        ensures
            res == *self,
    {
        TextBlock {
            text: self.text.clone(),
            borders: self.borders,
            color: self.color,
            emphasized: self.emphasized,
        }
    }
}

/// A border on every edge.
pub open spec fn all_borders() -> BorderSpec {
    BorderSpec { top: true, bottom: true, left: true, right: true }
}

/// No border on any edge.
pub open spec fn no_borders() -> BorderSpec {
    BorderSpec { top: false, bottom: false, left: false, right: false }
}

/// The vertical borders a forecast column at `pos` draws: a left column
/// draws only its left edge, a right column only its right edge, and the
/// middle column both, so each shared edge is drawn exactly once.
pub open spec fn side_borders(pos: ForecastPosition) -> BorderSpec {
    match pos {
        ForecastPosition::Left => BorderSpec {
            top: false,
            bottom: false,
            left: true,
            right: false,
        },
        ForecastPosition::Middle => BorderSpec {
            top: false,
            bottom: false,
            left: true,
            right: true,
        },
        ForecastPosition::Right => BorderSpec {
            top: false,
            bottom: false,
            left: false,
            right: true,
        },
    }
}

/// Returns the title block.
pub fn get_title() -> (block: TextBlock)
    ensures
        block.text@ == "weatherman 🌩️"@,
        block.borders == all_borders(),
        block.color == TextColor::LightBlue,
        !block.emphasized,
{
    TextBlock {
        text: String::from_str("weatherman 🌩️"),
        borders: BorderSpec { top: true, bottom: true, left: true, right: true },
        color: TextColor::LightBlue,
        emphasized: false,
    }
}

/// Returns the tabs block.
pub fn get_tabs() -> (block: TextBlock)
    ensures
        block.text@ == "7 day forecast"@,
        block.borders == all_borders(),
        block.color == TextColor::White,
        !block.emphasized,
{
    TextBlock {
        text: String::from_str("7 day forecast"),
        borders: BorderSpec { top: true, bottom: true, left: true, right: true },
        color: TextColor::White,
        emphasized: false,
    }
}

/// Returns the block stating the key bindings.
pub fn get_controls() -> (block: TextBlock)
    ensures
        block.text@ == "Q: quit | M: menu "@,
        block.borders == all_borders(),
        block.color == TextColor::White,
        !block.emphasized,
{
    TextBlock {
        text: String::from_str("Q: quit | M: menu "),
        borders: BorderSpec { top: true, bottom: true, left: true, right: true },
        color: TextColor::White,
        emphasized: false,
    }
}

/// Returns the block shown while the provider call is outstanding.
pub fn get_loading_message() -> (block: TextBlock)
    ensures
        block.text@ == "Loading..."@,
        block.borders == all_borders(),
        block.color == TextColor::Plain,
        !block.emphasized,
{
    TextBlock {
        text: String::from_str("Loading..."),
        borders: BorderSpec { top: true, bottom: true, left: true, right: true },
        color: TextColor::Plain,
        emphasized: false,
    }
}

/// The menu list: its labelled entries and the highlighted one.
#[derive(Clone, Debug)]
pub struct MenuList {
    pub entries: Vec<String>,
    pub selected: Option<usize>,
}

/// The menu list's labelled entries, in menu order, with the entry the
/// cursor selects highlighted.
pub open spec fn menu_list_ok(cursor: Option<usize>, menu: MenuList) -> bool {
    &&& menu.entries@.len() == 3
    &&& menu.entries@[0]@ == "forecast"@
    &&& menu.entries@[1]@ == "hourly"@
    &&& menu.entries@[2]@ == "options"@
    &&& menu.selected == cursor
}

/// Returns the menu list, with the entry the cursor selects highlighted.
pub fn get_menu_list(cursor: Option<usize>) -> (menu: MenuList)
    ensures
        menu_list_ok(cursor, menu),
{
    let mut entries: Vec<String> = Vec::new();
    entries.push(String::from_str("forecast"));
    entries.push(String::from_str("hourly"));
    entries.push(String::from_str("options"));
    MenuList { entries, selected: cursor }
}

/// The eight blocks of one forecast column, in row order: the date header,
/// a spacer, then high, low, sunrise, sunset, precipitation and wind. The
/// data rows draw the column's shared vertical borders; the first also
/// closes the column at the top, the last at the bottom.
pub open spec fn forecast_blocks_ok(
    day: DailyWeather,
    pos: ForecastPosition,
    blocks: Seq<TextBlock>,
) -> bool {
    &&& blocks.len() == 8
    &&& blocks[0].text@ == display_of_iso(day.date@)
    &&& blocks[0].borders == all_borders()
    &&& blocks[0].color == TextColor::Magenta
    &&& blocks[0].emphasized
    &&& blocks[1].text@ == Seq::<char>::empty()
    &&& blocks[1].borders == no_borders()
    &&& blocks[1].color == TextColor::Plain
    &&& forall|i: int| 1 <= i < 8 ==> !(#[trigger] blocks[i]).emphasized
    &&& blocks[2].text@ == "high: "@ + day.max_temp@ + "°F"@
    &&& blocks[2].borders == (BorderSpec { top: true, ..side_borders(pos) })
    &&& blocks[2].color == TextColor::LightRed
    &&& blocks[3].text@ == "low: "@ + day.min_temp@ + "°F"@
    &&& blocks[3].borders == side_borders(pos)
    &&& blocks[3].color == TextColor::Cyan
    &&& blocks[4].text@ == "sunrise: "@ + day.sunrise@
    &&& blocks[4].borders == side_borders(pos)
    &&& blocks[4].color == TextColor::Yellow
    &&& blocks[5].text@ == "sunset: "@ + day.sunset@
    &&& blocks[5].borders == side_borders(pos)
    &&& blocks[5].color == TextColor::DarkGray
    &&& blocks[6].text@ == "precip: "@ + day.precipitation@ + "in"@
    &&& blocks[6].borders == side_borders(pos)
    &&& blocks[6].color == TextColor::Blue
    &&& blocks[7].text@ == "winds: "@ + day.max_windspeed@ + "mph"@
    &&& blocks[7].borders == (BorderSpec { bottom: true, ..side_borders(pos) })
    &&& blocks[7].color == TextColor::White
}

/// Given the forecast day and its position relative to the other six,
/// returns the column's eight blocks in row order.
pub fn get_forecast_paragraphs(day: &DailyWeather, pos: ForecastPosition) -> (blocks: Vec<
    TextBlock,
>)
    requires
        day.wf(),
    ensures
        forecast_blocks_ok(*day, pos, blocks@),
{
    let side: BorderSpec = match pos {
        ForecastPosition::Left => BorderSpec {
            top: false,
            bottom: false,
            left: true,
            right: false,
        },
        ForecastPosition::Middle => BorderSpec {
            top: false,
            bottom: false,
            left: true,
            right: true,
        },
        ForecastPosition::Right => BorderSpec {
            top: false,
            bottom: false,
            left: false,
            right: true,
        },
    };
    let mut blocks: Vec<TextBlock> = Vec::new();
    blocks.push(
        TextBlock {
            text: reformat_date(day.date.as_str()),
            borders: BorderSpec { top: true, bottom: true, left: true, right: true },
            color: TextColor::Magenta,
            emphasized: true,
        },
    );
    blocks.push(
        TextBlock {
            text: String::new(),
            borders: BorderSpec { top: false, bottom: false, left: false, right: false },
            color: TextColor::Plain,
            emphasized: false,
        },
    );
    blocks.push(
        TextBlock {
            text: concat3("high: ", day.max_temp.as_str(), "°F"),
            borders: BorderSpec { top: true, ..side },
            color: TextColor::LightRed,
            emphasized: false,
        },
    );
    blocks.push(
        TextBlock {
            text: concat3("low: ", day.min_temp.as_str(), "°F"),
            borders: side,
            color: TextColor::Cyan,
            emphasized: false,
        },
    );
    blocks.push(
        TextBlock {
            text: concat3("sunrise: ", day.sunrise.as_str(), ""),
            borders: side,
            color: TextColor::Yellow,
            emphasized: false,
        },
    );
    blocks.push(
        TextBlock {
            text: concat3("sunset: ", day.sunset.as_str(), ""),
            borders: side,
            color: TextColor::DarkGray,
            emphasized: false,
        },
    );
    blocks.push(
        TextBlock {
            text: concat3("precip: ", day.precipitation.as_str(), "in"),
            borders: side,
            color: TextColor::Blue,
            emphasized: false,
        },
    );
    blocks.push(
        TextBlock {
            text: concat3("winds: ", day.max_windspeed.as_str(), "mph"),
            borders: BorderSpec { bottom: true, ..side },
            color: TextColor::White,
            emphasized: false,
        },
    );
    proof {
        reveal_strlit("");
        assert(blocks@[4].text@ =~= "sunrise: "@ + day.sunrise@);
        assert(blocks@[5].text@ =~= "sunset: "@ + day.sunset@);
    }
    blocks
}

} // verus!
