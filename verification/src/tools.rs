//! Using the held tools at the cursor: a seed bag plants a crop on a free
//! tile, a watering can waters the crops on the tile.

use crate::places::{any_marked, has_marked, lists_marked, marked_places};
use vstd::prelude::*;

verus! {

/// A tool in the player's hands, by what it can do.
#[derive(Clone, Copy, Debug, PartialEq, Eq, Structural)]
pub struct HeldTool {
    pub waters: bool,
    pub plants: bool,
}

/// How many of the first `upto` tools plant.
pub open spec fn planters(tools: Seq<HeldTool>, upto: int) -> nat
    decreases upto,
{
    if upto <= 0 {
        0
    } else {
        planters(tools, upto - 1) + if tools[upto - 1].plants { 1nat } else { 0nat }
    }
}

/// Whether any of the tools waters.
pub open spec fn any_waters(tools: Seq<HeldTool>) -> bool {
    exists|i: int| 0 <= i < tools.len() && (#[trigger] tools[i]).waters
}

/// Whether any of the tools plants.
pub open spec fn any_plants(tools: Seq<HeldTool>) -> bool {
    exists|i: int| 0 <= i < tools.len() && (#[trigger] tools[i]).plants
}

/// What using the held tools does on one frame.
#[derive(Debug)]
pub struct ToolUse {
    /// How many crops are planted at the cursor.
    pub planted: usize,
    /// The places of the crops that are watered, in rising order.
    pub watered: Vec<usize>,
}

/// How many crops are planted: one for each planting tool, if the use key went
/// down and no crop stands at the cursor.
pub open spec fn planted_count(
    tools: Seq<HeldTool>,
    use_pressed: bool,
    crops_at_cursor: Seq<bool>,
) -> nat {
    if use_pressed && !any_marked(crops_at_cursor) {
        planters(tools, tools.len() as int)
    } else {
        0
    }
}

/// For each crop in turn, whether it is watered: it stands at the cursor, the
/// use key went down, and a watering tool is held.
pub open spec fn watered_marks(
    tools: Seq<HeldTool>,
    use_pressed: bool,
    crops_at_cursor: Seq<bool>,
) -> Seq<bool> {
    Seq::new(
        crops_at_cursor.len(),
        |i: int| use_pressed && any_waters(tools) && crops_at_cursor[i],
    )
}

/// Whether using the tools looks at where the cursor is: a planting tool
/// always does, a watering tool when the use key went down.
pub open spec fn cursor_read(tools: Seq<HeldTool>, use_pressed: bool) -> bool {
    any_plants(tools) || (use_pressed && any_waters(tools))
}

/// Counts the planting tools and finds out whether any tool waters.
fn survey(tools: &Vec<HeldTool>) -> (found: (usize, bool))
    ensures
        found.0 == planters(tools@, tools.len() as int),
        found.0 <= tools.len(),
        found.1 == any_waters(tools@),
        (found.0 > 0) == any_plants(tools@),
{
    let mut count: usize = 0;
    let mut waters: bool = false;
    let mut i: usize = 0;
    while i < tools.len()
        invariant
            i <= tools.len(),
            count == planters(tools@, i as int),
            count <= i,
            waters == (exists|n: int| 0 <= n < i && (#[trigger] tools[n]).waters),
            (count > 0) == (exists|n: int| 0 <= n < i && (#[trigger] tools[n]).plants),
        decreases tools.len() - i,
    {
        if tools[i].plants {
            count += 1;
        }
        if tools[i].waters {
            waters = true;
        }
        i += 1;
    }
    (count, waters)
}

/// Whether using the tools looks at where the cursor is.
pub fn reads_cursor(tools: &Vec<HeldTool>, use_pressed: bool) -> (read: bool)
    ensures
        read == cursor_read(tools@, use_pressed),
{
    let (count, waters) = survey(tools);
    count > 0 || (use_pressed && waters)
}

/// Uses the held tools. `crops_at_cursor` says of each crop whether it stands
/// on the cursor's tile.
pub fn use_tools(tools: &Vec<HeldTool>, use_pressed: bool, crops_at_cursor: &Vec<bool>) -> (used:
    ToolUse)
    ensures
        used.planted == planted_count(tools@, use_pressed, crops_at_cursor@),
        lists_marked(used.watered@, watered_marks(tools@, use_pressed, crops_at_cursor@)),
{
    let (count, waters) = survey(tools);
    let planted = if use_pressed && !has_marked(crops_at_cursor) {
        count
    } else {
        0
    };
    let watered = if use_pressed && waters {
        assert(crops_at_cursor@ =~= watered_marks(tools@, use_pressed, crops_at_cursor@));
        marked_places(crops_at_cursor)
    } else {
        assert(lists_marked(
            Seq::<usize>::empty(),
            watered_marks(tools@, use_pressed, crops_at_cursor@),
        ));
        Vec::new()
    };
    ToolUse { planted, watered }
}

/// Nothing happens unless the use key went down.
pub proof fn idle_without_key(tools: Seq<HeldTool>, crops_at_cursor: Seq<bool>, watered: Seq<usize>)
    requires
        lists_marked(watered, watered_marks(tools, false, crops_at_cursor)),
    ensures
        planted_count(tools, false, crops_at_cursor) == 0,
        watered.len() == 0,
{
    if watered.len() > 0 {
        assert(watered_marks(tools, false, crops_at_cursor)[watered[0] as int]);
    }
}

/// A tile never takes a second crop: nothing is planted where a crop stands.
pub proof fn taken_tile_stays(
    tools: Seq<HeldTool>,
    use_pressed: bool,
    crops_at_cursor: Seq<bool>,
    crop: int,
)
    requires
        0 <= crop < crops_at_cursor.len(),
        crops_at_cursor[crop],
    ensures
        planted_count(tools, use_pressed, crops_at_cursor) == 0,
{
}

} // verus!
