//! What the render test card promises, tap by tap.

use vstd::prelude::*;
use vstd::string::*;

use crate::action::Action;
use crate::render_test_card::nav::Section;
use crate::render_test_card::screen::{pressed, CardHits, Region};
use crate::render_test_card::sections::colour::{full_colours, hex_digit, hex_text};
use crate::render_test_card::sections::geometry::{
    geometry_text, padding_of, stride_pixels, SurfaceFacts,
};
use crate::render_test_card::sections::ghosting::GhostingState;
use crate::text::decimal;

verus! {

/// A tap on another section's tab turns to that very section and claims the
/// whole glass, and changes nothing else; on the tab of the section that is
/// showing it does what a tap beside the tabs would.
pub proof fn law_tabs_turn_to_their_section(
    section: Section,
    patch: GhostingState,
    grid: Seq<bool>,
    hits: CardHits,
    most: int,
)
    requires
        hits.tap && !hits.home,
    ensures
        ({
            let step = pressed(section, patch, grid, hits, most);
            &&& hits.tab is Some && hits.tab->0 != section ==> step.section == hits.tab->0
                && step.damage is None && step.action == Action::Redraw && step.ghosting == patch
                && step.grid == grid
            &&& hits.tab is None || hits.tab->0 == section ==> step.section == section
            &&& hits.tab == Some(section) ==> step == pressed(
                section,
                patch,
                grid,
                CardHits { tab: None, ..hits },
                most,
            )
        }),
{
}

/// The patch is cycled exactly by a tap on its button while its section shows:
/// the count goes up by one, the fill changes to the other, and the patch and
/// the counter are claimed; nothing else ever touches it.
pub proof fn law_only_the_button_cycles_the_patch(
    section: Section,
    patch: GhostingState,
    grid: Seq<bool>,
    hits: CardHits,
    most: int,
)
    requires
        patch.cycles < u32::MAX,
        most >= 2,
    ensures
        ({
            let step = pressed(section, patch, grid, hits, most);
            let cycled = hits.tap && !hits.home && (hits.tab is None || hits.tab->0 == section)
                && section == Section::Ghosting && hits.cycle;
            &&& cycled ==> step.ghosting.cycles == patch.cycles + 1 && step.ghosting.on != patch.on
                && step.damage is Some && step.damage->0.len() == 2 && step.damage->0[0]
                == Region::Patch && step.damage->0[1] == Region::Counter && step.action
                == Action::Redraw && step.grid == grid
            &&& !cycled ==> step.ghosting == patch
        }),
{
}

/// A cell of the grid changes exactly by a tap on it while its section shows: it
/// alone changes, to the other of filled and empty, and it alone is claimed.
pub proof fn law_a_tap_toggles_one_cell(
    section: Section,
    patch: GhostingState,
    grid: Seq<bool>,
    hits: CardHits,
    most: int,
    k: int,
)
    requires
        0 <= k < grid.len(),
        hits.cell is Some ==> hits.cell->0 < grid.len(),
        most >= 1,
    ensures
        ({
            let step = pressed(section, patch, grid, hits, most);
            let tapped = hits.tap && !hits.home && (hits.tab is None || hits.tab->0 == section)
                && section == Section::Damage && hits.cell is Some;
            &&& step.grid.len() == grid.len()
            &&& tapped && hits.cell->0 == k ==> step.grid[k] == !grid[k]
            &&& !(tapped && hits.cell->0 == k) ==> step.grid[k] == grid[k]
            &&& tapped ==> step.damage is Some && step.damage->0.len() == 1 && step.damage->0[0]
                == Region::Cell(hits.cell->0) && step.action == Action::Redraw
        }),
{
}

/// A press that changes nothing claims nothing and asks for nothing, and one
/// that is not a tap changes nothing.
pub proof fn law_idle_presses_claim_nothing(
    section: Section,
    patch: GhostingState,
    grid: Seq<bool>,
    hits: CardHits,
    most: int,
)
    ensures
        ({
            let step = pressed(section, patch, grid, hits, most);
            &&& !hits.tap || (!hits.home && hits.tab is None && !hits.cycle && hits.cell is None)
                ==> step.section == section && step.ghosting == patch && step.grid == grid
                && step.action == Action::Nothing && step.damage is Some && step.damage->0.len()
                == 0
        }),
{
}

/// The sections stand in the order greyscale, colour, waveform, ghosting, text,
/// damage and geometry.
pub proof fn law_sections_stand_in_order()
    ensures
        Section::Greyscale.place() == 0,
        Section::Colour.place() == 1,
        Section::Waveform.place() == 2,
        Section::Ghosting.place() == 3,
        Section::Text.place() == 4,
        Section::Damage.place() == 5,
        Section::Geometry.place() == 6,
{
}

/// A row is made of its pixels and the padding after them, where it is long
/// enough for its pixels; and as many whole pixels as fit are counted into it.
pub proof fn law_rows_are_pixels_and_padding(surface: SurfaceFacts)
    ensures
        padding_of(surface) >= 0,
        surface.stride_bytes >= surface.width * surface.bytes_per_pixel ==> surface.width
            * surface.bytes_per_pixel + padding_of(surface) == surface.stride_bytes,
        surface.stride_bytes <= surface.width * surface.bytes_per_pixel ==> padding_of(surface)
            == 0,
        surface.bytes_per_pixel > 0 ==> stride_pixels(surface) * surface.bytes_per_pixel
            <= surface.stride_bytes < (stride_pixels(surface) + 1) * surface.bytes_per_pixel,
        surface.bytes_per_pixel == 0 ==> stride_pixels(surface) == surface.stride_bytes,
{
    let (stride, pixel) = (surface.stride_bytes as int, surface.bytes_per_pixel as int);
    if pixel > 0 {
        assert(stride / pixel * pixel <= stride < (stride / pixel + 1) * pixel) by (nonlinear_arith)
            requires
                pixel > 0,
        ;
    }
}

/// What a hexadecimal digit counts.
pub open spec fn hex_value(c: char) -> int {
    if '0' <= c && c <= '9' {
        c as int - '0' as int
    } else {
        c as int - 'A' as int + 10
    }
}

/// Six digits write the three channels, two each, the larger part first.
pub proof fn law_hex_writes_the_channels(r: u8, g: u8, b: u8)
    ensures
        hex_text(r, g, b).len() == 6,
        forall|k: int|
            0 <= k < 6 ==> {
                let c = #[trigger] hex_text(r, g, b)[k];
                ('0' <= c && c <= '9') || ('A' <= c && c <= 'F')
            },
        16 * hex_value(hex_text(r, g, b)[0]) + hex_value(hex_text(r, g, b)[1]) == r,
        16 * hex_value(hex_text(r, g, b)[2]) + hex_value(hex_text(r, g, b)[3]) == g,
        16 * hex_value(hex_text(r, g, b)[4]) + hex_value(hex_text(r, g, b)[5]) == b,
{
    lemma_hex_digit(r / 16);
    lemma_hex_digit(r % 16);
    lemma_hex_digit(g / 16);
    lemma_hex_digit(g % 16);
    lemma_hex_digit(b / 16);
    lemma_hex_digit(b % 16);
}

proof fn lemma_hex_digit(n: u8)
    requires
        n < 16,
    ensures
        hex_value(hex_digit(n)) == n,
        ('0' <= hex_digit(n) && hex_digit(n) <= '9') || ('A' <= hex_digit(n) && hex_digit(n)
            <= 'F'),
{
}

/// Each full colour lights its channels all the way and the others not at all:
/// first the three of one channel, then the three of two.
pub proof fn law_full_colours_light_one_channel_or_two(k: int)
    requires
        0 <= k < 6,
    ensures
        full_colours().len() == 6,
        ({
            let (red, green, blue) = full_colours()[k].1;
            let name = full_colours()[k].0;
            &&& red == (if name == "RED"@ || name == "YELLOW"@ || name == "MAGENTA"@ {
                0xFFu8
            } else {
                0u8
            })
            &&& green == (if name == "GREEN"@ || name == "YELLOW"@ || name == "CYAN"@ {
                0xFFu8
            } else {
                0u8
            })
            &&& blue == (if name == "BLUE"@ || name == "CYAN"@ || name == "MAGENTA"@ {
                0xFFu8
            } else {
                0u8
            })
        }),
        full_colours()[0].0 == "RED"@,
        full_colours()[1].0 == "GREEN"@,
        full_colours()[2].0 == "BLUE"@,
        full_colours()[3].0 == "YELLOW"@,
        full_colours()[4].0 == "CYAN"@,
        full_colours()[5].0 == "MAGENTA"@,
{
    reveal_strlit("RED");
    reveal_strlit("GREEN");
    reveal_strlit("BLUE");
    reveal_strlit("YELLOW");
    reveal_strlit("CYAN");
    reveal_strlit("MAGENTA");
    assert("RED"@[0] == 'R' && "GREEN"@[0] == 'G' && "BLUE"@[0] == 'B' && "YELLOW"@[0] == 'Y'
        && "CYAN"@[0] == 'C' && "MAGENTA"@[0] == 'M');
}

/// The geometry section says the extent, the format and the stride as they are,
/// and how much padding there is beyond a packed row.
pub proof fn law_the_geometry_lines_say_what_is(surface: SurfaceFacts)
    ensures
        geometry_text(surface).len() == 4,
        geometry_text(surface)[0] == "EXTENT    "@ + decimal(surface.width as nat) + " x "@
            + decimal(surface.height as nat) + " px"@,
        geometry_text(surface)[1] == "FORMAT    "@ + surface.format@,
        surface.bytes_per_pixel > 0 ==> geometry_text(surface)[2] == "STRIDE    "@ + decimal(
            surface.stride_bytes as nat,
        ) + " bytes/row ("@ + decimal(
            (surface.stride_bytes as int / surface.bytes_per_pixel as int) as nat,
        ) + " px/row)"@,
        surface.stride_bytes <= surface.width * surface.bytes_per_pixel ==> geometry_text(
            surface,
        )[3] == "PACKED?   yes, stride equals width times bytes-per-pixel"@,
        surface.stride_bytes > surface.width * surface.bytes_per_pixel ==> geometry_text(
            surface,
        )[3] == "PACKED?   no, "@ + decimal(
            (surface.stride_bytes - surface.width * surface.bytes_per_pixel) as nat,
        ) + " byte(s)/row of padding beyond a tightly packed row"@,
{
}

} // verus!
