//! The surface geometry this session actually received.

use vstd::prelude::*;
use vstd::string::*;

use crate::text::{decimal, push_decimal, push_text, texts};

verus! {

/// What a session was told of its surface.
#[derive(Debug, PartialEq, Eq)]
pub struct SurfaceFacts {
    /// Pixels across.
    pub width: u32,
    /// Pixels down.
    pub height: u32,
    /// Bytes from one row to the next.
    pub stride_bytes: u32,
    /// Bytes for one pixel.
    pub bytes_per_pixel: u32,
    /// The pixel format's name.
    pub format: String,
}

/// Bytes of a row beyond a tightly packed one.
pub open spec fn padding_of(surface: SurfaceFacts) -> int {
    let packed = surface.width * surface.bytes_per_pixel;
    if surface.stride_bytes > packed {
        surface.stride_bytes - packed
    } else {
        0
    }
}

/// Whole pixels from one row to the next.
pub open spec fn stride_pixels(surface: SurfaceFacts) -> int {
    surface.stride_bytes as int / (if surface.bytes_per_pixel == 0 {
        1int
    } else {
        surface.bytes_per_pixel as int
    })
}

/// What the section says of a surface.
pub open spec fn geometry_text(surface: SurfaceFacts) -> Seq<Seq<char>> {
    seq![
        "EXTENT    "@ + decimal(surface.width as nat) + " x "@ + decimal(surface.height as nat)
            + " px"@,
        "FORMAT    "@ + surface.format@,
        "STRIDE    "@ + decimal(surface.stride_bytes as nat) + " bytes/row ("@ + decimal(
            stride_pixels(surface) as nat,
        ) + " px/row)"@,
        if padding_of(surface) == 0 {
            "PACKED?   yes, stride equals width times bytes-per-pixel"@
        } else {
            "PACKED?   no, "@ + decimal(padding_of(surface) as nat)
                + " byte(s)/row of padding beyond a tightly packed row"@
        },
    ]
}

/// Bytes of a row beyond a tightly packed one, as the panel reports it rather
/// than as a packed row would have it.
pub fn padding(surface: &SurfaceFacts) -> (bytes: u32)
    requires
        surface.width * surface.bytes_per_pixel <= u32::MAX,
    ensures
        bytes == padding_of(*surface),
{
    let packed: u32 = surface.width * surface.bytes_per_pixel;
    surface.stride_bytes.saturating_sub(packed)
}

/// The section's four lines.
pub fn geometry_lines(surface: &SurfaceFacts) -> (lines: Vec<String>)
    requires
        surface.width * surface.bytes_per_pixel <= u32::MAX,
    ensures
        texts(lines@) == geometry_text(*surface),
{
    let padding: u32 = padding(surface);
    let pixel: u32 = if surface.bytes_per_pixel == 0 {
        1
    } else {
        surface.bytes_per_pixel
    };
    let stride: u32 = surface.stride_bytes / pixel;

    let mut extent = "EXTENT    ".to_owned();
    push_decimal(&mut extent, surface.width as u64);
    push_text(&mut extent, " x ");
    push_decimal(&mut extent, surface.height as u64);
    push_text(&mut extent, " px");

    let mut format = "FORMAT    ".to_owned();
    push_text(&mut format, surface.format.as_str());

    let mut row = "STRIDE    ".to_owned();
    push_decimal(&mut row, surface.stride_bytes as u64);
    push_text(&mut row, " bytes/row (");
    push_decimal(&mut row, stride as u64);
    push_text(&mut row, " px/row)");

    let packed = if padding == 0 {
        "PACKED?   yes, stride equals width times bytes-per-pixel".to_owned()
    } else {
        let mut packed = "PACKED?   no, ".to_owned();
        push_decimal(&mut packed, padding as u64);
        push_text(&mut packed, " byte(s)/row of padding beyond a tightly packed row");
        packed
    };

    let mut lines: Vec<String> = Vec::new();
    lines.push(extent);
    lines.push(format);
    lines.push(row);
    lines.push(packed);
    assert(texts(lines@) =~= geometry_text(*surface));
    lines
}

} // verus!
