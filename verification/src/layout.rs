//! Arithmetic of the layout of a form, for whoever draws it.
//!
//! Widths and heights are counted in terminal cells, as `u16`.

use crate::field::{all_wf, Field, FormField};
use vstd::prelude::*;

verus! {

/// The smaller of two numbers.
pub open spec fn min_of(a: int, b: int) -> int {
    if a <= b {
        a
    } else {
        b
    }
}

/// Splits a row of `area_width` cells between a caption that takes
/// `caption_width` cells and the input behind it: the caption gets what it
/// takes, as far as the row goes, and the input the rest.
pub fn split_row(caption_width: usize, area_width: u16) -> (widths: (u16, u16))
    ensures
        widths.0 == min_of(caption_width as int, area_width as int),
        widths.0 + widths.1 == area_width,
{
    if caption_width >= area_width as usize {
        (area_width, 0)
    } else {
        (caption_width as u16, area_width - caption_width as u16)
    }
}

/// The number of options that an open dropdown shows in an area of
/// `area_height` rows: one row goes to the select itself, each further row
/// shows one option.
pub fn dropdown_rows(area_height: u16, options: usize) -> (rows: u16)
    ensures
        area_height == 0 ==> rows == 0,
        area_height > 0 ==> rows == min_of(area_height - 1, options as int),
{
    if area_height == 0 {
        0
    } else if options >= (area_height - 1) as usize {
        area_height - 1
    } else {
        options as u16
    }
}

/// The offset at which content of `content_width` cells is centred in a row
/// of `area_width` cells; 0 where the content is wider than the row.
pub fn centered_offset(area_width: u16, content_width: u16) -> (offset: u16)
    ensures
        content_width <= area_width ==> offset == (area_width - content_width) / 2,
        content_width > area_width ==> offset == 0,
{
    if content_width <= area_width {
        (area_width - content_width) / 2
    } else {
        0
    }
}

/// The heights of the rows of a form: one for each field, as high as the
/// field asks, then a spacer and the submit button, one row each.
pub open spec fn row_heights_of(fields: Seq<FormField>) -> Seq<nat> {
    Seq::new(
        fields.len() + 2,
        |i: int|
            if 0 <= i < fields.len() {
                fields[i].rows()
            } else {
                1
            },
    )
}

/// The heights of the rows of a form with the fields `fields`.
pub fn row_heights(fields: &Vec<FormField>) -> (heights: Vec<u16>)
    requires
        all_wf(fields@),
    ensures
        heights@.map_values(|h: u16| h as nat) == row_heights_of(fields@),
{
    let mut heights: Vec<u16> = Vec::new();
    let mut i: usize = 0;
    while i < fields.len()
        invariant
            i <= fields.len(),
            all_wf(fields@),
            heights@.len() == i,
            forall|k: int| 0 <= k < i ==> heights@[k] == (#[trigger] fields@[k]).rows(),
        decreases fields.len() - i,
    {
        heights.push(fields[i].height());
        i = i + 1;
    }
    heights.push(1);
    heights.push(1);
    assert(heights@.map_values(|h: u16| h as nat) =~= row_heights_of(fields@));
    heights
}

} // verus!
