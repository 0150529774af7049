//! Composition of one display frame.
//!
//! A frame is a transient render target scoped to a single loop iteration:
//! the list of text draw commands to issue between clearing the display and
//! flushing it.  Composing the frame is pure logic and is verified here;
//! rasterizing the glyphs and pushing pixels over the bus belong to the
//! display driver outside the crate, which executes these commands as
//! given.

use vstd::prelude::*;

use crate::reading::DeviceView;
use crate::text::format_deci;
use crate::text::spec_format_deci;

verus! {

/// Pixel position of the start-up greeting.
pub const SPLASH_X: i32 = 10;

pub const SPLASH_Y: i32 = 10;

/// Pixel position of the temperature value.
pub const TEMP_X: i32 = 10;

pub const TEMP_Y: i32 = 30;

/// Pixel position of the humidity value.
pub const HUM_X: i32 = 10;

pub const HUM_Y: i32 = 50;

/// One draw command: a line of text at a fixed pixel position.
#[derive(Clone, Debug)]
pub struct TextField {
    pub content: String,
    pub x: i32,
    pub y: i32,
}

/// The draw commands of one frame, committed atomically by a flush so
/// nothing partially drawn is ever visible.
#[derive(Clone, Debug)]
pub struct DisplayFrame {
    pub fields: Vec<TextField>,
}

/// What a frame must show for a given view: exactly two fields at the
/// fixed positions, holding the rendered temperature and humidity, or the
/// placeholder text in both places before the first successful reading.
pub open spec fn frame_shows(f: DisplayFrame, view: DeviceView) -> bool {
    &&& f.fields@.len() == 2
    &&& f.fields@[0].x == TEMP_X
    &&& f.fields@[0].y == TEMP_Y
    &&& f.fields@[1].x == HUM_X
    &&& f.fields@[1].y == HUM_Y
    &&& match view {
        DeviceView::Reading(r) => f.fields@[0].content@ == spec_format_deci(
            r.temperature_deci as int,
        ) && f.fields@[1].content@ == spec_format_deci(r.humidity_deci as int),
        DeviceView::Placeholder => f.fields@[0].content@ == "--.-"@ && f.fields@[1].content@
            == "--.-"@,
    }
}

/// The text shown in place of a value before the first successful reading.
fn placeholder_text() -> (s: String)
    ensures
        s@ == "--.-"@,
{
    String::from_str("--.-")
}

/// Builds the frame for a view: the two value fields at their fixed
/// positions, rendered from the reading, or placeholders.
pub fn compose_frame(view: &DeviceView) -> (f: DisplayFrame)
    ensures
        frame_shows(f, *view),
{
    let mut fields: Vec<TextField> = Vec::new();
    match view {
        DeviceView::Reading(r) => {
            fields.push(TextField { content: format_deci(r.temperature_deci), x: TEMP_X, y: TEMP_Y });
            fields.push(TextField { content: format_deci(r.humidity_deci), x: HUM_X, y: HUM_Y });
        },
        DeviceView::Placeholder => {
            fields.push(TextField { content: placeholder_text(), x: TEMP_X, y: TEMP_Y });
            fields.push(TextField { content: placeholder_text(), x: HUM_X, y: HUM_Y });
        },
    }
    DisplayFrame { fields }
}

/// The greeting frame drawn once at start-up, before the first sample.
pub fn splash_frame() -> (f: DisplayFrame)
    ensures
        f.fields@.len() == 1,
        f.fields@[0].content@ == "Hello Alex"@,
        f.fields@[0].x == SPLASH_X,
        f.fields@[0].y == SPLASH_Y,
{
    let mut fields: Vec<TextField> = Vec::new();
    fields.push(TextField { content: String::from_str("Hello Alex"), x: SPLASH_X, y: SPLASH_Y });
    DisplayFrame { fields }
}

} // verus!
