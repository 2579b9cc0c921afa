//! What the dashboard needs worked out before it can draw: how wide a piece
//! of text shows, where a speaker stands on its bar, and which way is up.

use crate::geometry::SpatialState;
use crate::smoothing::gap;
use vstd::prelude::*;
use vstd::string::*;
use vstd::utf8::encode_utf8;

verus! {

/// The character that opens a colour sequence.
pub const ESCAPE: char = '\x1b';

/// A full turn in millionths of a degree.
pub const FULL_TURN: i128 = 360_000_000;

/// Whether a character takes two columns: one of the pictures that head the
/// sections of the dashboard.
pub open spec fn is_wide(c: char) -> bool {
    ||| c == '\u{1f3a7}'
    ||| c == '\u{1f9ed}'
    ||| c == '\u{1f50a}'
    ||| c == '\u{1f4d0}'
    ||| c == '\u{1f4e1}'
    ||| c == '\u{1f4c8}'
}

/// The columns that a text takes, read from a point that lies inside a
/// colour sequence or not. A colour sequence runs from an escape character
/// to the next `m` and takes no column; a wide character takes two; any
/// other takes one.
pub open spec fn width_from(text: Seq<char>, inside: bool) -> nat
    decreases text.len(),
{
    if text.len() == 0 {
        0
    } else {
        let c = text[0];
        let rest = text.drop_first();
        if c == ESCAPE {
            width_from(rest, true)
        } else if inside {
            width_from(rest, c != 'm')
        } else if is_wide(c) {
            2 + width_from(rest, false)
        } else {
            1 + width_from(rest, false)
        }
    }
}

/// The columns that a text takes on the terminal.
pub open spec fn visible_width(text: Seq<char>) -> nat {
    width_from(text, false)
}

/// A text takes no more columns than it has bytes.
pub proof fn lemma_width_within_bytes(text: Seq<char>, inside: bool)
    ensures
        width_from(text, inside) <= encode_utf8(text).len(),
    decreases text.len(),
{
    if text.len() > 0 {
        let c = text[0];
        let rest = text.drop_first();
        lemma_width_within_bytes(rest, true);
        lemma_width_within_bytes(rest, false);
    }
}

/// The columns that a text takes on the terminal, colour sequences left out
/// and wide characters counted twice.
pub fn get_visible_width(s: &str) -> (width: usize)
    ensures
        width == visible_width(s@),
{
    let limit: usize = s.as_bytes().len();
    proof {
        lemma_width_within_bytes(s@, false);
        assert(s@.skip(0) =~= s@);
    }
    let mut width: usize = 0;
    let mut inside_ansi: bool = false;
    for c in it: s.chars()
        invariant
            it.seq() == s@,
            limit == encode_utf8(s@).len(),
            width + width_from(it.seq().skip(it.index() as int), inside_ansi) == visible_width(
                s@,
            ),
            visible_width(s@) <= limit,
    {
        proof {
            let here = it.seq().skip(it.index() as int);
            assert(here.drop_first() =~= it.seq().skip(it.index() + 1));
        }
        if c == ESCAPE {
            inside_ansi = true;
        } else if inside_ansi {
            if c == 'm' {
                inside_ansi = false;
            }
        } else if c == '\u{1f3a7}' || c == '\u{1f9ed}' || c == '\u{1f50a}' || c == '\u{1f4d0}' || c
            == '\u{1f4e1}' || c == '\u{1f4c8}' {
            width = width + 2;
        } else {
            width = width + 1;
        }
    }
    width
}

/// An angle turned by whole turns into the half-open range from half a turn
/// below zero, exclusive, to half a turn above, inclusive.
pub open spec fn wrapped(angle: int) -> int {
    let within = angle % (FULL_TURN as int);
    if within > FULL_TURN / 2 {
        within - FULL_TURN
    } else {
        within
    }
}

/// The azimuth as the bar shows it: wrapped, and a speaker behind the
/// listener mirrored to the front, so that it lies within a quarter turn of
/// straight ahead.
pub open spec fn display_azimuth(angle: int) -> int {
    let turned = wrapped(angle);
    if turned > FULL_TURN / 4 {
        turned - FULL_TURN / 2
    } else if turned < -(FULL_TURN / 4) {
        turned + FULL_TURN / 2
    } else {
        turned
    }
}

/// The azimuth as the bar shows it.
pub fn adjust_display_azimuth(angle: i128) -> (shown: i128)
    ensures
        shown == display_azimuth(angle as int),
        -(FULL_TURN / 4) <= shown <= FULL_TURN / 4,
{
    let within: i128 = if angle >= 0 {
        angle % FULL_TURN
    } else {
        let below: i128 = -(angle + 1);
        FULL_TURN - 1 - below % FULL_TURN
    };
    let turned: i128 = if within > FULL_TURN / 2 {
        within - FULL_TURN
    } else {
        within
    };
    if turned > FULL_TURN / 4 {
        turned - FULL_TURN / 2
    } else if turned < -(FULL_TURN / 4) {
        turned + FULL_TURN / 2
    } else {
        turned
    }
}

/// The cell of a bar of `width` cells at which an azimuth is marked: the
/// azimuth, held within a quarter turn of straight ahead, mapped onto the
/// cells from the first to the last and rounded to the nearest.
pub open spec fn bar_position(azimuth: int, width: int) -> int {
    let quarter = FULL_TURN / 4;
    let held = if azimuth < -quarter {
        -quarter
    } else if azimuth > quarter {
        quarter
    } else {
        azimuth
    };
    ((held + quarter) * (width - 1) + quarter) / (2 * quarter)
}

/// The cell of a bar at which an azimuth is marked.
pub fn azimuth_bar_position(azimuth: i128, width: usize) -> (cell: usize)
    requires
        width >= 1,
    ensures
        cell == bar_position(azimuth as int, width as int),
        cell < width,
{
    let quarter: i128 = FULL_TURN / 4;
    let held: i128 = if azimuth < -quarter {
        -quarter
    } else if azimuth > quarter {
        quarter
    } else {
        azimuth
    };
    let offset: u128 = (held + quarter) as u128;
    let steps: u128 = (width - 1) as u128;
    assert(offset * steps <= 180_000_000 * steps) by (nonlinear_arith)
        requires
            0 <= offset <= 180_000_000,
            0 <= steps,
    ;
    let scaled: u128 = offset * steps + 90_000_000;
    let cell: u128 = scaled / 180_000_000;
    cell as usize
}

/// What stands in one cell of a bar.
#[derive(Clone, Copy, Debug, PartialEq, Eq, Structural)]
pub enum BarCell {
    /// The speaker.
    Speaker,
    /// The line straight ahead.
    Centre,
    /// Nothing.
    Blank,
}

/// What stands in cell `index` of a bar of `width` cells that marks an
/// azimuth: the speaker at its position, the centre line in the middle
/// unless the speaker stands there, nothing elsewhere.
pub open spec fn bar_cell(azimuth: int, width: int, index: int) -> BarCell {
    if index == bar_position(azimuth, width) {
        BarCell::Speaker
    } else if index == width / 2 {
        BarCell::Centre
    } else {
        BarCell::Blank
    }
}

/// The text of a cell.
pub open spec fn cell_text(cell: BarCell) -> Seq<char> {
    match cell {
        BarCell::Speaker => "\x1B[1;33m\u{25c6}\x1B[0m"@,
        BarCell::Centre => "\x1B[90m\u{2502}\x1B[0m"@,
        BarCell::Blank => " "@,
    }
}

/// The text of the first `count` cells of a bar.
pub open spec fn cells_text(azimuth: int, width: int, count: nat) -> Seq<char>
    decreases count,
{
    if count == 0 {
        Seq::<char>::empty()
    } else {
        cells_text(azimuth, width, (count - 1) as nat) + cell_text(
            bar_cell(azimuth, width, count - 1),
        )
    }
}

/// The text of a bar: its cells between square brackets.
pub open spec fn bar_text(azimuth: int, width: int) -> Seq<char> {
    "["@ + cells_text(azimuth, width, width as nat) + "]"@
}

/// Draws the bar that shows where a speaker stands relative to straight
/// ahead.
pub fn render_azimuth_bar(azimuth: i128, width: usize) -> (bar: String)
    requires
        width >= 1,
    ensures
        bar@ == bar_text(azimuth as int, width as int),
{
    let position: usize = azimuth_bar_position(azimuth, width);
    let centre: usize = width / 2;
    let mut bar = String::new();
    bar.append("[");
    let mut index: usize = 0;
    while index < width
        invariant
            index <= width,
            position == bar_position(azimuth as int, width as int),
            centre == width / 2,
            bar@ == "["@ + cells_text(azimuth as int, width as int, index as nat),
        decreases width - index,
    {
        if index == position {
            bar.append("\x1B[1;33m\u{25c6}\x1B[0m");
        } else if index == centre {
            bar.append("\x1B[90m\u{2502}\x1B[0m");
        } else {
            bar.append(" ");
        }
        index = index + 1;
    }
    bar.append("]");
    bar
}

/// Where a source stands against ear level.
#[derive(Clone, Copy, Debug, PartialEq, Eq, Structural)]
pub enum Elevation {
    Above,
    Below,
    Level,
}

/// Where an elevation in millionths of a degree stands: above beyond ten
/// degrees up, below beyond ten degrees down, level between.
pub open spec fn elevation_of(elevation: int) -> Elevation {
    if elevation > 10_000_000 {
        Elevation::Above
    } else if elevation < -10_000_000 {
        Elevation::Below
    } else {
        Elevation::Level
    }
}

/// The indicator of an elevation.
pub open spec fn indicator_text(elevation: Elevation) -> Seq<char> {
    match elevation {
        Elevation::Above => "\u{2b06} Above"@,
        Elevation::Below => "\u{2b07} Below"@,
        Elevation::Level => "\u{2501} Level"@,
    }
}

/// Says in a word and an arrow where a source stands against ear level.
pub fn render_elevation_indicator(elevation: i128) -> (text: &'static str)
    ensures
        text@ == indicator_text(elevation_of(elevation as int)),
{
    if elevation > 10_000_000 {
        "\u{2b06} Above"
    } else if elevation < -10_000_000 {
        "\u{2b07} Below"
    } else {
        "\u{2501} Level"
    }
}

/// How wide the stereo field is, in a word.
#[derive(Clone, Copy, Debug, PartialEq, Eq, Structural)]
pub enum WidthClass {
    VeryWide,
    Normal,
    Narrow,
}

/// The class of a stereo width: very wide from 1.2 on, normal from 0.8 on,
/// narrow below.
pub open spec fn width_class_of(width: int) -> WidthClass {
    if width >= 1_200_000 {
        WidthClass::VeryWide
    } else if width >= 800_000 {
        WidthClass::Normal
    } else {
        WidthClass::Narrow
    }
}

/// The class of a stereo width.
pub fn width_class(width: u64) -> (class: WidthClass)
    ensures
        class == width_class_of(width as int),
{
    if width >= 1_200_000 {
        WidthClass::VeryWide
    } else if width >= 800_000 {
        WidthClass::Normal
    } else {
        WidthClass::Narrow
    }
}

/// The angle between the two speakers.
pub fn speaker_separation(spatial: &SpatialState) -> (angle: u128)
    ensures
        angle == gap(spatial.left_az as int, spatial.right_az as int),
{
    let (high, low): (i128, i128) = if spatial.left_az >= spatial.right_az {
        (spatial.left_az, spatial.right_az)
    } else {
        (spatial.right_az, spatial.left_az)
    };
    if low >= 0 || high < 0 {
        (high - low) as u128
    } else {
        high as u128 + ((-(low + 1)) as u128 + 1)
    }
}

} // verus!
