//! The layout engine: a pure function from a fix snapshot and the current
//! second to an ordered list of draw operations against an abstract 128x32
//! monochrome surface, together with the status-box sub-routine and the
//! blink state machine. An external driver turns the operations into device
//! bus traffic; nothing here touches hardware.
use vstd::prelude::*;

use crate::time::{spec_resolved_time, TimeOfDay};
use crate::{DisplayState, DisplayTZ};

verus! {

/// A pixel value on the monochrome surface.
#[derive(Clone, Copy, Debug, PartialEq, Eq, Structural)]
pub enum BinColor {
    Off,
    On,
}

/// The three glyph sets the layout uses: the 6x13 body font, its bold
/// variant for the clock line, and the small 4x6 font inside the status
/// box.
#[derive(Clone, Copy, Debug, PartialEq, Eq, Structural)]
pub enum Font {
    Body,
    BodyBold,
    Label,
}

/// Which of the two fixed vertical timezone bitmaps to blit.
#[derive(Clone, Copy, Debug, PartialEq, Eq, Structural)]
pub enum GlyphId {
    Utc,
    Loc,
}

/// The vertical "UTC" bitmap, one row per byte, six columns used,
/// letters stacked bottom-up so they read upward on the display.
pub const UTC_90DEG: [u8; 11] = [0x88, 0x88, 0xF8, 0x00, 0x80, 0xF8, 0x80, 0x00, 0xF8, 0x08, 0xF8];

/// Columns used by the "UTC" bitmap.
pub const UTC_90DEG_WIDTH: u32 = 6;

/// The vertical "LOC" bitmap, one row per byte, five columns used.
pub const LOC_90DEG: [u8; 11] = [0x88, 0x88, 0xF8, 0x00, 0xF8, 0x88, 0xF8, 0x00, 0x08, 0x08, 0xF8];

/// Columns used by the "LOC" bitmap.
pub const LOC_90DEG_WIDTH: u32 = 5;

/// A position on the surface, in pixels from the top-left corner.
#[derive(Clone, Copy, Debug, PartialEq, Eq, Structural)]
pub struct Point {
    pub x: i32,
    pub y: i32,
}

/// One primitive operation against the abstract surface. A render cycle
/// emits a fixed sequence of these, in order.
#[derive(Clone, Debug, PartialEq)]
pub enum DrawOp {
    /// Fill the whole surface with one color.
    Clear { color: BinColor },
    /// Draw a text run anchored at `origin` (top baseline). When
    /// `centered` is set the run is centered horizontally on the anchor;
    /// otherwise it extends to the right. A line feed stacks a second
    /// line below the first.
    Text { origin: Point, text: String, font: Font, color: BinColor, centered: bool },
    /// Fill an axis-aligned rectangle.
    FillRect { top_left: Point, width: u8, height: u8, color: BinColor },
    /// Blit one of the fixed timezone bitmaps.
    Glyph { top_left: Point, glyph: GlyphId },
}

/// The mathematical image of a draw operation: coordinates as integers and
/// text as a character sequence.
#[verifier::ext_equal]
pub enum OpModel {
    Clear { color: BinColor },
    Text { x: int, y: int, text: Seq<char>, font: Font, color: BinColor, centered: bool },
    FillRect { x: int, y: int, width: int, height: int, color: BinColor },
    Glyph { x: int, y: int, glyph: GlyphId },
}

impl View for DrawOp {
    type V = OpModel;

    open spec fn view(&self) -> OpModel {
        match self {
            DrawOp::Clear { color } => OpModel::Clear { color: *color },
            DrawOp::Text { origin, text, font, color, centered } => OpModel::Text {
                x: origin.x as int,
                y: origin.y as int,
                text: text@,
                font: *font,
                color: *color,
                centered: *centered,
            },
            DrawOp::FillRect { top_left, width, height, color } => OpModel::FillRect {
                x: top_left.x as int,
                y: top_left.y as int,
                width: *width as int,
                height: *height as int,
                color: *color,
            },
            DrawOp::Glyph { top_left, glyph } => OpModel::Glyph {
                x: top_left.x as int,
                y: top_left.y as int,
                glyph: *glyph,
            },
        }
    }
}

/// The draw list seen as a sequence of operation models.
pub open spec fn ops_model(ops: Seq<DrawOp>) -> Seq<OpModel> {
    ops.map_values(|op: DrawOp| op@)
}

// ---------------------------------------------------------------------
// Decimal formatting, specified character by character.
// ---------------------------------------------------------------------

/// The ASCII digit for one decimal digit value.
pub open spec fn digit_char(d: int) -> char {
    if d == 0 {
        '0'
    } else if d == 1 {
        '1'
    } else if d == 2 {
        '2'
    } else if d == 3 {
        '3'
    } else if d == 4 {
        '4'
    } else if d == 5 {
        '5'
    } else if d == 6 {
        '6'
    } else if d == 7 {
        '7'
    } else if d == 8 {
        '8'
    } else {
        '9'
    }
}

/// The decimal digits of an unsigned value, most significant first, with
/// no leading zeros (a lone zero for zero itself).
pub open spec fn spec_unsigned_digits(n: nat) -> Seq<char>
    decreases n,
{
    if n < 10 {
        seq![digit_char(n as int)]
    } else {
        spec_unsigned_digits(n / 10).push(digit_char((n % 10) as int))
    }
}

/// Exactly five decimal digits, zero padded: the fractional part of a
/// microdegree value.
pub open spec fn spec_frac5(n: nat) -> Seq<char> {
    seq![
        digit_char((n / 10000) as int),
        digit_char(((n / 1000) % 10) as int),
        digit_char(((n / 100) % 10) as int),
        digit_char(((n / 10) % 10) as int),
        digit_char((n % 10) as int),
    ]
}

/// Right justification to the fixed coordinate field width: pad on the
/// left with spaces up to eight characters; longer values keep their full
/// length.
pub open spec fn spec_pad8(s: Seq<char>) -> Seq<char> {
    if s.len() >= 8 {
        s
    } else {
        Seq::new((8 - s.len()) as nat, |k: int| ' ') + s
    }
}

/// A signed microdegree value rendered with five fractional digits and
/// right-justified to eight characters, exactly as the coordinate lines
/// show it.
pub open spec fn spec_fixed5(v: int) -> Seq<char> {
    let a = if v < 0 {
        -v
    } else {
        v
    };
    let body = (if v < 0 {
        seq!['-']
    } else {
        Seq::<char>::empty()
    }) + spec_unsigned_digits((a / 100000) as nat) + seq!['.'] + spec_frac5((a % 100000) as nat);
    spec_pad8(body)
}

/// A value below one hundred as exactly two digits, zero padded.
pub open spec fn spec_two_digits(n: int) -> Seq<char> {
    seq![digit_char(n / 10), digit_char(n % 10)]
}

/// A coordinate line: the hemisphere prefix letter followed by the
/// justified value.
pub open spec fn spec_coord_line(prefix: char, v: int) -> Seq<char> {
    seq![prefix] + spec_fixed5(v)
}

/// The clock line: one leading blank column for alignment, then
/// hour, minute and second as two digits each, colon separated.
pub open spec fn spec_clock_line(t: TimeOfDay) -> Seq<char> {
    seq![' '] + spec_two_digits(t.hour as int) + seq![':'] + spec_two_digits(t.minute as int)
        + seq![':'] + spec_two_digits(t.second as int)
}

/// Relies on `String::push`: appends the one character to the end of the
/// string.
#[verifier::external_body]
fn string_push(s: &mut String, c: char)
    ensures
        final(s)@ == old(s)@.push(c),
{
    s.push(c);
}

/// The ASCII digit character for a decimal digit value.
pub fn to_digit_char(d: u8) -> (c: char)
    requires
        d < 10,
    ensures
        c == digit_char(d as int),
{
    if d == 0 {
        '0'
    } else if d == 1 {
        '1'
    } else if d == 2 {
        '2'
    } else if d == 3 {
        '3'
    } else if d == 4 {
        '4'
    } else if d == 5 {
        '5'
    } else if d == 6 {
        '6'
    } else if d == 7 {
        '7'
    } else if d == 8 {
        '8'
    } else {
        '9'
    }
}

/// The decimal digits of `n`, most significant first.
pub fn format_unsigned(n: u32) -> (s: String)
    ensures
        s@ == spec_unsigned_digits(n as nat),
    decreases n,
{
    if n < 10 {
        let mut s = String::new();
        string_push(&mut s, to_digit_char(n as u8));
        proof {
            assert(s@ =~= spec_unsigned_digits(n as nat));
        }
        s
    } else {
        let mut s = format_unsigned(n / 10);
        string_push(&mut s, to_digit_char((n % 10) as u8));
        s
    }
}

/// A signed microdegree value with five fractional digits, right-justified
/// to eight characters.
pub fn format_fixed5(v: i32) -> (s: String)
    ensures
        s@ == spec_fixed5(v as int),
{
    let a: u32 = if v < 0 {
        (-(v as i64)) as u32
    } else {
        v as u32
    };
    let ip: u32 = a / 100000;
    let fp: u32 = a % 100000;
    let mut body = String::new();
    if v < 0 {
        string_push(&mut body, '-');
    }
    let digits = format_unsigned(ip);
    body.append(digits.as_str());
    string_push(&mut body, '.');
    string_push(&mut body, to_digit_char((fp / 10000) as u8));
    string_push(&mut body, to_digit_char(((fp / 1000) % 10) as u8));
    string_push(&mut body, to_digit_char(((fp / 100) % 10) as u8));
    string_push(&mut body, to_digit_char(((fp / 10) % 10) as u8));
    string_push(&mut body, to_digit_char((fp % 10) as u8));
    proof {
        assert(body@ =~= (if v < 0 {
            seq!['-']
        } else {
            Seq::<char>::empty()
        }) + spec_unsigned_digits((a / 100000) as nat) + seq!['.'] + spec_frac5(
            (a % 100000) as nat,
        ));
    }
    let blen = body.as_str().unicode_len();
    let mut s = String::new();
    let mut i: usize = blen;
    while i < 8
        invariant
            blen <= i,
            i <= 8 || i == blen,
            s@ =~= Seq::new((i - blen) as nat, |k: int| ' '),
        decreases 8 - i,
    {
        string_push(&mut s, ' ');
        i = i + 1;
    }
    s.append(body.as_str());
    proof {
        assert(s@ =~= spec_fixed5(v as int));
    }
    s
}

/// A value below one hundred as exactly two digits.
pub fn format_two_digits(n: u8) -> (s: String)
    requires
        n < 100,
    ensures
        s@ == spec_two_digits(n as int),
{
    let mut s = String::new();
    string_push(&mut s, to_digit_char(n / 10));
    string_push(&mut s, to_digit_char(n % 10));
    proof {
        assert(s@ =~= spec_two_digits(n as int));
    }
    s
}

/// The clock line text for a resolved wall-clock time.
pub fn clock_text(t: &TimeOfDay) -> (s: String)
    requires
        t.wf(),
    ensures
        s@ == spec_clock_line(*t),
{
    let mut s = String::new();
    string_push(&mut s, ' ');
    string_push(&mut s, to_digit_char(t.hour / 10));
    string_push(&mut s, to_digit_char(t.hour % 10));
    string_push(&mut s, ':');
    string_push(&mut s, to_digit_char(t.minute / 10));
    string_push(&mut s, to_digit_char(t.minute % 10));
    string_push(&mut s, ':');
    string_push(&mut s, to_digit_char(t.second / 10));
    string_push(&mut s, to_digit_char(t.second % 10));
    proof {
        assert(s@ =~= spec_clock_line(*t));
    }
    s
}

/// A coordinate line: prefix letter plus justified value.
pub fn coord_line(prefix: char, v: i32) -> (s: String)
    ensures
        s@ == spec_coord_line(prefix, v as int),
{
    let mut s = String::new();
    string_push(&mut s, prefix);
    let value = format_fixed5(v);
    s.append(value.as_str());
    proof {
        assert(s@ =~= spec_coord_line(prefix, v as int));
    }
    s
}

// ---------------------------------------------------------------------
// The status/alert box.
// ---------------------------------------------------------------------

/// Severity of the status box, selecting its fill and text colors.
#[derive(Clone, Copy, Debug, PartialEq, Eq, Structural)]
pub enum BoxLevel {
    Info,
    Warn,
    Error,
}

/// The inset fill color and the text color for a level. An error-level box
/// toggles with the blink phase: on the blinking half-second it looks like
/// a warning (inverted), on the other half like plain info, which makes it
/// flash visibly; the other levels ignore the phase.
pub open spec fn spec_box_colors(level: BoxLevel, blink: bool) -> (BinColor, BinColor) {
    match level {
        BoxLevel::Info => (BinColor::Off, BinColor::On),
        BoxLevel::Warn => (BinColor::On, BinColor::Off),
        BoxLevel::Error => if blink {
            (BinColor::On, BinColor::Off)
        } else {
            (BinColor::Off, BinColor::On)
        },
    }
}

/// A label is shown with at most its first three characters.
pub open spec fn spec_trunc3(s: Seq<char>) -> Seq<char> {
    if s.len() <= 3 {
        s
    } else {
        s.take(3)
    }
}

/// The two truncated label lines stacked with a line feed.
pub open spec fn spec_box_text(l1: Seq<char>, l2: Seq<char>) -> Seq<char> {
    spec_trunc3(l1) + seq!['\n'] + spec_trunc3(l2)
}

/// The three operations of one status box at `(x, y)`: a filled 16x16
/// border rectangle in the on color, a 14x14 inset in the level fill, and
/// the stacked labels centered in the small font.
pub open spec fn box_model(
    l1: Seq<char>,
    l2: Seq<char>,
    x: int,
    y: int,
    level: BoxLevel,
    blink: bool,
) -> Seq<OpModel> {
    let fill = spec_box_colors(level, blink).0;
    let text_color = spec_box_colors(level, blink).1;
    seq![
        OpModel::FillRect { x, y, width: 16, height: 16, color: BinColor::On },
        OpModel::FillRect { x: x + 1, y: y + 1, width: 14, height: 14, color: fill },
        OpModel::Text {
            x: x + 7,
            y: y + 2,
            text: spec_box_text(l1, l2),
            font: Font::Label,
            color: text_color,
            centered: true,
        },
    ]
}

/// Truncate a label to its first three characters.
fn trunc3(label: &str) -> (r: &str)
    ensures
        r@ == spec_trunc3(label@),
{
    let n = label.unicode_len();
    if n > 3 {
        let r = label.substring_char(0, 3);
        proof {
            assert(r@ =~= spec_trunc3(label@));
        }
        r
    } else {
        label
    }
}

/// Append the operations of one 16x16 status box to the draw list: border,
/// level-dependent inset, and the two labels truncated to three characters
/// each and centered. The box must lie on the 128x32 surface.
pub fn draw_16_16(
    l1: &str,
    l2: &str,
    top_left: Point,
    level: BoxLevel,
    ops: &mut Vec<DrawOp>,
    blink: bool,
)
    requires
        0 <= top_left.x <= 112,
        0 <= top_left.y <= 16,
    ensures
        ops_model(final(ops)@) == ops_model(old(ops)@) + box_model(
            l1@,
            l2@,
            top_left.x as int,
            top_left.y as int,
            level,
            blink,
        ),
{
    let (fill, text_color) = match level {
        BoxLevel::Info => (BinColor::Off, BinColor::On),
        BoxLevel::Warn => (BinColor::On, BinColor::Off),
        BoxLevel::Error => if blink {
            (BinColor::On, BinColor::Off)
        } else {
            (BinColor::Off, BinColor::On)
        },
    };
    ops.push(
        DrawOp::FillRect { top_left, width: 16, height: 16, color: BinColor::On },
    );
    ops.push(
        DrawOp::FillRect {
            top_left: Point { x: top_left.x + 1, y: top_left.y + 1 },
            width: 14,
            height: 14,
            color: fill,
        },
    );
    let mut text = String::from_str(trunc3(l1));
    string_push(&mut text, '\n');
    text.append(trunc3(l2));
    proof {
        assert(text@ =~= spec_box_text(l1@, l2@));
    }
    ops.push(
        DrawOp::Text {
            origin: Point { x: top_left.x + 7, y: top_left.y + 2 },
            text,
            font: Font::Label,
            color: text_color,
            centered: true,
        },
    );
    proof {
        assert(ops_model(final(ops)@) =~~= ops_model(old(ops)@) + box_model(
            l1@,
            l2@,
            top_left.x as int,
            top_left.y as int,
            level,
            blink,
        ));
    }
}

// ---------------------------------------------------------------------
// Fix-quality classification.
// ---------------------------------------------------------------------

/// The level and labels the status box shows for a dilution-of-precision
/// value in hundredths. Zero is the "no data" sentinel and reports an
/// error, as does any value of twenty or worse; below a tenth (but not
/// zero) no box is shown at all.
pub open spec fn spec_classify(hdop: u32) -> Option<(BoxLevel, Seq<char>, Seq<char>)> {
    if hdop == 0 || hdop >= 2000 {
        Some((BoxLevel::Error, "NO"@, "FIX"@))
    } else if hdop < 10 {
        None
    } else if hdop < 200 {
        Some((BoxLevel::Info, "EXC"@, "FIX"@))
    } else if hdop < 500 {
        Some((BoxLevel::Info, "OKY"@, "FIX"@))
    } else {
        Some((BoxLevel::Warn, "POR"@, "FIX"@))
    }
}

/// Classify a dilution-of-precision value into the level and labels of the
/// status box, if one is shown.
pub fn classify(hdop: u32) -> (r: Option<(BoxLevel, &'static str, &'static str)>)
    ensures
        r.is_some() == spec_classify(hdop).is_some(),
        r.is_some() ==> {
            let (level, l1, l2) = r.unwrap();
            let (spec_level, spec_l1, spec_l2) = spec_classify(hdop).unwrap();
            level == spec_level && l1@ == spec_l1 && l2@ == spec_l2
        },
{
    if hdop == 0 || hdop >= 2000 {
        Some((BoxLevel::Error, "NO", "FIX"))
    } else if hdop < 10 {
        None
    } else if hdop < 200 {
        Some((BoxLevel::Info, "EXC", "FIX"))
    } else if hdop < 500 {
        Some((BoxLevel::Info, "OKY", "FIX"))
    } else {
        Some((BoxLevel::Warn, "POR", "FIX"))
    }
}

// ---------------------------------------------------------------------
// The render engine.
// ---------------------------------------------------------------------

/// X position of the status box.
pub const STATUS_BOX_X: i32 = 54;

/// Y position of the status box.
pub const STATUS_BOX_Y: i32 = 0;

/// The blink phase is the parity of the current second: a pure function of
/// the second value, so that identical seconds render identical pixels.
pub open spec fn spec_blink(second: int) -> bool {
    second % 2 == 1
}

/// Which timezone bitmap the layout selects: the UTC glyph exactly when the
/// display timezone is UTC, the LOC glyph for any fixed local offset,
/// whatever the offset value is.
pub open spec fn glyph_of(tz: DisplayTZ) -> GlyphId {
    match tz {
        DisplayTZ::Utc => GlyphId::Utc,
        DisplayTZ::Local { .. } => GlyphId::Loc,
    }
}

/// The five operations every frame starts with, top to bottom: clear the
/// surface, the latitude line, the longitude line, the bold clock line
/// showing the resolved wall-clock, and the vertical timezone glyph. The
/// text rows sit two pixels above the nominal origin: the font leaves a
/// margin that the layout reclaims.
pub open spec fn render_head(s: DisplayState) -> Seq<OpModel> {
    let shown = spec_resolved_time(s);
    seq![
        OpModel::Clear { color: BinColor::Off },
        OpModel::Text {
            x: 0,
            y: -2,
            text: spec_coord_line('N', s.lat as int),
            font: Font::Body,
            color: BinColor::On,
            centered: false,
        },
        OpModel::Text {
            x: 0,
            y: 9,
            text: spec_coord_line('E', s.lon as int),
            font: Font::Body,
            color: BinColor::On,
            centered: false,
        },
        OpModel::Text {
            x: 0,
            y: 21,
            text: spec_clock_line(shown),
            font: Font::BodyBold,
            color: BinColor::On,
            centered: false,
        },
        OpModel::Glyph { x: 0, y: 21, glyph: glyph_of(s.display_tz) },
    ]
}

/// A whole frame: the head followed by the status box for the snapshot's
/// fix quality, blinking with the given second. A quality value that
/// classifies to nothing draws no box.
pub open spec fn render_model(s: DisplayState, second: int) -> Seq<OpModel> {
    render_head(s) + match spec_classify(s.hdop) {
        Some((level, l1, l2)) => box_model(
            l1,
            l2,
            STATUS_BOX_X as int,
            STATUS_BOX_Y as int,
            level,
            spec_blink(second),
        ),
        None => Seq::empty(),
    }
}

/// Lay out one frame for a snapshot at the given current second. Pure: the
/// same snapshot and second always produce the same operations.
pub fn render_frame(state: &DisplayState, second: u8) -> (ops: Vec<DrawOp>)
    requires
        state.time.wf(),
        state.display_tz.wf(),
    ensures
        ops_model(ops@) == render_model(*state, second as int),
{
    let mut ops: Vec<DrawOp> = Vec::new();
    ops.push(DrawOp::Clear { color: BinColor::Off });
    ops.push(
        DrawOp::Text {
            origin: Point { x: 0, y: -2 },
            text: coord_line('N', state.lat),
            font: Font::Body,
            color: BinColor::On,
            centered: false,
        },
    );
    ops.push(
        DrawOp::Text {
            origin: Point { x: 0, y: 9 },
            text: coord_line('E', state.lon),
            font: Font::Body,
            color: BinColor::On,
            centered: false,
        },
    );
    let shown = state.resolve();
    ops.push(
        DrawOp::Text {
            origin: Point { x: 0, y: 21 },
            text: clock_text(&shown),
            font: Font::BodyBold,
            color: BinColor::On,
            centered: false,
        },
    );
    let glyph = match state.display_tz {
        DisplayTZ::Utc => GlyphId::Utc,
        DisplayTZ::Local { .. } => GlyphId::Loc,
    };
    ops.push(DrawOp::Glyph { top_left: Point { x: 0, y: 21 }, glyph });
    let blink = second % 2 == 1;
    if let Some((level, l1, l2)) = classify(state.hdop) {
        draw_16_16(l1, l2, Point { x: STATUS_BOX_X, y: STATUS_BOX_Y }, level, &mut ops, blink);
    }
    proof {
        assert(ops_model(ops@) =~~= render_model(*state, second as int));
    }
    ops
}

/// Lay out one frame for a snapshot, taking the current second from the
/// resolved wall-clock, as the render loop does each period.
pub fn draw_status_display(state: &DisplayState) -> (ops: Vec<DrawOp>)
    requires
        state.wf(),
    ensures
        ops_model(ops@) == render_model(
            *state,
            spec_resolved_time(*state).second as int,
        ),
{
    let shown = state.resolve();
    render_frame(state, shown.second)
}

// ---------------------------------------------------------------------
// Laws of the engine.
// ---------------------------------------------------------------------

/// Whether an operation touches only the 16x16 status-box region with its
/// corner at `(x, y)`: a rectangle lies inside it, a text run is anchored
/// inside it. A clear or a glyph blit never counts as inside.
pub open spec fn op_within_box(op: OpModel, x: int, y: int) -> bool {
    match op {
        OpModel::Clear { .. } => false,
        OpModel::Text { x: tx, y: ty, .. } => x <= tx < x + 16 && y <= ty < y + 16,
        OpModel::FillRect { x: rx, y: ry, width, height, .. } => x <= rx && rx + width <= x + 16
            && y <= ry && ry + height <= y + 16,
        OpModel::Glyph { .. } => false,
    }
}

/// Blink determinism: two seconds of equal parity render the same
/// snapshot to identical operations.
pub proof fn lemma_blink_determinism(s: DisplayState, sec1: int, sec2: int)
    requires
        sec1 % 2 == sec2 % 2,
    ensures
        render_model(s, sec1) == render_model(s, sec2),
{
}

/// Changing the second's parity changes nothing outside the status box:
/// the two frames have the same length, agree on every operation before
/// the box, and every operation from there on lies within the box region.
pub proof fn lemma_blink_changes_box_only(s: DisplayState, sec1: int, sec2: int)
    ensures
        render_model(s, sec1).len() == render_model(s, sec2).len(),
        render_model(s, sec1).take(5) == render_model(s, sec2).take(5),
        forall|i: int|
            5 <= i < render_model(s, sec1).len() ==> #[trigger] op_within_box(
                render_model(s, sec1)[i],
                STATUS_BOX_X as int,
                STATUS_BOX_Y as int,
            ),
{
    assert(render_model(s, sec1).take(5) =~= render_head(s));
    assert(render_model(s, sec2).take(5) =~= render_head(s));
}

/// The timezone glyph depends only on which timezone variant is selected:
/// UTC always shows the UTC glyph, and a local timezone always shows the
/// LOC glyph regardless of its offset value.
pub proof fn lemma_timezone_glyph_choice()
    ensures
        glyph_of(DisplayTZ::Utc) == GlyphId::Utc,
        forall|off: i32| glyph_of(DisplayTZ::Local { fixed_offset: off }) == GlyphId::Loc,
{
}

/// Whether an operation stays on the 128x32 surface. Text anchors may use
/// the two-pixel top margin that the body font leaves; both fixed bitmaps
/// fit in an eight-by-eleven cell.
pub open spec fn op_on_surface(op: OpModel) -> bool {
    match op {
        OpModel::Clear { .. } => true,
        OpModel::Text { x, y, .. } => 0 <= x < 128 && -2 <= y < 32,
        OpModel::FillRect { x, y, width, height, .. } => 0 <= x && x + width <= 128 && 0 <= y && y
            + height <= 32,
        OpModel::Glyph { x, y, .. } => 0 <= x && x + 8 <= 128 && 0 <= y && y + 11 <= 32,
    }
}

/// Every snapshot renders to a complete, well-formed frame: it starts by
/// clearing the surface, carries all five head operations plus the status
/// box whenever the quality classifies to one, and never places an
/// operation outside the surface. In particular the all-defaults snapshot
/// renders the full "no fix" picture.
pub proof fn lemma_render_well_formed(s: DisplayState, second: int)
    ensures
        render_model(s, second).len() == if spec_classify(s.hdop).is_some() {
            8int
        } else {
            5int
        },
        render_model(s, second)[0] == (OpModel::Clear { color: BinColor::Off }),
        forall|i: int|
            0 <= i < render_model(s, second).len() ==> #[trigger] op_on_surface(
                render_model(s, second)[i],
            ),
{
    let r = render_model(s, second);
    assert forall|i: int| 0 <= i < r.len() implies #[trigger] op_on_surface(r[i]) by {
        if i < 5 {
            assert(r[i] == render_head(s)[i]);
        }
    }
}

} // verus!
