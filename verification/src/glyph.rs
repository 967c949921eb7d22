use vstd::prelude::*;
use crate::text::chars_of;
use crate::theme::{Color, Theme};

verus! {

/// The rows of the 5x7 block glyph of a digit; row 3 is blank so a hinge
/// never cuts a stroke. Characters other than digits get a `?` glyph.
pub open spec fn glyph_rows(ch: char) -> Seq<Seq<char>> {
    match ch {
        '0' => seq![" ███ "@, "█   █"@, "█   █"@, "     "@, "█   █"@, "█   █"@, " ███ "@],
        '1' => seq!["  ██ "@, " ███ "@, "  ██ "@, "     "@, "  ██ "@, "  ██ "@, " ████"@],
        '2' => seq![" ███ "@, "    █"@, " ███ "@, "     "@, "█    "@, "█    "@, "█████"@],
        '3' => seq!["████ "@, "    █"@, " ███ "@, "     "@, "    █"@, "    █"@, "████ "@],
        '4' => seq!["█   █"@, "█   █"@, "█████"@, "     "@, "    █"@, "    █"@, "    █"@],
        '5' => seq!["█████"@, "█    "@, "████ "@, "     "@, "    █"@, "    █"@, "████ "@],
        '6' => seq![" ███ "@, "█    "@, "████ "@, "     "@, "█   █"@, "█   █"@, " ███ "@],
        '7' => seq!["█████"@, "    █"@, "   █ "@, "     "@, "  █  "@, "  █  "@, "  █  "@],
        '8' => seq![" ███ "@, "█   █"@, " ███ "@, "     "@, "█   █"@, "█   █"@, " ███ "@],
        '9' => seq![" ███ "@, "█   █"@, " ████"@, "     "@, "    █"@, "    █"@, " ███ "@],
        _ => seq!["     "@, "  ?  "@, "     "@, "     "@, "     "@, "  ?  "@, "     "@],
    }
}

/// The 5x7 block glyph of `ch`, row by row; see `glyph_rows`.
pub fn glyph7(ch: char) -> (r: [&'static str; 7])
    ensures
        r@.map_values(|s: &'static str| s@) == glyph_rows(ch),
{
    let r: [&'static str; 7] = match ch {
        '0' => [" ███ ", "█   █", "█   █", "     ", "█   █", "█   █", " ███ "],
        '1' => ["  ██ ", " ███ ", "  ██ ", "     ", "  ██ ", "  ██ ", " ████"],
        '2' => [" ███ ", "    █", " ███ ", "     ", "█    ", "█    ", "█████"],
        '3' => ["████ ", "    █", " ███ ", "     ", "    █", "    █", "████ "],
        '4' => ["█   █", "█   █", "█████", "     ", "    █", "    █", "    █"],
        '5' => ["█████", "█    ", "████ ", "     ", "    █", "    █", "████ "],
        '6' => [" ███ ", "█    ", "████ ", "     ", "█   █", "█   █", " ███ "],
        '7' => ["█████", "    █", "   █ ", "     ", "  █  ", "  █  ", "  █  "],
        '8' => [" ███ ", "█   █", " ███ ", "     ", "█   █", "█   █", " ███ "],
        '9' => [" ███ ", "█   █", " ████", "     ", "    █", "    █", " ███ "],
        _ => ["     ", "  ?  ", "     ", "     ", "     ", "  ?  ", "     "],
    };
    assert(r@.map_values(|s: &'static str| s@) =~= glyph_rows(ch));
    r
}

proof fn lemma_glyph_rows_width(ch: char)
    ensures
        glyph_rows(ch).len() == 7,
        forall|i: int| 0 <= i < 7 ==> (#[trigger] glyph_rows(ch)[i]).len() == 5,
{
    reveal_strlit(" ███ ");
    reveal_strlit("█   █");
    reveal_strlit("     ");
    reveal_strlit("  ██ ");
    reveal_strlit(" ████");
    reveal_strlit("    █");
    reveal_strlit("█    ");
    reveal_strlit("█████");
    reveal_strlit("████ ");
    reveal_strlit("   █ ");
    reveal_strlit("  █  ");
    reveal_strlit("  ?  ");
}

/// How a cell is painted: foreground and background colour (`None` keeps
/// what is there) and boldness.
#[derive(Clone, Copy, PartialEq, Eq, Debug, Structural)]
pub struct CellStyle {
    pub fg: Option<Color>,
    pub bg: Option<Color>,
    pub bold: bool,
}

/// The near-black used for text drawn on an accent colour.
pub open spec fn ink() -> Color {
    Color::Rgb(16, 16, 18)
}

/// Character and style of cell `(dx, dy)` of a `w` x `h` digit card showing
/// `digit`: a box-drawing border, and inside it the digit's glyph centred on
/// a solid background; a flashing card is yellow with dark text.
pub open spec fn card_cell(dx: int, dy: int, w: int, h: int, digit: char, flash: bool, th: Theme) -> (
    char,
    CellStyle,
) {
    let border_col = if flash {
        th.accent_yellow
    } else {
        th.card_border
    };
    let card_bg = if flash {
        th.accent_yellow
    } else {
        th.card_top_bg
    };
    let text_fg = if flash {
        ink()
    } else {
        th.text_main
    };
    let border = CellStyle { fg: Some(border_col), bg: Some(th.bg), bold: false };
    let plain = CellStyle { fg: None, bg: Some(card_bg), bold: false };
    let top = dy == 0;
    let bottom = dy == h - 1;
    let left = dx == 0;
    let right = dx == w - 1;
    if top && left {
        ('\u{250c}', border)
    } else if top && right {
        ('\u{2510}', border)
    } else if bottom && left {
        ('\u{2514}', border)
    } else if bottom && right {
        ('\u{2518}', border)
    } else if top || bottom {
        ('\u{2500}', border)
    } else if left || right {
        ('\u{2502}', border)
    } else {
        let gx = dx - 1 - (w - 2 - 5) / 2;
        let gy = dy - 1 - (h - 2 - 7) / 2;
        if 0 <= gx < 5 && 0 <= gy < 7 && glyph_rows(digit)[gy][gx] == '\u{2588}' {
            ('\u{2588}', CellStyle { fg: Some(text_fg), bg: Some(card_bg), bold: true })
        } else {
            (' ', plain)
        }
    }
}

/// Whether a `w` x `h` card at `(x, y)` is drawn at all in a buffer of
/// `buf_w` x `buf_h` cells: it must be at least 7 x 9 and fit.
pub open spec fn card_drawn(buf_w: u16, buf_h: u16, x: u16, y: u16, w: u16, h: u16) -> bool {
    w >= 7 && h >= 9 && x + w <= buf_w && y + h <= buf_h
}

/// Whether a card is drawn; see `card_drawn`.
pub fn flip_card_drawn(buf_w: u16, buf_h: u16, x: u16, y: u16, w: u16, h: u16) -> (r: bool)
    ensures
        r == card_drawn(buf_w, buf_h, x, y, w, h),
{
    w >= 7 && h >= 9 && (x as u32) + (w as u32) <= buf_w as u32 && (y as u32) + (h as u32)
        <= buf_h as u32
}

/// Character and style of one cell of a digit card; see `card_cell`.
pub fn flip_card_cell(dx: u16, dy: u16, w: u16, h: u16, digit: char, flash: bool, th: &Theme) -> (r: (
    char,
    CellStyle,
))
    requires
        7 <= w <= 32769,
        9 <= h <= 32769,
        dx < w,
        dy < h,
    ensures
        r == card_cell(dx as int, dy as int, w as int, h as int, digit, flash, *th),
{
    let border_col = if flash {
        th.accent_yellow
    } else {
        th.card_border
    };
    let card_bg = if flash {
        th.accent_yellow
    } else {
        th.card_top_bg
    };
    let text_fg = if flash {
        Color::Rgb(16, 16, 18)
    } else {
        th.text_main
    };
    let border = CellStyle { fg: Some(border_col), bg: Some(th.bg), bold: false };
    let plain = CellStyle { fg: None, bg: Some(card_bg), bold: false };
    let top = dy == 0;
    let bottom = dy == h - 1;
    let left = dx == 0;
    let right = dx == w - 1;
    if top && left {
        ('\u{250c}', border)
    } else if top && right {
        ('\u{2510}', border)
    } else if bottom && left {
        ('\u{2514}', border)
    } else if bottom && right {
        ('\u{2518}', border)
    } else if top || bottom {
        ('\u{2500}', border)
    } else if left || right {
        ('\u{2502}', border)
    } else {
        let gx: i32 = dx as i32 - 1 - (w as i32 - 2 - 5) / 2;
        let gy: i32 = dy as i32 - 1 - (h as i32 - 2 - 7) / 2;
        if 0 <= gx && gx < 5 && 0 <= gy && gy < 7 {
            let g = glyph7(digit);
            let row = chars_of(g[gy as usize]);
            assert(row@ == glyph_rows(digit)[gy as int]);
            proof {
                lemma_glyph_rows_width(digit);
            }
            if row[gx as usize] == '\u{2588}' {
                ('\u{2588}', CellStyle { fg: Some(text_fg), bg: Some(card_bg), bold: true })
            } else {
                (' ', plain)
            }
        } else {
            (' ', plain)
        }
    }
}

/// The size of a digit card, the gap after it, and the width of a colon.
#[derive(Clone, Copy, PartialEq, Eq, Debug, Structural)]
pub struct CardGeom {
    pub w: u16,
    pub h: u16,
    pub gap: u16,
    pub colon_w: u16,
}

/// The card sizes tried, largest first.
pub open spec fn card_candidate(i: int) -> CardGeom {
    if i == 0 {
        CardGeom { w: 13, h: 11, gap: 1, colon_w: 4 }
    } else if i == 1 {
        CardGeom { w: 11, h: 11, gap: 1, colon_w: 3 }
    } else if i == 2 {
        CardGeom { w: 10, h: 10, gap: 1, colon_w: 3 }
    } else {
        CardGeom { w: 9, h: 10, gap: 1, colon_w: 2 }
    }
}

/// Width of a row of `nd` cards and `nc` colons, with the slab's padding
/// and border; counts are taken as `u16`, as the layout takes them.
pub open spec fn row_width(c: CardGeom, num_digits: usize, num_colons: usize) -> int {
    let nd = num_digits as u16;
    let nc = num_colons as u16;
    let gaps = if nd >= 1 {
        nd - 1
    } else {
        0
    };
    nd * c.w + gaps * c.gap + nc * c.colon_w + nc * c.gap + 4
}

/// Whether a card size fits the available area.
pub open spec fn card_fits(c: CardGeom, avail_w: u16, avail_h: u16, num_digits: usize, num_colons: usize) -> bool {
    row_width(c, num_digits, num_colons) <= avail_w && c.h + 4 <= avail_h
}

/// The largest card size that fits, if any.
pub open spec fn chosen_card(avail_w: u16, avail_h: u16, num_digits: usize, num_colons: usize) -> Option<
    CardGeom,
> {
    if card_fits(card_candidate(0), avail_w, avail_h, num_digits, num_colons) {
        Some(card_candidate(0))
    } else if card_fits(card_candidate(1), avail_w, avail_h, num_digits, num_colons) {
        Some(card_candidate(1))
    } else if card_fits(card_candidate(2), avail_w, avail_h, num_digits, num_colons) {
        Some(card_candidate(2))
    } else if card_fits(card_candidate(3), avail_w, avail_h, num_digits, num_colons) {
        Some(card_candidate(3))
    } else {
        None
    }
}

fn row_width_exec(c: CardGeom, num_digits: usize, num_colons: usize) -> (r: u16)
    requires
        row_width(c, num_digits, num_colons) <= u16::MAX,
        c.w <= 13,
        c.gap <= 1,
        c.colon_w <= 4,
    ensures
        r == row_width(c, num_digits, num_colons),
{
    let nd = num_digits as u16;
    let nc = num_colons as u16;
    let gaps = if nd >= 1 {
        nd - 1
    } else {
        0
    };
    assert(nd * c.w <= row_width(c, num_digits, num_colons)) by (nonlinear_arith)
        requires
            row_width(c, num_digits, num_colons) == nd * c.w + gaps * c.gap + nc * c.colon_w + nc
                * c.gap + 4,
            gaps >= 0,
            c.gap >= 0,
            nc >= 0,
            c.colon_w >= 0,
    ;
    assert(gaps * c.gap >= 0 && nc * c.colon_w >= 0 && nc * c.gap >= 0) by (nonlinear_arith)
        requires
            gaps >= 0,
            c.gap >= 0,
            nc >= 0,
            c.colon_w >= 0,
    ;
    nd * c.w + gaps * c.gap + nc * c.colon_w + nc * c.gap + 4
}

/// The largest digit card size whose row fits `avail_w` x `avail_h`; see
/// `chosen_card`. The row of the largest size must fit a `u16`.
pub fn choose_card_size(avail_w: u16, avail_h: u16, num_digits: usize, num_colons: usize) -> (r:
    Option<CardGeom>)
    requires
        row_width(card_candidate(0), num_digits, num_colons) <= u16::MAX,
    ensures
        r == chosen_card(avail_w, avail_h, num_digits, num_colons),
{
    let c0 = CardGeom { w: 13, h: 11, gap: 1, colon_w: 4 };
    let c1 = CardGeom { w: 11, h: 11, gap: 1, colon_w: 3 };
    let c2 = CardGeom { w: 10, h: 10, gap: 1, colon_w: 3 };
    let c3 = CardGeom { w: 9, h: 10, gap: 1, colon_w: 2 };
    proof {
        let nd = num_digits as u16;
        let nc = num_colons as u16;
        assert(nd * 11 <= nd * 13 && nd * 10 <= nd * 13 && nd * 9 <= nd * 13) by (nonlinear_arith)
            requires
                nd >= 0,
        ;
        assert(nc * 3 <= nc * 4 && nc * 2 <= nc * 4) by (nonlinear_arith)
            requires
                nc >= 0,
        ;
    }
    if row_width_exec(c0, num_digits, num_colons) <= avail_w && c0.h + 4 <= avail_h {
        return Some(c0);
    }
    if row_width_exec(c1, num_digits, num_colons) <= avail_w && c1.h + 4 <= avail_h {
        return Some(c1);
    }
    if row_width_exec(c2, num_digits, num_colons) <= avail_w && c2.h + 4 <= avail_h {
        return Some(c2);
    }
    if row_width_exec(c3, num_digits, num_colons) <= avail_w && c3.h + 4 <= avail_h {
        return Some(c3);
    }
    None
}

/// Where the dots of a colon go and their colour: both at the middle column,
/// one two rows above the middle row (clamped to the top) and one a row
/// below it.
#[derive(Clone, Copy, PartialEq, Eq, Debug, Structural)]
pub struct ColonPlan {
    pub color: Color,
    pub dot_x: u16,
    pub dot_y1: u16,
    pub dot_y2: u16,
}

/// Whether a colon at `(x, y)` of `w` x `h` is drawn in a `buf_w` x `buf_h`
/// buffer: it must fit.
pub open spec fn colon_drawn(buf_w: u16, buf_h: u16, x: u16, y: u16, w: u16, h: u16) -> bool {
    x + w <= buf_w && y + h <= buf_h
}

/// Whether a colon is drawn; see `colon_drawn`.
pub fn colon_fits(buf_w: u16, buf_h: u16, x: u16, y: u16, w: u16, h: u16) -> (r: bool)
    ensures
        r == colon_drawn(buf_w, buf_h, x, y, w, h),
{
    (x as u32) + (w as u32) <= buf_w as u32 && (y as u32) + (h as u32) <= buf_h as u32
}

/// The dots of a colon: yellow while flashing, the main text colour when on,
/// muted when off.
pub fn colon_plan(x: u16, y: u16, w: u16, h: u16, on: bool, flash: bool, th: &Theme) -> (r: ColonPlan)
    requires
        x + w <= u16::MAX,
        y + h / 2 + 1 <= u16::MAX,
    ensures
        r.color == (if flash {
            th.accent_yellow
        } else if on {
            th.text_main
        } else {
            th.text_muted
        }),
        r.dot_x == x + w / 2,
        r.dot_y1 == y + (if h / 2 >= 2 {
            h / 2 - 2
        } else {
            0
        }),
        r.dot_y2 == y + h / 2 + 1,
{
    let color = if flash {
        th.accent_yellow
    } else if on {
        th.text_main
    } else {
        th.text_muted
    };
    let mid = h / 2;
    let up = if mid >= 2 {
        mid - 2
    } else {
        0
    };
    ColonPlan { color, dot_x: x + w / 2, dot_y1: y + up, dot_y2: y + mid + 1 }
}

} // verus!
