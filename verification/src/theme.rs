use vstd::prelude::*;

verus! {

/// A terminal colour: one of the named colours the themes use, an RGB
/// triple, or `Reset`, which leaves the terminal's own colour showing.
#[derive(Clone, Copy, PartialEq, Eq, Debug, Structural)]
pub enum Color {
    Reset,
    DarkGray,
    Gray,
    LightRed,
    LightGreen,
    LightBlue,
    LightYellow,
    White,
    Rgb(u8, u8, u8),
}

/// The near-black used for text drawn on an accent colour.
pub open spec fn ink() -> Color {
    Color::Rgb(16, 16, 18)
}

/// A named palette.
#[derive(Clone, Copy, Debug)]
pub struct Theme {
    pub name: &'static str,
    pub bg: Color,
    pub slab_bg: Color,
    pub card_top_bg: Color,
    pub card_bottom_bg: Color,
    pub card_border: Color,
    pub card_border_dim: Color,
    pub text_main: Color,
    pub text_dim: Color,
    pub text_muted: Color,
    pub accent_red: Color,
    pub accent_green: Color,
    pub accent_blue: Color,
    pub accent_yellow: Color,
    pub popup_bg: Color,
    pub transparent: bool,
}

/// How many themes there are.
pub const THEME_COUNT: usize = 7;

/// The theme table, in the order the themes are cycled: System (terminal),
/// Everforest, Catppuccin Mocha, Tokyonight Night, Gruvbox Dark, Rose Pine,
/// Terafox.
pub open spec fn theme_table(i: int) -> Theme {
    if i == 0 {
        Theme {
            name: "System (terminal)",
            bg: Color::Reset,
            slab_bg: Color::Reset,
            card_top_bg: Color::Reset,
            card_bottom_bg: Color::Reset,
            card_border: Color::DarkGray,
            card_border_dim: Color::DarkGray,
            text_main: Color::Reset,
            text_dim: Color::Gray,
            text_muted: Color::DarkGray,
            accent_red: Color::LightRed,
            accent_green: Color::LightGreen,
            accent_blue: Color::LightBlue,
            accent_yellow: Color::LightYellow,
            popup_bg: Color::Reset,
            transparent: true,
        }
    } else
    if i == 1 {
        Theme {
            name: "Everforest",
            bg: Color::Rgb(43, 51, 57),
            slab_bg: Color::Rgb(35, 42, 46),
            card_top_bg: Color::Rgb(54, 62, 68),
            card_bottom_bg: Color::Rgb(60, 69, 75),
            card_border: Color::Rgb(93, 106, 107),
            card_border_dim: Color::Rgb(58, 66, 67),
            text_main: Color::Rgb(211, 198, 170),
            text_dim: Color::Rgb(152, 160, 140),
            text_muted: Color::Rgb(122, 132, 120),
            accent_red: Color::Rgb(230, 126, 128),
            accent_green: Color::Rgb(167, 192, 128),
            accent_blue: Color::Rgb(127, 187, 179),
            accent_yellow: Color::Rgb(219, 188, 127),
            popup_bg: Color::Rgb(35, 42, 46),
            transparent: false,
        }
    } else
    if i == 2 {
        Theme {
            name: "Catppuccin Mocha",
            bg: Color::Rgb(30, 30, 46),
            slab_bg: Color::Rgb(24, 24, 37),
            card_top_bg: Color::Rgb(49, 50, 68),
            card_bottom_bg: Color::Rgb(56, 57, 76),
            card_border: Color::Rgb(88, 91, 112),
            card_border_dim: Color::Rgb(49, 50, 68),
            text_main: Color::Rgb(205, 214, 244),
            text_dim: Color::Rgb(166, 173, 200),
            text_muted: Color::Rgb(127, 132, 156),
            accent_red: Color::Rgb(243, 139, 168),
            accent_green: Color::Rgb(166, 227, 161),
            accent_blue: Color::Rgb(137, 180, 250),
            accent_yellow: Color::Rgb(249, 226, 175),
            popup_bg: Color::Rgb(24, 24, 37),
            transparent: false,
        }
    } else
    if i == 3 {
        Theme {
            name: "Tokyonight Night",
            bg: Color::Rgb(26, 27, 38),
            slab_bg: Color::Rgb(22, 22, 30),
            card_top_bg: Color::Rgb(36, 40, 59),
            card_bottom_bg: Color::Rgb(42, 46, 67),
            card_border: Color::Rgb(59, 66, 97),
            card_border_dim: Color::Rgb(36, 40, 59),
            text_main: Color::Rgb(192, 202, 245),
            text_dim: Color::Rgb(137, 144, 178),
            text_muted: Color::Rgb(86, 95, 137),
            accent_red: Color::Rgb(247, 118, 142),
            accent_green: Color::Rgb(158, 206, 106),
            accent_blue: Color::Rgb(122, 162, 247),
            accent_yellow: Color::Rgb(224, 175, 104),
            popup_bg: Color::Rgb(22, 22, 30),
            transparent: false,
        }
    } else
    if i == 4 {
        Theme {
            name: "Gruvbox Dark",
            bg: Color::Rgb(40, 40, 40),
            slab_bg: Color::Rgb(29, 32, 33),
            card_top_bg: Color::Rgb(60, 56, 54),
            card_bottom_bg: Color::Rgb(66, 62, 59),
            card_border: Color::Rgb(102, 92, 84),
            card_border_dim: Color::Rgb(60, 56, 54),
            text_main: Color::Rgb(235, 219, 178),
            text_dim: Color::Rgb(189, 174, 147),
            text_muted: Color::Rgb(146, 131, 116),
            accent_red: Color::Rgb(251, 73, 52),
            accent_green: Color::Rgb(184, 187, 38),
            accent_blue: Color::Rgb(131, 165, 152),
            accent_yellow: Color::Rgb(250, 189, 47),
            popup_bg: Color::Rgb(29, 32, 33),
            transparent: false,
        }
    } else
    if i == 5 {
        Theme {
            name: "Rosé Pine",
            bg: Color::Rgb(25, 23, 36),
            slab_bg: Color::Rgb(31, 29, 46),
            card_top_bg: Color::Rgb(38, 35, 58),
            card_bottom_bg: Color::Rgb(43, 40, 64),
            card_border: Color::Rgb(64, 61, 82),
            card_border_dim: Color::Rgb(38, 35, 58),
            text_main: Color::Rgb(224, 222, 244),
            text_dim: Color::Rgb(144, 140, 170),
            text_muted: Color::Rgb(110, 106, 134),
            accent_red: Color::Rgb(235, 111, 146),
            accent_green: Color::Rgb(156, 207, 216),
            accent_blue: Color::Rgb(196, 167, 231),
            accent_yellow: Color::Rgb(246, 193, 119),
            popup_bg: Color::Rgb(31, 29, 46),
            transparent: false,
        }
    } else
 {
        Theme {
            name: "Terafox",
            bg: Color::Rgb(15, 28, 30),
            slab_bg: Color::Rgb(16, 33, 36),
            card_top_bg: Color::Rgb(27, 46, 49),
            card_bottom_bg: Color::Rgb(32, 53, 56),
            card_border: Color::Rgb(67, 92, 96),
            card_border_dim: Color::Rgb(35, 56, 60),
            text_main: Color::Rgb(234, 238, 238),
            text_dim: Color::Rgb(170, 185, 185),
            text_muted: Color::Rgb(113, 131, 133),
            accent_red: Color::Rgb(232, 92, 81),
            accent_green: Color::Rgb(122, 181, 110),
            accent_blue: Color::Rgb(108, 170, 216),
            accent_yellow: Color::Rgb(231, 203, 123),
            popup_bg: Color::Rgb(16, 33, 36),
            transparent: false,
        }
    }
}

/// The theme at position `i` of the table.
pub fn theme_at(i: usize) -> (t: Theme)
    requires
        i < THEME_COUNT,
    ensures
        t == theme_table(i as int),
{
    match i {
        0 => Theme {
            name: "System (terminal)",
            bg: Color::Reset,
            slab_bg: Color::Reset,
            card_top_bg: Color::Reset,
            card_bottom_bg: Color::Reset,
            card_border: Color::DarkGray,
            card_border_dim: Color::DarkGray,
            text_main: Color::Reset,
            text_dim: Color::Gray,
            text_muted: Color::DarkGray,
            accent_red: Color::LightRed,
            accent_green: Color::LightGreen,
            accent_blue: Color::LightBlue,
            accent_yellow: Color::LightYellow,
            popup_bg: Color::Reset,
            transparent: true,
        },
        1 => Theme {
            name: "Everforest",
            bg: Color::Rgb(43, 51, 57),
            slab_bg: Color::Rgb(35, 42, 46),
            card_top_bg: Color::Rgb(54, 62, 68),
            card_bottom_bg: Color::Rgb(60, 69, 75),
            card_border: Color::Rgb(93, 106, 107),
            card_border_dim: Color::Rgb(58, 66, 67),
            text_main: Color::Rgb(211, 198, 170),
            text_dim: Color::Rgb(152, 160, 140),
            text_muted: Color::Rgb(122, 132, 120),
            accent_red: Color::Rgb(230, 126, 128),
            accent_green: Color::Rgb(167, 192, 128),
            accent_blue: Color::Rgb(127, 187, 179),
            accent_yellow: Color::Rgb(219, 188, 127),
            popup_bg: Color::Rgb(35, 42, 46),
            transparent: false,
        },
        2 => Theme {
            name: "Catppuccin Mocha",
            bg: Color::Rgb(30, 30, 46),
            slab_bg: Color::Rgb(24, 24, 37),
            card_top_bg: Color::Rgb(49, 50, 68),
            card_bottom_bg: Color::Rgb(56, 57, 76),
            card_border: Color::Rgb(88, 91, 112),
            card_border_dim: Color::Rgb(49, 50, 68),
            text_main: Color::Rgb(205, 214, 244),
            text_dim: Color::Rgb(166, 173, 200),
            text_muted: Color::Rgb(127, 132, 156),
            accent_red: Color::Rgb(243, 139, 168),
            accent_green: Color::Rgb(166, 227, 161),
            accent_blue: Color::Rgb(137, 180, 250),
            accent_yellow: Color::Rgb(249, 226, 175),
            popup_bg: Color::Rgb(24, 24, 37),
            transparent: false,
        },
        3 => Theme {
            name: "Tokyonight Night",
            bg: Color::Rgb(26, 27, 38),
            slab_bg: Color::Rgb(22, 22, 30),
            card_top_bg: Color::Rgb(36, 40, 59),
            card_bottom_bg: Color::Rgb(42, 46, 67),
            card_border: Color::Rgb(59, 66, 97),
            card_border_dim: Color::Rgb(36, 40, 59),
            text_main: Color::Rgb(192, 202, 245),
            text_dim: Color::Rgb(137, 144, 178),
            text_muted: Color::Rgb(86, 95, 137),
            accent_red: Color::Rgb(247, 118, 142),
            accent_green: Color::Rgb(158, 206, 106),
            accent_blue: Color::Rgb(122, 162, 247),
            accent_yellow: Color::Rgb(224, 175, 104),
            popup_bg: Color::Rgb(22, 22, 30),
            transparent: false,
        },
        4 => Theme {
            name: "Gruvbox Dark",
            bg: Color::Rgb(40, 40, 40),
            slab_bg: Color::Rgb(29, 32, 33),
            card_top_bg: Color::Rgb(60, 56, 54),
            card_bottom_bg: Color::Rgb(66, 62, 59),
            card_border: Color::Rgb(102, 92, 84),
            card_border_dim: Color::Rgb(60, 56, 54),
            text_main: Color::Rgb(235, 219, 178),
            text_dim: Color::Rgb(189, 174, 147),
            text_muted: Color::Rgb(146, 131, 116),
            accent_red: Color::Rgb(251, 73, 52),
            accent_green: Color::Rgb(184, 187, 38),
            accent_blue: Color::Rgb(131, 165, 152),
            accent_yellow: Color::Rgb(250, 189, 47),
            popup_bg: Color::Rgb(29, 32, 33),
            transparent: false,
        },
        5 => Theme {
            name: "Rosé Pine",
            bg: Color::Rgb(25, 23, 36),
            slab_bg: Color::Rgb(31, 29, 46),
            card_top_bg: Color::Rgb(38, 35, 58),
            card_bottom_bg: Color::Rgb(43, 40, 64),
            card_border: Color::Rgb(64, 61, 82),
            card_border_dim: Color::Rgb(38, 35, 58),
            text_main: Color::Rgb(224, 222, 244),
            text_dim: Color::Rgb(144, 140, 170),
            text_muted: Color::Rgb(110, 106, 134),
            accent_red: Color::Rgb(235, 111, 146),
            accent_green: Color::Rgb(156, 207, 216),
            accent_blue: Color::Rgb(196, 167, 231),
            accent_yellow: Color::Rgb(246, 193, 119),
            popup_bg: Color::Rgb(31, 29, 46),
            transparent: false,
        },
        _ => Theme {
            name: "Terafox",
            bg: Color::Rgb(15, 28, 30),
            slab_bg: Color::Rgb(16, 33, 36),
            card_top_bg: Color::Rgb(27, 46, 49),
            card_bottom_bg: Color::Rgb(32, 53, 56),
            card_border: Color::Rgb(67, 92, 96),
            card_border_dim: Color::Rgb(35, 56, 60),
            text_main: Color::Rgb(234, 238, 238),
            text_dim: Color::Rgb(170, 185, 185),
            text_muted: Color::Rgb(113, 131, 133),
            accent_red: Color::Rgb(232, 92, 81),
            accent_green: Color::Rgb(122, 181, 110),
            accent_blue: Color::Rgb(108, 170, 216),
            accent_yellow: Color::Rgb(231, 203, 123),
            popup_bg: Color::Rgb(16, 33, 36),
            transparent: false,
        },
    }
}

/// The theme after `i`, wrapping around.
pub fn next_theme_index(i: usize) -> (r: usize)
    requires
        i < THEME_COUNT,
    ensures
        r == (i + 1) % (THEME_COUNT as int),
{
    (i + 1) % THEME_COUNT
}

/// The theme before `i`, wrapping around.
pub fn prev_theme_index(i: usize) -> (r: usize)
    requires
        i < THEME_COUNT,
    ensures
        r == (i + THEME_COUNT - 1) % (THEME_COUNT as int),
{
    (i + THEME_COUNT - 1) % THEME_COUNT
}

} // verus!
