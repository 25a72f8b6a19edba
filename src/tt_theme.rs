use vstd::prelude::*;
use crate::display::{Color, Font, IconId};
use crate::geometry::Insets;
use crate::tt_button::{ButtonStyle, ButtonStyleSheet};

verus! {

pub const FONT_NORMAL: Font = Font::Normal;
pub const FONT_MEDIUM: Font = Font::Medium;
pub const FONT_BOLD: Font = Font::Bold;
pub const FONT_MONO: Font = Font::Mono;

// Typical backlight values.
pub const BACKLIGHT_NORMAL: i32 = 150;
pub const BACKLIGHT_LOW: i32 = 45;
pub const BACKLIGHT_DIM: i32 = 5;
pub const BACKLIGHT_NONE: i32 = 2;
pub const BACKLIGHT_MAX: i32 = 255;

// The palette, as RGB565 values.
/// `Color::rgb(255, 255, 255)`.
pub const WHITE: u16 = 65535;
/// `Color::rgb(0, 0, 0)`.
pub const BLACK: u16 = 0;
/// `Color::rgb(205, 73, 73)`.
pub const RED: u16 = 51785;
/// `Color::rgb(166, 45, 45)`.
pub const RED_DARK: u16 = 41317;
/// `Color::rgb(193, 144, 9)`.
pub const YELLOW: u16 = 50305;
/// `Color::rgb(154, 115, 6)`.
pub const YELLOW_DARK: u16 = 39808;
/// `Color::rgb(57, 168, 20)`.
pub const GREEN: u16 = 15682;
/// `Color::rgb(48, 147, 15)`.
pub const GREEN_DARK: u16 = 13441;
/// `Color::rgb(0, 86, 190)`.
pub const BLUE: u16 = 695;
/// `Color::rgb(222, 222, 222)`.
pub const OFF_WHITE: u16 = 57083;
/// `Color::rgb(168, 168, 168)`.
pub const GREY_LIGHT: u16 = 44373;
/// `Color::rgb(100, 100, 100)`.
pub const GREY_MEDIUM: u16 = 25388;
/// `Color::rgb(51, 51, 51)`.
pub const GREY_DARK: u16 = 12678;
/// `Color::rgb(0, 23, 163)`.
pub const BLD_BG: u16 = 180;
/// Default foreground (text and icons).
pub const FG: u16 = WHITE;
/// Default background.
pub const BG: u16 = BLACK;
pub const BLD_FG: u16 = WHITE;
/// Opacities out of 255.
pub const ALPHA_11: u8 = 28;
pub const ALPHA_22: u8 = 56;
pub const ALPHA_33: u8 = 84;
pub const ALPHA_75: u8 = 191;
/// `Color::rgba(BLD_BG, 0xFF, 0xFF, 0xFF, ALPHA_22)`.
pub const BLD_BTN_MENU_COLOR: u16 = 14902;
/// `Color::rgba(BLD_BG, 0xFF, 0xFF, 0xFF, ALPHA_11)`.
pub const BLD_BTN_MENU_COLOR_ACTIVE: u16 = 6517;
/// `Color::rgba(BLD_BG, 0xFF, 0xFF, 0xFF, ALPHA_33)`.
pub const BLD_BTN_MENUITEM_COLOR: u16 = 21271;
/// `Color::rgba(BLD_BG, 0xFF, 0xFF, 0xFF, ALPHA_11)`.
pub const BLD_BTN_MENUITEM_COLOR_ACTIVE: u16 = 6517;
/// `Color::rgba(BLD_BG, 0xFF, 0xFF, 0xFF, ALPHA_75)`.
pub const BLD_TITLE_COLOR: u16 = 48700;

/// Corner radius of buttons.
pub const RADIUS: u8 = 2;
/// Size of icons inside buttons.
pub const ICON_SIZE: i32 = 16;

pub const ICON_CANCEL: IconId = IconId::Cancel;
pub const ICON_CONFIRM: IconId = IconId::Confirm;
pub const ICON_SPACE: IconId = IconId::Space;
pub const ICON_BACK: IconId = IconId::Back;
pub const ICON_CLICK: IconId = IconId::Click;
pub const ICON_NEXT: IconId = IconId::Next;
pub const CLOSE: IconId = IconId::Close;
pub const RESET: IconId = IconId::Reset;
pub const FWINFO: IconId = IconId::FwInfo;
pub const REBOOT: IconId = IconId::Reboot;
pub const MENU: IconId = IconId::Menu;
pub const RECEIVE: IconId = IconId::Receive;
pub const INFO: IconId = IconId::Info;

/// How a plain label is drawn.
#[derive(Copy, Clone, Debug, PartialEq, Eq, Structural)]
pub struct LabelStyle {
    pub font: Font,
    pub text_color: Color,
    pub background_color: Color,
}

/// An icon and its color.
#[derive(Copy, Clone, Debug, PartialEq, Eq, Structural)]
pub struct ColoredIcon {
    pub icon: IconId,
    pub color: Color,
}

/// How a progress loader is drawn, with an optional icon in its middle.
#[derive(Copy, Clone, Debug, PartialEq, Eq, Structural)]
pub struct LoaderStyle {
    pub icon: Option<ColoredIcon>,
    pub loader_color: Color,
    pub background_color: Color,
}

#[derive(Copy, Clone, Debug, PartialEq, Eq, Structural)]
pub struct LoaderStyleSheet {
    pub normal: LoaderStyle,
    pub active: LoaderStyle,
}

/// Fonts and colors of running text.
#[derive(Copy, Clone, Debug, PartialEq, Eq, Structural)]
pub struct TextTheme {
    pub background_color: Color,
    pub text_font: Font,
    pub text_color: Color,
    pub hyphen_font: Font,
    pub hyphen_color: Color,
    pub ellipsis_font: Font,
    pub ellipsis_color: Color,
    pub normal_font: Font,
    pub medium_font: Font,
    pub bold_font: Font,
    pub mono_font: Font,
}

/// Normal white text on black.
pub fn label_default() -> (s: LabelStyle)
    ensures
        s == (LabelStyle { font: FONT_NORMAL, text_color: Color { value: FG }, background_color: Color { value: BG } }),
{
    LabelStyle { font: FONT_NORMAL, text_color: Color { value: FG }, background_color: Color { value: BG } }
}

/// Medium off-white text on black.
pub fn label_keyboard() -> (s: LabelStyle)
    ensures
        s == (LabelStyle { font: FONT_MEDIUM, text_color: Color { value: OFF_WHITE }, background_color: Color { value: BG } }),
{
    LabelStyle { font: FONT_MEDIUM, text_color: Color { value: OFF_WHITE }, background_color: Color { value: BG } }
}

/// Medium red text on black.
pub fn label_keyboard_warning() -> (s: LabelStyle)
    ensures
        s == (LabelStyle { font: FONT_MEDIUM, text_color: Color { value: RED }, background_color: Color { value: BG } }),
{
    LabelStyle { font: FONT_MEDIUM, text_color: Color { value: RED }, background_color: Color { value: BG } }
}

/// Normal off-white text on black.
pub fn label_keyboard_minor() -> (s: LabelStyle)
    ensures
        s == (LabelStyle { font: FONT_NORMAL, text_color: Color { value: OFF_WHITE }, background_color: Color { value: BG } }),
{
    LabelStyle { font: FONT_NORMAL, text_color: Color { value: OFF_WHITE }, background_color: Color { value: BG } }
}

/// Grey buttons on black.
pub fn button_default() -> (s: ButtonStyleSheet)
    ensures
        s == (ButtonStyleSheet {
            normal: ButtonStyle { font: FONT_BOLD, text_color: Color { value: FG }, button_color: Color { value: GREY_DARK }, background_color: Color { value: BG }, border_color: Color { value: BG }, border_radius: RADIUS, border_width: 0 },
            active: ButtonStyle { font: FONT_BOLD, text_color: Color { value: FG }, button_color: Color { value: GREY_MEDIUM }, background_color: Color { value: BG }, border_color: Color { value: FG }, border_radius: RADIUS, border_width: 0 },
            disabled: ButtonStyle { font: FONT_BOLD, text_color: Color { value: GREY_LIGHT }, button_color: Color { value: GREY_DARK }, background_color: Color { value: BG }, border_color: Color { value: BG }, border_radius: RADIUS, border_width: 0 },
        }),
{
    ButtonStyleSheet {
        normal: ButtonStyle { font: FONT_BOLD, text_color: Color { value: FG }, button_color: Color { value: GREY_DARK }, background_color: Color { value: BG }, border_color: Color { value: BG }, border_radius: RADIUS, border_width: 0 },
        active: ButtonStyle { font: FONT_BOLD, text_color: Color { value: FG }, button_color: Color { value: GREY_MEDIUM }, background_color: Color { value: BG }, border_color: Color { value: FG }, border_radius: RADIUS, border_width: 0 },
        disabled: ButtonStyle { font: FONT_BOLD, text_color: Color { value: GREY_LIGHT }, button_color: Color { value: GREY_DARK }, background_color: Color { value: BG }, border_color: Color { value: BG }, border_radius: RADIUS, border_width: 0 },
    }
}

/// Green buttons on black.
pub fn button_confirm() -> (s: ButtonStyleSheet)
    ensures
        s == (ButtonStyleSheet {
            normal: ButtonStyle { font: FONT_BOLD, text_color: Color { value: FG }, button_color: Color { value: GREEN }, background_color: Color { value: BG }, border_color: Color { value: BG }, border_radius: RADIUS, border_width: 0 },
            active: ButtonStyle { font: FONT_BOLD, text_color: Color { value: FG }, button_color: Color { value: GREEN_DARK }, background_color: Color { value: BG }, border_color: Color { value: FG }, border_radius: RADIUS, border_width: 0 },
            disabled: ButtonStyle { font: FONT_BOLD, text_color: Color { value: FG }, button_color: Color { value: GREEN }, background_color: Color { value: BG }, border_color: Color { value: BG }, border_radius: RADIUS, border_width: 0 },
        }),
{
    ButtonStyleSheet {
        normal: ButtonStyle { font: FONT_BOLD, text_color: Color { value: FG }, button_color: Color { value: GREEN }, background_color: Color { value: BG }, border_color: Color { value: BG }, border_radius: RADIUS, border_width: 0 },
        active: ButtonStyle { font: FONT_BOLD, text_color: Color { value: FG }, button_color: Color { value: GREEN_DARK }, background_color: Color { value: BG }, border_color: Color { value: FG }, border_radius: RADIUS, border_width: 0 },
        disabled: ButtonStyle { font: FONT_BOLD, text_color: Color { value: FG }, button_color: Color { value: GREEN }, background_color: Color { value: BG }, border_color: Color { value: BG }, border_radius: RADIUS, border_width: 0 },
    }
}

/// Red buttons on black.
pub fn button_cancel() -> (s: ButtonStyleSheet)
    ensures
        s == (ButtonStyleSheet {
            normal: ButtonStyle { font: FONT_BOLD, text_color: Color { value: FG }, button_color: Color { value: RED }, background_color: Color { value: BG }, border_color: Color { value: BG }, border_radius: RADIUS, border_width: 0 },
            active: ButtonStyle { font: FONT_BOLD, text_color: Color { value: FG }, button_color: Color { value: RED_DARK }, background_color: Color { value: BG }, border_color: Color { value: FG }, border_radius: RADIUS, border_width: 0 },
            disabled: ButtonStyle { font: FONT_BOLD, text_color: Color { value: GREY_LIGHT }, button_color: Color { value: RED }, background_color: Color { value: BG }, border_color: Color { value: BG }, border_radius: RADIUS, border_width: 0 },
        }),
{
    ButtonStyleSheet {
        normal: ButtonStyle { font: FONT_BOLD, text_color: Color { value: FG }, button_color: Color { value: RED }, background_color: Color { value: BG }, border_color: Color { value: BG }, border_radius: RADIUS, border_width: 0 },
        active: ButtonStyle { font: FONT_BOLD, text_color: Color { value: FG }, button_color: Color { value: RED_DARK }, background_color: Color { value: BG }, border_color: Color { value: FG }, border_radius: RADIUS, border_width: 0 },
        disabled: ButtonStyle { font: FONT_BOLD, text_color: Color { value: GREY_LIGHT }, button_color: Color { value: RED }, background_color: Color { value: BG }, border_color: Color { value: BG }, border_radius: RADIUS, border_width: 0 },
    }
}

/// Yellow buttons on black.
pub fn button_reset() -> (s: ButtonStyleSheet)
    ensures
        s == (ButtonStyleSheet {
            normal: ButtonStyle { font: FONT_BOLD, text_color: Color { value: FG }, button_color: Color { value: YELLOW }, background_color: Color { value: BG }, border_color: Color { value: BG }, border_radius: RADIUS, border_width: 0 },
            active: ButtonStyle { font: FONT_BOLD, text_color: Color { value: FG }, button_color: Color { value: YELLOW_DARK }, background_color: Color { value: BG }, border_color: Color { value: FG }, border_radius: RADIUS, border_width: 0 },
            disabled: ButtonStyle { font: FONT_BOLD, text_color: Color { value: GREY_LIGHT }, button_color: Color { value: YELLOW }, background_color: Color { value: BG }, border_color: Color { value: BG }, border_radius: RADIUS, border_width: 0 },
        }),
{
    ButtonStyleSheet {
        normal: ButtonStyle { font: FONT_BOLD, text_color: Color { value: FG }, button_color: Color { value: YELLOW }, background_color: Color { value: BG }, border_color: Color { value: BG }, border_radius: RADIUS, border_width: 0 },
        active: ButtonStyle { font: FONT_BOLD, text_color: Color { value: FG }, button_color: Color { value: YELLOW_DARK }, background_color: Color { value: BG }, border_color: Color { value: FG }, border_radius: RADIUS, border_width: 0 },
        disabled: ButtonStyle { font: FONT_BOLD, text_color: Color { value: GREY_LIGHT }, button_color: Color { value: YELLOW }, background_color: Color { value: BG }, border_color: Color { value: BG }, border_radius: RADIUS, border_width: 0 },
    }
}

/// Keypad buttons: the button color matches the background.
pub fn button_pin() -> (s: ButtonStyleSheet)
    ensures
        s == (ButtonStyleSheet {
            normal: ButtonStyle { font: FONT_MONO, text_color: Color { value: FG }, button_color: Color { value: BG }, background_color: Color { value: BG }, border_color: Color { value: BG }, border_radius: RADIUS, border_width: 0 },
            active: ButtonStyle { font: FONT_MONO, text_color: Color { value: FG }, button_color: Color { value: GREY_DARK }, background_color: Color { value: BG }, border_color: Color { value: FG }, border_radius: RADIUS, border_width: 0 },
            disabled: ButtonStyle { font: FONT_MONO, text_color: Color { value: GREY_LIGHT }, button_color: Color { value: BG }, background_color: Color { value: BG }, border_color: Color { value: BG }, border_radius: RADIUS, border_width: 0 },
        }),
{
    ButtonStyleSheet {
        normal: ButtonStyle { font: FONT_MONO, text_color: Color { value: FG }, button_color: Color { value: BG }, background_color: Color { value: BG }, border_color: Color { value: BG }, border_radius: RADIUS, border_width: 0 },
        active: ButtonStyle { font: FONT_MONO, text_color: Color { value: FG }, button_color: Color { value: GREY_DARK }, background_color: Color { value: BG }, border_color: Color { value: FG }, border_radius: RADIUS, border_width: 0 },
        disabled: ButtonStyle { font: FONT_MONO, text_color: Color { value: GREY_LIGHT }, button_color: Color { value: BG }, background_color: Color { value: BG }, border_color: Color { value: BG }, border_radius: RADIUS, border_width: 0 },
    }
}

pub open spec fn button_bld_menu_spec() -> ButtonStyleSheet {
    ButtonStyleSheet {
        normal: ButtonStyle { font: FONT_BOLD, text_color: Color { value: BLD_FG }, button_color: Color { value: BLD_BTN_MENU_COLOR }, background_color: Color { value: BLD_BG }, border_color: Color { value: BLD_BG }, border_radius: 4, border_width: 0 },
        active: ButtonStyle { font: FONT_BOLD, text_color: Color { value: BLD_FG }, button_color: Color { value: BLD_BTN_MENU_COLOR_ACTIVE }, background_color: Color { value: BLD_BG }, border_color: Color { value: BLD_BG }, border_radius: 4, border_width: 0 },
        disabled: ButtonStyle { font: FONT_BOLD, text_color: Color { value: GREY_LIGHT }, button_color: Color { value: BLD_BTN_MENU_COLOR }, background_color: Color { value: BLD_BG }, border_color: Color { value: BLD_BG }, border_radius: 4, border_width: 0 },
    }
}

/// Translucent menu button on the bootloader blue.
pub fn button_bld_menu() -> (s: ButtonStyleSheet)
    ensures
        s == (ButtonStyleSheet {
            normal: ButtonStyle { font: FONT_BOLD, text_color: Color { value: BLD_FG }, button_color: Color { value: BLD_BTN_MENU_COLOR }, background_color: Color { value: BLD_BG }, border_color: Color { value: BLD_BG }, border_radius: 4, border_width: 0 },
            active: ButtonStyle { font: FONT_BOLD, text_color: Color { value: BLD_FG }, button_color: Color { value: BLD_BTN_MENU_COLOR_ACTIVE }, background_color: Color { value: BLD_BG }, border_color: Color { value: BLD_BG }, border_radius: 4, border_width: 0 },
            disabled: ButtonStyle { font: FONT_BOLD, text_color: Color { value: GREY_LIGHT }, button_color: Color { value: BLD_BTN_MENU_COLOR }, background_color: Color { value: BLD_BG }, border_color: Color { value: BLD_BG }, border_radius: 4, border_width: 0 },
        }),
{
    ButtonStyleSheet {
        normal: ButtonStyle { font: FONT_BOLD, text_color: Color { value: BLD_FG }, button_color: Color { value: BLD_BTN_MENU_COLOR }, background_color: Color { value: BLD_BG }, border_color: Color { value: BLD_BG }, border_radius: 4, border_width: 0 },
        active: ButtonStyle { font: FONT_BOLD, text_color: Color { value: BLD_FG }, button_color: Color { value: BLD_BTN_MENU_COLOR_ACTIVE }, background_color: Color { value: BLD_BG }, border_color: Color { value: BLD_BG }, border_radius: 4, border_width: 0 },
        disabled: ButtonStyle { font: FONT_BOLD, text_color: Color { value: GREY_LIGHT }, button_color: Color { value: BLD_BTN_MENU_COLOR }, background_color: Color { value: BLD_BG }, border_color: Color { value: BLD_BG }, border_radius: 4, border_width: 0 },
    }
}

/// Translucent menu entries on the bootloader blue.
pub fn button_bld_menu_item() -> (s: ButtonStyleSheet)
    ensures
        s == (ButtonStyleSheet {
            normal: ButtonStyle { font: FONT_BOLD, text_color: Color { value: BLD_FG }, button_color: Color { value: BLD_BTN_MENUITEM_COLOR }, background_color: Color { value: BLD_BG }, border_color: Color { value: BLD_BG }, border_radius: 4, border_width: 0 },
            active: ButtonStyle { font: FONT_BOLD, text_color: Color { value: BLD_FG }, button_color: Color { value: BLD_BTN_MENUITEM_COLOR_ACTIVE }, background_color: Color { value: BLD_BG }, border_color: Color { value: BLD_BG }, border_radius: 4, border_width: 0 },
            disabled: ButtonStyle { font: FONT_BOLD, text_color: Color { value: GREY_LIGHT }, button_color: Color { value: BLD_BTN_MENUITEM_COLOR }, background_color: Color { value: BLD_BG }, border_color: Color { value: BLD_BG }, border_radius: 4, border_width: 0 },
        }),
{
    ButtonStyleSheet {
        normal: ButtonStyle { font: FONT_BOLD, text_color: Color { value: BLD_FG }, button_color: Color { value: BLD_BTN_MENUITEM_COLOR }, background_color: Color { value: BLD_BG }, border_color: Color { value: BLD_BG }, border_radius: 4, border_width: 0 },
        active: ButtonStyle { font: FONT_BOLD, text_color: Color { value: BLD_FG }, button_color: Color { value: BLD_BTN_MENUITEM_COLOR_ACTIVE }, background_color: Color { value: BLD_BG }, border_color: Color { value: BLD_BG }, border_radius: 4, border_width: 0 },
        disabled: ButtonStyle { font: FONT_BOLD, text_color: Color { value: GREY_LIGHT }, button_color: Color { value: BLD_BTN_MENUITEM_COLOR }, background_color: Color { value: BLD_BG }, border_color: Color { value: BLD_BG }, border_radius: 4, border_width: 0 },
    }
}

pub open spec fn button_default_spec() -> ButtonStyleSheet {
    ButtonStyleSheet { normal: ButtonStyle { font: FONT_BOLD, text_color: Color { value: FG }, button_color: Color { value: GREY_DARK }, background_color: Color { value: BG }, border_color: Color { value: BG }, border_radius: RADIUS, border_width: 0 }, active: ButtonStyle { font: FONT_BOLD, text_color: Color { value: FG }, button_color: Color { value: GREY_MEDIUM }, background_color: Color { value: BG }, border_color: Color { value: FG }, border_radius: RADIUS, border_width: 0 }, disabled: ButtonStyle { font: FONT_BOLD, text_color: Color { value: GREY_LIGHT }, button_color: Color { value: GREY_DARK }, background_color: Color { value: BG }, border_color: Color { value: BG }, border_radius: RADIUS, border_width: 0 } }
}

/// The same as the default buttons.
pub fn button_clear() -> (s: ButtonStyleSheet)
    ensures
        s == button_default_spec(),
{
    button_default()
}

/// White loader, turning green while active, without an icon.
pub fn loader_default() -> (s: LoaderStyleSheet)
    ensures
        s == (LoaderStyleSheet {
            normal: LoaderStyle { icon: None, loader_color: Color { value: FG }, background_color: Color { value: BG } },
            active: LoaderStyle { icon: None, loader_color: Color { value: GREEN }, background_color: Color { value: BG } },
        }),
{
    LoaderStyleSheet {
        normal: LoaderStyle { icon: None, loader_color: Color { value: FG }, background_color: Color { value: BG } },
        active: LoaderStyle { icon: None, loader_color: Color { value: GREEN }, background_color: Color { value: BG } },
    }
}

/// White text on black.
pub struct TTDefaultText;

impl TTDefaultText {
    pub fn theme() -> (t: TextTheme)
        ensures
            t == (TextTheme { background_color: Color { value: BG }, text_font: FONT_NORMAL, text_color: Color { value: FG }, hyphen_font: FONT_BOLD, hyphen_color: Color { value: GREY_LIGHT }, ellipsis_font: FONT_BOLD, ellipsis_color: Color { value: GREY_LIGHT }, normal_font: FONT_NORMAL, medium_font: FONT_MEDIUM, bold_font: FONT_BOLD, mono_font: FONT_MONO }),
    {
        TextTheme { background_color: Color { value: BG }, text_font: FONT_NORMAL, text_color: Color { value: FG }, hyphen_font: FONT_BOLD, hyphen_color: Color { value: GREY_LIGHT }, ellipsis_font: FONT_BOLD, ellipsis_color: Color { value: GREY_LIGHT }, normal_font: FONT_NORMAL, medium_font: FONT_MEDIUM, bold_font: FONT_BOLD, mono_font: FONT_MONO }
    }
}

/// Black text on white, for the older confirmation screens.
pub struct TTBootloaderTextTemp;

impl TTBootloaderTextTemp {
    pub fn theme() -> (t: TextTheme)
        ensures
            t == (TextTheme { background_color: Color { value: FG }, text_font: FONT_NORMAL, text_color: Color { value: BG }, hyphen_font: FONT_BOLD, hyphen_color: Color { value: GREY_LIGHT }, ellipsis_font: FONT_BOLD, ellipsis_color: Color { value: GREY_LIGHT }, normal_font: FONT_NORMAL, medium_font: FONT_MEDIUM, bold_font: FONT_BOLD, mono_font: FONT_MONO }),
    {
        TextTheme { background_color: Color { value: FG }, text_font: FONT_NORMAL, text_color: Color { value: BG }, hyphen_font: FONT_BOLD, hyphen_color: Color { value: GREY_LIGHT }, ellipsis_font: FONT_BOLD, ellipsis_color: Color { value: GREY_LIGHT }, normal_font: FONT_NORMAL, medium_font: FONT_MEDIUM, bold_font: FONT_BOLD, mono_font: FONT_MONO }
    }
}

/// White medium text on the bootloader blue.
pub struct TTBootloaderText;

impl TTBootloaderText {
    pub fn theme() -> (t: TextTheme)
        ensures
            t == (TextTheme { background_color: Color { value: BLD_BG }, text_font: FONT_MEDIUM, text_color: Color { value: BLD_FG }, hyphen_font: FONT_BOLD, hyphen_color: Color { value: GREY_LIGHT }, ellipsis_font: FONT_BOLD, ellipsis_color: Color { value: GREY_LIGHT }, normal_font: FONT_NORMAL, medium_font: FONT_MEDIUM, bold_font: FONT_BOLD, mono_font: FONT_MONO }),
    {
        TextTheme { background_color: Color { value: BLD_BG }, text_font: FONT_MEDIUM, text_color: Color { value: BLD_FG }, hyphen_font: FONT_BOLD, hyphen_color: Color { value: GREY_LIGHT }, ellipsis_font: FONT_BOLD, ellipsis_color: Color { value: GREY_LIGHT }, normal_font: FONT_NORMAL, medium_font: FONT_MEDIUM, bold_font: FONT_BOLD, mono_font: FONT_MONO }
    }
}

/// Content borders: 13 above, 10 right, 14 below, 10 left.
pub fn borders() -> (i: Insets)
    ensures
        i == (Insets { top: 13, right: 10, bottom: 14, left: 10 }),
{
    Insets::new(13, 10, 14, 10)
}

/// Content borders beside a scroll bar: 13 above, 5 right, 14 below, 10 left.
pub fn borders_scroll() -> (i: Insets)
    ensures
        i == (Insets { top: 13, right: 5, bottom: 14, left: 10 }),
{
    Insets::new(13, 5, 14, 10)
}

pub const CONTENT_BORDER: i32 = 5;
pub const KEYBOARD_SPACING: i32 = 8;

/// Screen size.
pub const WIDTH: i32 = 240;
pub const HEIGHT: i32 = 240;

} // verus!
