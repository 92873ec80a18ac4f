//! Flags of the terminal emulator, as the bits that it stores.
use alacritty_terminal::term::cell::Flags;
use alacritty_terminal::term::TermMode;
use vstd::prelude::*;

verus! {

/// A mode of a terminal that the window asks for.
#[derive(Debug, Clone, Copy, PartialEq, Eq, Structural)]
pub enum ModeFlag {
    /// The program wants to know of clicks.
    MouseReportClick,
    /// The program wants to know of motion while a button is held.
    MouseDrag,
    /// The program wants to know of all motion.
    MouseMotion,
    /// The program draws on the alternate screen.
    AltScreen,
    /// The wheel sends arrow keys on the alternate screen.
    AlternateScroll,
}

impl ModeFlag {
    pub open spec fn bits(self) -> u32 {
        match self {
            ModeFlag::MouseReportClick => 0x8,
            ModeFlag::MouseDrag => 0x2000,
            ModeFlag::MouseMotion => 0x40,
            ModeFlag::AltScreen => 0x1000,
            ModeFlag::AlternateScroll => 0x8000,
        }
    }
}

/// Whether a mode is set.
pub open spec fn mode_set(mode: u32, flag: ModeFlag) -> bool {
    mode & flag.bits() == flag.bits()
}

/// `TermMode::contains`: whether the mode has every bit of the flag. The bits
/// of each flag are those that `TermMode` declares for it.
#[verifier::external_body]
pub(crate) fn mode_contains(mode: u32, flag: ModeFlag) -> (r: bool)
    ensures
        r == mode_set(mode, flag),
{
    TermMode::from_bits_retain(mode).contains(match flag {
        ModeFlag::MouseReportClick => TermMode::MOUSE_REPORT_CLICK,
        ModeFlag::MouseDrag => TermMode::MOUSE_DRAG,
        ModeFlag::MouseMotion => TermMode::MOUSE_MOTION,
        ModeFlag::AltScreen => TermMode::ALT_SCREEN,
        ModeFlag::AlternateScroll => TermMode::ALTERNATE_SCROLL,
    })
}

/// A mark on a cell of a terminal that the window asks for.
#[derive(Debug, Clone, Copy, PartialEq, Eq, Structural)]
pub enum CellFlag {
    /// The line goes on in the next row.
    WrapLine,
    /// The second half of a wide character.
    WideCharSpacer,
}

impl CellFlag {
    pub open spec fn bits(self) -> u16 {
        match self {
            CellFlag::WrapLine => 0x10,
            CellFlag::WideCharSpacer => 0x40,
        }
    }
}

/// Whether a cell is marked.
pub open spec fn cell_marked(flags: u16, flag: CellFlag) -> bool {
    flags & flag.bits() == flag.bits()
}

/// `Flags::contains`: whether the cell's flags have every bit of the mark. The
/// bits of each mark are those that `Flags` declares for it.
#[verifier::external_body]
pub(crate) fn cell_contains(flags: u16, flag: CellFlag) -> (r: bool)
    ensures
        r == cell_marked(flags, flag),
{
    Flags::from_bits_retain(flags).contains(match flag {
        CellFlag::WrapLine => Flags::WRAPLINE,
        CellFlag::WideCharSpacer => Flags::WIDE_CHAR_SPACER,
    })
}

/// Whether the program in a terminal wants to know of the mouse.
pub open spec fn wants_mouse(mode: u32) -> bool {
    mode_set(mode, ModeFlag::MouseReportClick) || mode_set(mode, ModeFlag::MouseDrag) || mode_set(
        mode,
        ModeFlag::MouseMotion,
    )
}

/// Whether the program in a terminal wants to know of the mouse.
pub fn mouse_mode(mode: u32) -> (r: bool)
    ensures
        r == wants_mouse(mode),
{
    mode_contains(mode, ModeFlag::MouseReportClick) || mode_contains(mode, ModeFlag::MouseDrag)
        || mode_contains(mode, ModeFlag::MouseMotion)
}

} // verus!
