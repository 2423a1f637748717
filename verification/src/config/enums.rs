use vstd::prelude::*;

use crate::fixed_vec::{
    combo_contents, combo_get, combo_len, combo_new, combo_push, macro_contents, macro_new,
    macro_push,
};

verus! {

/// A semantic key: what a position of the layout stands for.
///
/// Every key has a one-byte code. Codes up to `0xA4` are the usage codes of
/// the keyboard page; the rest are internal and name layers, modifiers,
/// macros, mouse commands and combos.
#[derive(Clone, Copy, Debug, PartialEq, Eq, Structural)]
pub enum Kc {
    /// None (`0x00`)
    No,
    /// Undefined (`0x03`)
    Undf,
    /// A (`0x04`)
    A,
    /// B (`0x05`)
    B,
    /// C (`0x06`)
    C,
    /// D (`0x07`)
    D,
    /// E (`0x08`)
    E,
    /// F (`0x09`)
    F,
    /// G (`0x0A`)
    G,
    /// H (`0x0B`)
    H,
    /// I (`0x0C`)
    I,
    /// J (`0x0D`)
    J,
    /// K (`0x0E`)
    K,
    /// L (`0x0F`)
    L,
    /// M (`0x10`)
    M,
    /// N (`0x11`)
    N,
    /// O (`0x12`)
    O,
    /// P (`0x13`)
    P,
    /// Q (`0x14`)
    Q,
    /// R (`0x15`)
    R,
    /// S (`0x16`)
    S,
    /// T (`0x17`)
    T,
    /// U (`0x18`)
    U,
    /// V (`0x19`)
    V,
    /// W (`0x1A`)
    W,
    /// X (`0x1B`)
    X,
    /// Y (`0x1C`)
    Y,
    /// Z (`0x1D`)
    Z,
    /// Num1 (`0x1E`)
    N1,
    /// Num2 (`0x1F`)
    N2,
    /// Num3 (`0x20`)
    N3,
    /// Num4 (`0x21`)
    N4,
    /// Num5 (`0x22`)
    N5,
    /// Num6 (`0x23`)
    N6,
    /// Num7 (`0x24`)
    N7,
    /// Num8 (`0x25`)
    N8,
    /// Num9 (`0x26`)
    N9,
    /// Num0 (`0x27`)
    N0,
    /// Enter (`0x28`)
    Entr,
    /// Escape (`0x29`)
    Esc,
    /// BackSpace (`0x2A`)
    Bksp,
    /// Tab (`0x2B`)
    Tab,
    /// Space (`0x2C`)
    Spac,
    /// Minus (`0x2D`)
    Mns,
    /// Equal (`0x2E`)
    Eq,
    /// LeftBracket (`0x2F`)
    Lbrk,
    /// RightBracket (`0x30`)
    Rbrk,
    /// BackSlash (`0x31`)
    Bksl,
    /// NonusHash (`0x32`)
    Nsh,
    /// SemiColon (`0x33`)
    Scn,
    /// Quote (`0x34`)
    Qte,
    /// Grave (`0x35`)
    Grav,
    /// Comma (`0x36`)
    Com,
    /// Period (`0x37`)
    Per,
    /// ForwardSlash (`0x38`)
    Fsl,
    /// Capslock (`0x39`)
    Caps,
    /// F1 (`0x3A`)
    F1,
    /// F2 (`0x3B`)
    F2,
    /// F3 (`0x3C`)
    F3,
    /// F4 (`0x3D`)
    F4,
    /// F5 (`0x3E`)
    F5,
    /// F6 (`0x3F`)
    F6,
    /// F7 (`0x40`)
    F7,
    /// F8 (`0x41`)
    F8,
    /// F9 (`0x42`)
    F9,
    /// F10 (`0x43`)
    F10,
    /// F11 (`0x44`)
    F11,
    /// F12 (`0x45`)
    F12,
    /// Pscreen (`0x46`)
    Pscr,
    /// Scrolllock (`0x47`)
    Scll,
    /// Pause (`0x48`)
    Pse,
    /// Insert (`0x49`)
    Ins,
    /// Home (`0x4A`)
    Home,
    /// Pgup (`0x4B`)
    Pgup,
    /// Delete (`0x4C`)
    Del,
    /// End (`0x4D`)
    End,
    /// Pgdown (`0x4E`)
    Pgdn,
    /// ArrowRight (`0x4F`)
    ArR,
    /// ArrowLeft (`0x50`)
    ArL,
    /// ArrowDown (`0x51`)
    ArD,
    /// ArrowUp (`0x52`)
    ArU,
    /// Numlock (`0x53`)
    Nlk,
    /// KpSlash (`0x54`)
    KpS,
    /// KpAsterisk (`0x55`)
    KpA,
    /// KpMinus (`0x56`)
    KpM,
    /// KpPlus (`0x57`)
    KpP,
    /// KpEnter (`0x58`)
    KpE,
    /// Kp1 (`0x59`)
    Kp1,
    /// Kp2 (`0x5A`)
    Kp2,
    /// Kp3 (`0x5B`)
    Kp3,
    /// Kp4 (`0x5C`)
    Kp4,
    /// Kp5 (`0x5D`)
    Kp5,
    /// Kp6 (`0x5E`)
    Kp6,
    /// Kp7 (`0x5F`)
    Kp7,
    /// Kp8 (`0x60`)
    Kp8,
    /// Kp9 (`0x61`)
    Kp9,
    /// Kp0 (`0x62`)
    Kp0,
    /// KpDot (`0x63`)
    KpD,
    /// NonusBslash (`0x64`)
    Nbl,
    /// Application (`0x65`)
    App,
    /// Power (`0x66`)
    Pwr,
    /// KpEqual (`0x67`)
    KpEql,
    /// F13 (`0x68`)
    F13,
    /// F14 (`0x69`)
    F14,
    /// F15 (`0x6A`)
    F15,
    /// F16 (`0x6B`)
    F16,
    /// F17 (`0x6C`)
    F17,
    /// F18 (`0x6D`)
    F18,
    /// F19 (`0x6E`)
    F19,
    /// F20 (`0x6F`)
    F20,
    /// F21 (`0x70`)
    F21,
    /// F22 (`0x71`)
    F22,
    /// F23 (`0x72`)
    F23,
    /// F24 (`0x73`)
    F24,
    /// Execute (`0x74`)
    Exe,
    /// Help (`0x75`)
    Help,
    /// Menu (`0x76`)
    Menu,
    /// Select (`0x77`)
    Sel,
    /// Stop (`0x78`)
    Stp,
    /// Again (`0x79`)
    Agn,
    /// Undo (`0x7A`)
    Und,
    /// Cut (`0x7B`)
    Cut,
    /// Copy (`0x7C`)
    Cop,
    /// Paste (`0x7D`)
    Pas,
    /// Find (`0x7E`)
    Fin,
    /// Mute (`0x7F`)
    Mute,
    /// Volup (`0x80`)
    Vup,
    /// Voldown (`0x81`)
    Vdown,
    /// LockingCaps (`0x82`)
    LckC,
    /// LockingNum (`0x83`)
    LckN,
    /// LockingScroll (`0x84`)
    LckS,
    /// KpComma (`0x85`)
    KpC,
    /// KpEqualAs400 (`0x86`)
    KpEql400,
    /// Int1 (`0x87`)
    Int1,
    /// Int2 (`0x88`)
    Int2,
    /// Int3 (`0x89`)
    Int3,
    /// Int4 (`0x8A`)
    Int4,
    /// Int5 (`0x8B`)
    Int5,
    /// Int6 (`0x8C`)
    Int6,
    /// Int7 (`0x8D`)
    Int7,
    /// Int8 (`0x8E`)
    Int8,
    /// Int9 (`0x8F`)
    Int9,
    /// Lang1 (`0x90`)
    Lg1,
    /// Lang3 (`0x92`)
    Lg3,
    /// Lang4 (`0x93`)
    Lg4,
    /// Lang5 (`0x94`)
    Lg5,
    /// Lang6 (`0x95`)
    Lg6,
    /// Lang7 (`0x96`)
    Lg7,
    /// Lang8 (`0x97`)
    Lg8,
    /// Lang9 (`0x98`)
    Lg9,
    /// AltErase (`0x99`)
    AltE,
    /// Sysreq (`0x9A`)
    Sys,
    /// Cancel (`0x9B`)
    Canc,
    /// Clear (`0x9C`)
    Clr,
    /// Prior (`0x9D`)
    Pri,
    /// Return (`0x9E`)
    Ret,
    /// Separator (`0x9F`)
    Sep,
    /// Out (`0xA0`)
    Out,
    /// Oper (`0xA1`)
    Oper,
    /// ClearAgain (`0xA2`)
    ClrA,
    /// Crsel (`0xA3`)
    Crs,
    /// Exsel (`0xA4`)
    Exs,
    /// Layer1 (`0xA5`)
    L1,
    /// Layer2 (`0xA6`)
    L2,
    /// Layer3 (`0xA7`)
    L3,
    /// Layer4 (`0xA8`)
    L4,
    /// Layer5 (`0xA9`)
    L5,
    /// ModifierShift (`0xB0`)
    ModSh,
    /// ModifierControl (`0xB1`)
    ModCo,
    /// ModifierAlt (`0xB2`)
    ModAl,
    /// ModifierSuper (`0xB3`)
    ModSu,
    /// MacroLeftParenthesis (`0xC0`)
    MaLP,
    /// MacroRightParenthesis (`0xC1`)
    MaRP,
    /// MacroCopy (`0xC2`)
    MaCp,
    /// MacroPaste (`0xC3`)
    MaPa,
    /// MacroExclamationMark (`0xC4`)
    MaEx,
    /// MacroAt (`0xC5`)
    MaAt,
    /// MacroHash (`0xC6`)
    MaHs,
    /// MacroDollar (`0xC7`)
    MaDl,
    /// MacroModul (`0xC8`)
    MaMd,
    /// MacroCaret (`0xC9`)
    MaCa,
    /// MacroAmpersand (`0xCA`)
    MaAmp,
    /// MacroAsterix (`0xCB`)
    MaAst,
    /// MacroSuperLock (`0xCC`)
    MaSL,
    /// MacroLeftBrace (`0xCD`)
    MaLB,
    /// MacroRightBrace (`0xCE`)
    MaRB,
    /// MacroPipe (`0xDD`)
    MaPipe,
    /// MouseGoLeft (`0xD0`)
    MoGL,
    /// MouseGoDown (`0xD1`)
    MoGD,
    /// MouseGoUp (`0xD2`)
    MoGU,
    /// MouseGoRight (`0xD3`)
    MoGR,
    /// MouseLeftClick (`0xD4`)
    MoLC,
    /// MouseRightClick (`0xD5`)
    MoRC,
    /// MouseScrollLeft (`0xD6`)
    MoSL,
    /// MouseScrollRight (`0xD7`)
    MoSR,
    /// MouseScrollUp (`0xD8`)
    MoSU,
    /// MouseScrollDown (`0xD9`)
    MoSD,
    /// MouseCursorFast (`0xDA`)
    MoCF,
    /// MouseCursorNormal (`0xDB`)
    MoCN,
    /// MouseCursorSlow (`0xDC`)
    MoCS,
    /// ComboControlD = ctrl+backspace (`0xF0`)
    ComboCtrlD,
}

impl Default for Kc {
    fn default() -> (key: Kc)
        ensures
            key == Kc::Undf,
    {
        Kc::Undf
    }
}

impl Kc {
    /// The one-byte code of a key.
    pub open spec fn spec_code(self) -> u8 {
        match self {
            Kc::No => 0x00,
            Kc::Undf => 0x03,
            Kc::A => 0x04,
            Kc::B => 0x05,
            Kc::C => 0x06,
            Kc::D => 0x07,
            Kc::E => 0x08,
            Kc::F => 0x09,
            Kc::G => 0x0A,
            Kc::H => 0x0B,
            Kc::I => 0x0C,
            Kc::J => 0x0D,
            Kc::K => 0x0E,
            Kc::L => 0x0F,
            Kc::M => 0x10,
            Kc::N => 0x11,
            Kc::O => 0x12,
            Kc::P => 0x13,
            Kc::Q => 0x14,
            Kc::R => 0x15,
            Kc::S => 0x16,
            Kc::T => 0x17,
            Kc::U => 0x18,
            Kc::V => 0x19,
            Kc::W => 0x1A,
            Kc::X => 0x1B,
            Kc::Y => 0x1C,
            Kc::Z => 0x1D,
            Kc::N1 => 0x1E,
            Kc::N2 => 0x1F,
            Kc::N3 => 0x20,
            Kc::N4 => 0x21,
            Kc::N5 => 0x22,
            Kc::N6 => 0x23,
            Kc::N7 => 0x24,
            Kc::N8 => 0x25,
            Kc::N9 => 0x26,
            Kc::N0 => 0x27,
            Kc::Entr => 0x28,
            Kc::Esc => 0x29,
            Kc::Bksp => 0x2A,
            Kc::Tab => 0x2B,
            Kc::Spac => 0x2C,
            Kc::Mns => 0x2D,
            Kc::Eq => 0x2E,
            Kc::Lbrk => 0x2F,
            Kc::Rbrk => 0x30,
            Kc::Bksl => 0x31,
            Kc::Nsh => 0x32,
            Kc::Scn => 0x33,
            Kc::Qte => 0x34,
            Kc::Grav => 0x35,
            Kc::Com => 0x36,
            Kc::Per => 0x37,
            Kc::Fsl => 0x38,
            Kc::Caps => 0x39,
            Kc::F1 => 0x3A,
            Kc::F2 => 0x3B,
            Kc::F3 => 0x3C,
            Kc::F4 => 0x3D,
            Kc::F5 => 0x3E,
            Kc::F6 => 0x3F,
            Kc::F7 => 0x40,
            Kc::F8 => 0x41,
            Kc::F9 => 0x42,
            Kc::F10 => 0x43,
            Kc::F11 => 0x44,
            Kc::F12 => 0x45,
            Kc::Pscr => 0x46,
            Kc::Scll => 0x47,
            Kc::Pse => 0x48,
            Kc::Ins => 0x49,
            Kc::Home => 0x4A,
            Kc::Pgup => 0x4B,
            Kc::Del => 0x4C,
            Kc::End => 0x4D,
            Kc::Pgdn => 0x4E,
            Kc::ArR => 0x4F,
            Kc::ArL => 0x50,
            Kc::ArD => 0x51,
            Kc::ArU => 0x52,
            Kc::Nlk => 0x53,
            Kc::KpS => 0x54,
            Kc::KpA => 0x55,
            Kc::KpM => 0x56,
            Kc::KpP => 0x57,
            Kc::KpE => 0x58,
            Kc::Kp1 => 0x59,
            Kc::Kp2 => 0x5A,
            Kc::Kp3 => 0x5B,
            Kc::Kp4 => 0x5C,
            Kc::Kp5 => 0x5D,
            Kc::Kp6 => 0x5E,
            Kc::Kp7 => 0x5F,
            Kc::Kp8 => 0x60,
            Kc::Kp9 => 0x61,
            Kc::Kp0 => 0x62,
            Kc::KpD => 0x63,
            Kc::Nbl => 0x64,
            Kc::App => 0x65,
            Kc::Pwr => 0x66,
            Kc::KpEql => 0x67,
            Kc::F13 => 0x68,
            Kc::F14 => 0x69,
            Kc::F15 => 0x6A,
            Kc::F16 => 0x6B,
            Kc::F17 => 0x6C,
            Kc::F18 => 0x6D,
            Kc::F19 => 0x6E,
            Kc::F20 => 0x6F,
            Kc::F21 => 0x70,
            Kc::F22 => 0x71,
            Kc::F23 => 0x72,
            Kc::F24 => 0x73,
            Kc::Exe => 0x74,
            Kc::Help => 0x75,
            Kc::Menu => 0x76,
            Kc::Sel => 0x77,
            Kc::Stp => 0x78,
            Kc::Agn => 0x79,
            Kc::Und => 0x7A,
            Kc::Cut => 0x7B,
            Kc::Cop => 0x7C,
            Kc::Pas => 0x7D,
            Kc::Fin => 0x7E,
            Kc::Mute => 0x7F,
            Kc::Vup => 0x80,
            Kc::Vdown => 0x81,
            Kc::LckC => 0x82,
            Kc::LckN => 0x83,
            Kc::LckS => 0x84,
            Kc::KpC => 0x85,
            Kc::KpEql400 => 0x86,
            Kc::Int1 => 0x87,
            Kc::Int2 => 0x88,
            Kc::Int3 => 0x89,
            Kc::Int4 => 0x8A,
            Kc::Int5 => 0x8B,
            Kc::Int6 => 0x8C,
            Kc::Int7 => 0x8D,
            Kc::Int8 => 0x8E,
            Kc::Int9 => 0x8F,
            Kc::Lg1 => 0x90,
            Kc::Lg3 => 0x92,
            Kc::Lg4 => 0x93,
            Kc::Lg5 => 0x94,
            Kc::Lg6 => 0x95,
            Kc::Lg7 => 0x96,
            Kc::Lg8 => 0x97,
            Kc::Lg9 => 0x98,
            Kc::AltE => 0x99,
            Kc::Sys => 0x9A,
            Kc::Canc => 0x9B,
            Kc::Clr => 0x9C,
            Kc::Pri => 0x9D,
            Kc::Ret => 0x9E,
            Kc::Sep => 0x9F,
            Kc::Out => 0xA0,
            Kc::Oper => 0xA1,
            Kc::ClrA => 0xA2,
            Kc::Crs => 0xA3,
            Kc::Exs => 0xA4,
            Kc::L1 => 0xA5,
            Kc::L2 => 0xA6,
            Kc::L3 => 0xA7,
            Kc::L4 => 0xA8,
            Kc::L5 => 0xA9,
            Kc::ModSh => 0xB0,
            Kc::ModCo => 0xB1,
            Kc::ModAl => 0xB2,
            Kc::ModSu => 0xB3,
            Kc::MaLP => 0xC0,
            Kc::MaRP => 0xC1,
            Kc::MaCp => 0xC2,
            Kc::MaPa => 0xC3,
            Kc::MaEx => 0xC4,
            Kc::MaAt => 0xC5,
            Kc::MaHs => 0xC6,
            Kc::MaDl => 0xC7,
            Kc::MaMd => 0xC8,
            Kc::MaCa => 0xC9,
            Kc::MaAmp => 0xCA,
            Kc::MaAst => 0xCB,
            Kc::MaSL => 0xCC,
            Kc::MaLB => 0xCD,
            Kc::MaRB => 0xCE,
            Kc::MaPipe => 0xDD,
            Kc::MoGL => 0xD0,
            Kc::MoGD => 0xD1,
            Kc::MoGU => 0xD2,
            Kc::MoGR => 0xD3,
            Kc::MoLC => 0xD4,
            Kc::MoRC => 0xD5,
            Kc::MoSL => 0xD6,
            Kc::MoSR => 0xD7,
            Kc::MoSU => 0xD8,
            Kc::MoSD => 0xD9,
            Kc::MoCF => 0xDA,
            Kc::MoCN => 0xDB,
            Kc::MoCS => 0xDC,
            Kc::ComboCtrlD => 0xF0,
        }
    }

    /// The one-byte code of a key, as it is written into a report.
    pub fn code(self) -> (code: u8)
        ensures
            code == self.spec_code(),
    {
        match self {
            Kc::No => 0x00,
            Kc::Undf => 0x03,
            Kc::A => 0x04,
            Kc::B => 0x05,
            Kc::C => 0x06,
            Kc::D => 0x07,
            Kc::E => 0x08,
            Kc::F => 0x09,
            Kc::G => 0x0A,
            Kc::H => 0x0B,
            Kc::I => 0x0C,
            Kc::J => 0x0D,
            Kc::K => 0x0E,
            Kc::L => 0x0F,
            Kc::M => 0x10,
            Kc::N => 0x11,
            Kc::O => 0x12,
            Kc::P => 0x13,
            Kc::Q => 0x14,
            Kc::R => 0x15,
            Kc::S => 0x16,
            Kc::T => 0x17,
            Kc::U => 0x18,
            Kc::V => 0x19,
            Kc::W => 0x1A,
            Kc::X => 0x1B,
            Kc::Y => 0x1C,
            Kc::Z => 0x1D,
            Kc::N1 => 0x1E,
            Kc::N2 => 0x1F,
            Kc::N3 => 0x20,
            Kc::N4 => 0x21,
            Kc::N5 => 0x22,
            Kc::N6 => 0x23,
            Kc::N7 => 0x24,
            Kc::N8 => 0x25,
            Kc::N9 => 0x26,
            Kc::N0 => 0x27,
            Kc::Entr => 0x28,
            Kc::Esc => 0x29,
            Kc::Bksp => 0x2A,
            Kc::Tab => 0x2B,
            Kc::Spac => 0x2C,
            Kc::Mns => 0x2D,
            Kc::Eq => 0x2E,
            Kc::Lbrk => 0x2F,
            Kc::Rbrk => 0x30,
            Kc::Bksl => 0x31,
            Kc::Nsh => 0x32,
            Kc::Scn => 0x33,
            Kc::Qte => 0x34,
            Kc::Grav => 0x35,
            Kc::Com => 0x36,
            Kc::Per => 0x37,
            Kc::Fsl => 0x38,
            Kc::Caps => 0x39,
            Kc::F1 => 0x3A,
            Kc::F2 => 0x3B,
            Kc::F3 => 0x3C,
            Kc::F4 => 0x3D,
            Kc::F5 => 0x3E,
            Kc::F6 => 0x3F,
            Kc::F7 => 0x40,
            Kc::F8 => 0x41,
            Kc::F9 => 0x42,
            Kc::F10 => 0x43,
            Kc::F11 => 0x44,
            Kc::F12 => 0x45,
            Kc::Pscr => 0x46,
            Kc::Scll => 0x47,
            Kc::Pse => 0x48,
            Kc::Ins => 0x49,
            Kc::Home => 0x4A,
            Kc::Pgup => 0x4B,
            Kc::Del => 0x4C,
            Kc::End => 0x4D,
            Kc::Pgdn => 0x4E,
            Kc::ArR => 0x4F,
            Kc::ArL => 0x50,
            Kc::ArD => 0x51,
            Kc::ArU => 0x52,
            Kc::Nlk => 0x53,
            Kc::KpS => 0x54,
            Kc::KpA => 0x55,
            Kc::KpM => 0x56,
            Kc::KpP => 0x57,
            Kc::KpE => 0x58,
            Kc::Kp1 => 0x59,
            Kc::Kp2 => 0x5A,
            Kc::Kp3 => 0x5B,
            Kc::Kp4 => 0x5C,
            Kc::Kp5 => 0x5D,
            Kc::Kp6 => 0x5E,
            Kc::Kp7 => 0x5F,
            Kc::Kp8 => 0x60,
            Kc::Kp9 => 0x61,
            Kc::Kp0 => 0x62,
            Kc::KpD => 0x63,
            Kc::Nbl => 0x64,
            Kc::App => 0x65,
            Kc::Pwr => 0x66,
            Kc::KpEql => 0x67,
            Kc::F13 => 0x68,
            Kc::F14 => 0x69,
            Kc::F15 => 0x6A,
            Kc::F16 => 0x6B,
            Kc::F17 => 0x6C,
            Kc::F18 => 0x6D,
            Kc::F19 => 0x6E,
            Kc::F20 => 0x6F,
            Kc::F21 => 0x70,
            Kc::F22 => 0x71,
            Kc::F23 => 0x72,
            Kc::F24 => 0x73,
            Kc::Exe => 0x74,
            Kc::Help => 0x75,
            Kc::Menu => 0x76,
            Kc::Sel => 0x77,
            Kc::Stp => 0x78,
            Kc::Agn => 0x79,
            Kc::Und => 0x7A,
            Kc::Cut => 0x7B,
            Kc::Cop => 0x7C,
            Kc::Pas => 0x7D,
            Kc::Fin => 0x7E,
            Kc::Mute => 0x7F,
            Kc::Vup => 0x80,
            Kc::Vdown => 0x81,
            Kc::LckC => 0x82,
            Kc::LckN => 0x83,
            Kc::LckS => 0x84,
            Kc::KpC => 0x85,
            Kc::KpEql400 => 0x86,
            Kc::Int1 => 0x87,
            Kc::Int2 => 0x88,
            Kc::Int3 => 0x89,
            Kc::Int4 => 0x8A,
            Kc::Int5 => 0x8B,
            Kc::Int6 => 0x8C,
            Kc::Int7 => 0x8D,
            Kc::Int8 => 0x8E,
            Kc::Int9 => 0x8F,
            Kc::Lg1 => 0x90,
            Kc::Lg3 => 0x92,
            Kc::Lg4 => 0x93,
            Kc::Lg5 => 0x94,
            Kc::Lg6 => 0x95,
            Kc::Lg7 => 0x96,
            Kc::Lg8 => 0x97,
            Kc::Lg9 => 0x98,
            Kc::AltE => 0x99,
            Kc::Sys => 0x9A,
            Kc::Canc => 0x9B,
            Kc::Clr => 0x9C,
            Kc::Pri => 0x9D,
            Kc::Ret => 0x9E,
            Kc::Sep => 0x9F,
            Kc::Out => 0xA0,
            Kc::Oper => 0xA1,
            Kc::ClrA => 0xA2,
            Kc::Crs => 0xA3,
            Kc::Exs => 0xA4,
            Kc::L1 => 0xA5,
            Kc::L2 => 0xA6,
            Kc::L3 => 0xA7,
            Kc::L4 => 0xA8,
            Kc::L5 => 0xA9,
            Kc::ModSh => 0xB0,
            Kc::ModCo => 0xB1,
            Kc::ModAl => 0xB2,
            Kc::ModSu => 0xB3,
            Kc::MaLP => 0xC0,
            Kc::MaRP => 0xC1,
            Kc::MaCp => 0xC2,
            Kc::MaPa => 0xC3,
            Kc::MaEx => 0xC4,
            Kc::MaAt => 0xC5,
            Kc::MaHs => 0xC6,
            Kc::MaDl => 0xC7,
            Kc::MaMd => 0xC8,
            Kc::MaCa => 0xC9,
            Kc::MaAmp => 0xCA,
            Kc::MaAst => 0xCB,
            Kc::MaSL => 0xCC,
            Kc::MaLB => 0xCD,
            Kc::MaRB => 0xCE,
            Kc::MaPipe => 0xDD,
            Kc::MoGL => 0xD0,
            Kc::MoGD => 0xD1,
            Kc::MoGU => 0xD2,
            Kc::MoGR => 0xD3,
            Kc::MoLC => 0xD4,
            Kc::MoRC => 0xD5,
            Kc::MoSL => 0xD6,
            Kc::MoSR => 0xD7,
            Kc::MoSU => 0xD8,
            Kc::MoSD => 0xD9,
            Kc::MoCF => 0xDA,
            Kc::MoCN => 0xDB,
            Kc::MoCS => 0xDC,
            Kc::ComboCtrlD => 0xF0,
        }
    }
}

/// What kind of action a key stands for. Every key has exactly one type.
#[derive(Clone, Copy, Debug, PartialEq, Eq, Structural)]
pub enum KeyType {
    /// A chord of keys that stands for other keys.
    Combo,
    /// A key that expands to a sequence of other keys.
    Macro,
    /// A key that sets a bit of the modifier byte.
    Modifier,
    /// A key that drives the mouse report.
    Mouse,
    /// An ordinary key, reported in one of the six key slots.
    Key,
    /// A key that changes the active layer.
    Layer,
}

impl Kc {
    /// The type of a key, which its code decides: the internal codes lie in
    /// one range per type, and every other code is an ordinary key.
    pub open spec fn key_type(self) -> KeyType {
        let code = self.spec_code();
        if 0xC0 <= code <= 0xCE || code == 0xDD {
            KeyType::Macro
        } else if 0xA5 <= code <= 0xA9 {
            KeyType::Layer
        } else if 0xB0 <= code <= 0xB3 {
            KeyType::Modifier
        } else if 0xD0 <= code <= 0xDC {
            KeyType::Mouse
        } else if code == 0xF0 {
            KeyType::Combo
        } else {
            KeyType::Key
        }
    }

    /// The modifier and the key that a macro presses together, if `self` is
    /// a macro.
    pub open spec fn spec_macro_pair(self) -> Option<(Kc, Kc)> {
        match self {
            Kc::MaCp => Some((Kc::ModCo, Kc::C)),
            Kc::MaPa => Some((Kc::ModCo, Kc::V)),
            Kc::MaRP => Some((Kc::ModSh, Kc::N0)),
            Kc::MaEx => Some((Kc::ModSh, Kc::N1)),
            Kc::MaAt => Some((Kc::ModSh, Kc::N2)),
            Kc::MaHs => Some((Kc::ModSh, Kc::N3)),
            Kc::MaDl => Some((Kc::ModSh, Kc::N4)),
            Kc::MaMd => Some((Kc::ModSh, Kc::N5)),
            Kc::MaCa => Some((Kc::ModSh, Kc::N6)),
            Kc::MaAmp => Some((Kc::ModSh, Kc::N7)),
            Kc::MaAst => Some((Kc::ModSh, Kc::N8)),
            Kc::MaLP => Some((Kc::ModSh, Kc::N9)),
            Kc::MaSL => Some((Kc::ModSu, Kc::L)),
            Kc::MaLB => Some((Kc::ModSh, Kc::Lbrk)),
            Kc::MaRB => Some((Kc::ModSh, Kc::Rbrk)),
            Kc::MaPipe => Some((Kc::ModSh, Kc::Bksl)),
            _ => None,
        }
    }

    /// The keys that a macro expands to, in the order in which they are
    /// pressed. Empty for a key that is no macro.
    pub open spec fn spec_macro_sequence(self) -> Seq<Kc> {
        match self.spec_macro_pair() {
            Some((modifier, key)) => seq![modifier, key],
            None => Seq::empty(),
        }
    }

    /// The keys that a combo reports in place of its chord. Empty for a key
    /// that is no combo.
    pub open spec fn spec_combo_output(self) -> Seq<Kc> {
        match self {
            Kc::ComboCtrlD => seq![Kc::ModCo, Kc::Bksp],
            _ => Seq::empty(),
        }
    }

    /// The keys that have to be held together for a combo to take effect.
    /// Empty for a key that is no combo.
    pub open spec fn spec_combo_chord(self) -> Seq<Kc> {
        match self {
            Kc::ComboCtrlD => seq![Kc::ModCo, Kc::D],
            _ => Seq::empty(),
        }
    }

    /// The keys that a key stands for when it is resolved: the sequence of
    /// a macro, what a combo reports, and nothing for a key that is
    /// resolved by itself.
    pub open spec fn spec_expansion(self) -> Seq<Kc> {
        match self.key_type() {
            KeyType::Macro => self.spec_macro_sequence(),
            KeyType::Combo => self.spec_combo_output(),
            _ => Seq::empty(),
        }
    }

    /// True of the keys that are resolved by themselves: all but macros and
    /// combos.
    pub open spec fn is_plain(self) -> bool {
        self.key_type() != KeyType::Macro && self.key_type() != KeyType::Combo
    }

    fn macro_pair(key: &Kc) -> (pair: Option<(Kc, Kc)>)
        ensures
            pair == key.spec_macro_pair(),
    {
        match *key {
            Kc::MaCp => Some((Kc::ModCo, Kc::C)),
            Kc::MaPa => Some((Kc::ModCo, Kc::V)),
            Kc::MaRP => Some((Kc::ModSh, Kc::N0)),
            Kc::MaEx => Some((Kc::ModSh, Kc::N1)),
            Kc::MaAt => Some((Kc::ModSh, Kc::N2)),
            Kc::MaHs => Some((Kc::ModSh, Kc::N3)),
            Kc::MaDl => Some((Kc::ModSh, Kc::N4)),
            Kc::MaMd => Some((Kc::ModSh, Kc::N5)),
            Kc::MaCa => Some((Kc::ModSh, Kc::N6)),
            Kc::MaAmp => Some((Kc::ModSh, Kc::N7)),
            Kc::MaAst => Some((Kc::ModSh, Kc::N8)),
            Kc::MaLP => Some((Kc::ModSh, Kc::N9)),
            Kc::MaSL => Some((Kc::ModSu, Kc::L)),
            Kc::MaLB => Some((Kc::ModSh, Kc::Lbrk)),
            Kc::MaRB => Some((Kc::ModSh, Kc::Rbrk)),
            Kc::MaPipe => Some((Kc::ModSh, Kc::Bksl)),
            _ => None,
        }
    }

    /// The expansion of a macro: its keys, in the order in which they are
    /// pressed. Any other key gives an empty vector.
    pub fn get_macro_sequence(key: &Kc) -> (sequence: heapless::Vec<Kc, 16>)
        ensures
            macro_contents(sequence) == key.spec_macro_sequence(),
    {
        let mut sequence = macro_new();
        match Kc::macro_pair(key) {
            Some((modifier, plain)) => {
                macro_push(&mut sequence, modifier);
                macro_push(&mut sequence, plain);
                assert(macro_contents(sequence) =~= seq![modifier, plain]);
            },
            None => {},
        }
        sequence
    }

    /// The two lists of a combo: first the keys that it reports, then the
    /// keys of its chord. Any other key gives two empty vectors.
    pub fn get_combo(combo: &Kc) -> (lists: (heapless::Vec<Kc, 12>, heapless::Vec<Kc, 12>))
        ensures
            combo_contents(lists.0) == combo.spec_combo_output(),
            combo_contents(lists.1) == combo.spec_combo_chord(),
    {
        let mut combo_vec = combo_new();
        let mut keys_to_change = combo_new();
        match *combo {
            Kc::ComboCtrlD => {
                combo_push(&mut keys_to_change, Kc::ModCo);
                combo_push(&mut keys_to_change, Kc::D);
                combo_push(&mut combo_vec, Kc::ModCo);
                combo_push(&mut combo_vec, Kc::Bksp);
                assert(combo_contents(keys_to_change) =~= seq![Kc::ModCo, Kc::D]);
                assert(combo_contents(combo_vec) =~= seq![Kc::ModCo, Kc::Bksp]);
            },
            _ => {},
        }
        (combo_vec, keys_to_change)
    }
}

impl Kc {
    /// The keys that a key stands for when it is resolved, in the order in
    /// which they are pressed: the sequence of a macro, what a combo
    /// reports, and nothing for a key that is resolved by itself.
    pub fn expansion(key: &Kc) -> (keys: heapless::Vec<Kc, 16>)
        ensures
            macro_contents(keys) == key.spec_expansion(),
    {
        match KeyType::check_type(key) {
            KeyType::Macro => Kc::get_macro_sequence(key),
            KeyType::Combo => {
                let (reported, _chord) = Kc::get_combo(key);
                let count = combo_len(&reported);
                let mut keys = macro_new();
                let mut index: usize = 0;
                while index < count
                    invariant
                        index <= count,
                        count == combo_contents(reported).len(),
                        count <= 12,
                        macro_contents(keys) == combo_contents(reported).take(index as int),
                    decreases count - index,
                {
                    macro_push(&mut keys, combo_get(&reported, index));
                    assert(combo_contents(reported).take(index + 1) =~= combo_contents(
                        reported,
                    ).take(index as int).push(combo_contents(reported)[index as int]));
                    index += 1;
                }
                assert(combo_contents(reported).take(count as int) =~= combo_contents(reported));
                keys
            },
            _ => macro_new(),
        }
    }
}

impl KeyType {
    /// The type of a key.
    pub fn check_type(key: &Kc) -> (key_type: KeyType)
        ensures
            key_type == key.key_type(),
    {
        match *key {
            Kc::MaLP
            | Kc::MaRP
            | Kc::MaCp
            | Kc::MaPa
            | Kc::MaEx
            | Kc::MaAt
            | Kc::MaHs
            | Kc::MaDl
            | Kc::MaMd
            | Kc::MaCa
            | Kc::MaAmp
            | Kc::MaAst
            | Kc::MaSL
            | Kc::MaLB
            | Kc::MaRB
            | Kc::MaPipe => KeyType::Macro,
            Kc::L1 | Kc::L2 | Kc::L3 | Kc::L4 | Kc::L5 => KeyType::Layer,
            Kc::ModSh | Kc::ModCo | Kc::ModAl | Kc::ModSu => KeyType::Modifier,
            Kc::MoGL
            | Kc::MoGD
            | Kc::MoGU
            | Kc::MoGR
            | Kc::MoLC
            | Kc::MoRC
            | Kc::MoSL
            | Kc::MoSR
            | Kc::MoSU
            | Kc::MoSD
            | Kc::MoCF
            | Kc::MoCN
            | Kc::MoCS => KeyType::Mouse,
            Kc::ComboCtrlD => KeyType::Combo,
            _ => KeyType::Key,
        }
    }
}

/// The bits of the modifier byte of a keyboard report.
#[derive(Clone, Copy, Debug, PartialEq, Eq, Structural)]
pub enum HidModifiers {
    /// No modifier (`0x00`)
    No,
    /// Left control (`0x01`)
    Control,
    /// Left control and left shift (`0x03`)
    ControlShift,
    /// Left shift (`0x02`)
    Shift,
    /// Left alt (`0x04`)
    Alt,
    /// Left super (`0x08`)
    Super,
}

impl HidModifiers {
    /// The bits that a modifier sets in the modifier byte.
    pub open spec fn spec_bits(self) -> u8 {
        match self {
            HidModifiers::No => 0x00,
            HidModifiers::Control => 0x01,
            HidModifiers::ControlShift => 0x03,
            HidModifiers::Shift => 0x02,
            HidModifiers::Alt => 0x04,
            HidModifiers::Super => 0x08,
        }
    }

    /// The bits that a modifier sets in the modifier byte.
    pub fn bits(self) -> (bits: u8)
        ensures
            bits == self.spec_bits(),
    {
        match self {
            HidModifiers::No => 0x00,
            HidModifiers::Control => 0x01,
            HidModifiers::ControlShift => 0x03,
            HidModifiers::Shift => 0x02,
            HidModifiers::Alt => 0x04,
            HidModifiers::Super => 0x08,
        }
    }

    /// The modifier that a key stands for; `No` for a key that is no
    /// modifier.
    pub open spec fn of_key(key: Kc) -> HidModifiers {
        match key {
            Kc::ModSh => HidModifiers::Shift,
            Kc::ModCo => HidModifiers::Control,
            Kc::ModAl => HidModifiers::Alt,
            Kc::ModSu => HidModifiers::Super,
            _ => HidModifiers::No,
        }
    }

    /// The bits of the modifier byte that a key stands for: one bit for a
    /// key of type `Modifier`, none for any other key.
    pub open spec fn spec_modifier(key: Kc) -> u8 {
        HidModifiers::of_key(key).spec_bits()
    }

    /// The bits of the modifier byte that a key stands for: one bit for a
    /// key of type `Modifier`, zero for any other key.
    pub fn get_modifier(key: &Kc) -> (bits: u8)
        ensures
            bits == HidModifiers::spec_modifier(*key),
            bits != 0 <==> key.key_type() == KeyType::Modifier,
    {
        match *key {
            Kc::ModSh => HidModifiers::Shift.bits(),
            Kc::ModCo => HidModifiers::Control.bits(),
            Kc::ModAl => HidModifiers::Alt.bits(),
            Kc::ModSu => HidModifiers::Super.bits(),
            _ => 0,
        }
    }
}

/// The bits of the button byte of a mouse report.
#[derive(Clone, Copy, Debug, PartialEq, Eq, Structural)]
pub enum HidMouseKeys {
    /// Left button (`0x01`)
    LeftClick,
    /// Right button (`0x02`)
    RightClick,
    /// Middle button (`0x04`)
    MiddleClick,
    /// Back button (`0x08`)
    Back,
    /// Forward button (`0x10`)
    Forward,
}

impl HidMouseKeys {
    /// The bit that a button sets in the button byte.
    pub open spec fn spec_bits(self) -> u8 {
        match self {
            HidMouseKeys::LeftClick => 0x01,
            HidMouseKeys::RightClick => 0x02,
            HidMouseKeys::MiddleClick => 0x04,
            HidMouseKeys::Back => 0x08,
            HidMouseKeys::Forward => 0x10,
        }
    }

    /// The bit that a button sets in the button byte.
    pub fn bits(self) -> (bits: u8)
        ensures
            bits == self.spec_bits(),
    {
        match self {
            HidMouseKeys::LeftClick => 0x01,
            HidMouseKeys::RightClick => 0x02,
            HidMouseKeys::MiddleClick => 0x04,
            HidMouseKeys::Back => 0x08,
            HidMouseKeys::Forward => 0x10,
        }
    }
}

} // verus!
