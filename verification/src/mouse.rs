//! The mouse report, and the mouse commands that keys stand for.
use vstd::prelude::*;

use crate::config::enums::{HidMouseKeys, Kc};
use crate::config::user_config::{CURSOR_PARAM_FAST, CURSOR_PARAM_NORMAL, CURSOR_PARAM_SLOW};

verus! {

/// How far a directional command moves the cursor.
#[derive(Clone, Copy, Debug, PartialEq, Eq, Structural)]
pub enum CursorSpeed {
    Fast,
    Normal,
    Slow,
}

impl Default for CursorSpeed {
    fn default() -> (speed: CursorSpeed)
        ensures
            speed == CursorSpeed::Normal,
    {
        CursorSpeed::Normal
    }
}

impl CursorSpeed {
    /// What a directional command adds to a single step at this speed.
    pub open spec fn spec_param(self) -> u8 {
        match self {
            CursorSpeed::Fast => CURSOR_PARAM_FAST,
            CursorSpeed::Normal => CURSOR_PARAM_NORMAL,
            CursorSpeed::Slow => CURSOR_PARAM_SLOW,
        }
    }

    fn param(self) -> (param: u8)
        ensures
            param == self.spec_param(),
            param <= 6,
    {
        match self {
            CursorSpeed::Fast => CURSOR_PARAM_FAST,
            CursorSpeed::Normal => CURSOR_PARAM_NORMAL,
            CursorSpeed::Slow => CURSOR_PARAM_SLOW,
        }
    }
}

/// What a mouse report holds: the five bytes that are sent, and the cursor
/// speed, which is not sent.
///
/// A movement is one signed byte in two's complement: `1 + p` moves right,
/// down or scrolls by `1 + p`, and `255 - p` moves the other way by as much.
pub struct MouseState {
    pub buttons: u8,
    pub x: u8,
    pub y: u8,
    pub v_wheel: u8,
    pub h_wheel: u8,
    pub speed: CursorSpeed,
}

impl MouseState {
    /// The state after the command of `key` was set. A key that is no mouse
    /// command changes nothing.
    pub open spec fn set_command(self, key: Kc) -> MouseState {
        match key {
            Kc::MoGL => MouseState { x: (255 - self.speed.spec_param()) as u8, ..self },
            Kc::MoGR => MouseState { x: (1 + self.speed.spec_param()) as u8, ..self },
            Kc::MoGU => MouseState { y: (255 - self.speed.spec_param()) as u8, ..self },
            Kc::MoGD => MouseState { y: (1 + self.speed.spec_param()) as u8, ..self },
            Kc::MoLC => MouseState { buttons: HidMouseKeys::LeftClick.spec_bits(), ..self },
            Kc::MoRC => MouseState { buttons: HidMouseKeys::RightClick.spec_bits(), ..self },
            Kc::MoSL => MouseState { h_wheel: 255, ..self },
            Kc::MoSR => MouseState { h_wheel: 1, ..self },
            Kc::MoSU => MouseState { v_wheel: 255, ..self },
            Kc::MoSD => MouseState { v_wheel: 1, ..self },
            Kc::MoCF => MouseState { speed: CursorSpeed::Fast, ..self },
            Kc::MoCN => MouseState { speed: CursorSpeed::Normal, ..self },
            Kc::MoCS => MouseState { speed: CursorSpeed::Slow, ..self },
            _ => self,
        }
    }

    /// The state after the command of `key` was taken back: the byte that
    /// the command had set is zero again, and a speed key leaves the normal
    /// speed. A key that is no mouse command, and the key of the normal
    /// speed, change nothing.
    pub open spec fn reset_keypress(self, key: Kc) -> MouseState {
        match key {
            Kc::MoGL | Kc::MoGR => MouseState { x: 0, ..self },
            Kc::MoGD | Kc::MoGU => MouseState { y: 0, ..self },
            Kc::MoLC | Kc::MoRC => MouseState { buttons: 0, ..self },
            Kc::MoSU | Kc::MoSD => MouseState { v_wheel: 0, ..self },
            Kc::MoSL | Kc::MoSR => MouseState { h_wheel: 0, ..self },
            Kc::MoCF | Kc::MoCS => MouseState { speed: CursorSpeed::Normal, ..self },
            _ => self,
        }
    }

    /// The state with its five bytes zero and its speed kept.
    pub open spec fn reset_report(self) -> MouseState {
        MouseState { buttons: 0, x: 0, y: 0, v_wheel: 0, h_wheel: 0, speed: self.speed }
    }

    /// The five bytes that are sent: buttons, x, y, vertical wheel,
    /// horizontal wheel.
    pub open spec fn bytes(self) -> Seq<u8> {
        seq![self.buttons, self.x, self.y, self.v_wheel, self.h_wheel]
    }

    /// True if the two reports move the cursor and scroll alike.
    pub open spec fn same_cursor(self, other: MouseState) -> bool {
        self.x == other.x && self.y == other.y && self.v_wheel == other.v_wheel && self.h_wheel
            == other.h_wheel
    }

    /// True if the report moves the cursor or scrolls.
    pub open spec fn moves(self) -> bool {
        self.x != 0 || self.y != 0 || self.v_wheel != 0 || self.h_wheel != 0
    }
}

/// The mouse report: buttons, movement and scrolling, and the cursor speed
/// that directional commands go by.
#[derive(Clone, Copy)]
pub struct MouseKeyReport {
    buttons: u8,
    x: u8,
    y: u8,
    v_wheel: u8,
    h_wheel: u8,
    speed: CursorSpeed,
}

impl View for MouseKeyReport {
    type V = MouseState;

    closed spec fn view(&self) -> MouseState {
        MouseState {
            buttons: self.buttons,
            x: self.x,
            y: self.y,
            v_wheel: self.v_wheel,
            h_wheel: self.h_wheel,
            speed: self.speed,
        }
    }
}

impl Default for MouseKeyReport {
    /// A report that holds nothing, at normal speed.
    fn default() -> (report: MouseKeyReport)
        ensures
            report@ == (MouseState {
                buttons: 0,
                x: 0,
                y: 0,
                v_wheel: 0,
                h_wheel: 0,
                speed: CursorSpeed::Normal,
            }),
    {
        MouseKeyReport { buttons: 0, x: 0, y: 0, v_wheel: 0, h_wheel: 0, speed: CursorSpeed::Normal }
    }
}

impl MouseKeyReport {
    /// The five bytes of the report, ready to be sent.
    pub fn construct(self) -> (bytes: [u8; 5])
        ensures
            bytes@ == self@.bytes(),
    {
        let bytes = [self.buttons, self.x, self.y, self.v_wheel, self.h_wheel];
        assert(bytes@ =~= self@.bytes());
        bytes
    }

    /// Sets the mouse command that a key stands for.
    pub fn set_command(&mut self, valid_key: &Kc)
        ensures
            final(self)@ == old(self)@.set_command(*valid_key),
    {
        match *valid_key {
            Kc::MoGL => self.go_left(),
            Kc::MoGD => self.go_down(),
            Kc::MoGU => self.go_up(),
            Kc::MoGR => self.go_right(),
            Kc::MoLC => self.click(HidMouseKeys::LeftClick),
            Kc::MoRC => self.click(HidMouseKeys::RightClick),
            Kc::MoSL => self.scroll_left(),
            Kc::MoSR => self.scroll_right(),
            Kc::MoSU => self.scroll_up(),
            Kc::MoSD => self.scroll_down(),
            Kc::MoCF => self.speed = CursorSpeed::Fast,
            Kc::MoCN => self.speed = CursorSpeed::Normal,
            Kc::MoCS => self.speed = CursorSpeed::Slow,
            _ => {},
        }
    }

    /// Takes back the mouse command that a key stands for.
    pub fn reset_keypress(&mut self, valid_key: &Kc)
        ensures
            final(self)@ == old(self)@.reset_keypress(*valid_key),
    {
        match *valid_key {
            Kc::MoGL | Kc::MoGR => self.x = 0,
            Kc::MoGD | Kc::MoGU => self.y = 0,
            Kc::MoLC | Kc::MoRC => self.buttons = 0,
            Kc::MoSU | Kc::MoSD => self.v_wheel = 0,
            Kc::MoSL | Kc::MoSR => self.h_wheel = 0,
            Kc::MoCF | Kc::MoCS => self.speed = CursorSpeed::Normal,
            _ => {},
        }
    }

    /// Clears the five bytes of the report. The speed stays.
    pub fn reset_report(&mut self)
        ensures
            final(self)@ == old(self)@.reset_report(),
    {
        self.buttons = 0;
        self.x = 0;
        self.y = 0;
        self.v_wheel = 0;
        self.h_wheel = 0;
    }

    /// True if the report moves the cursor or scrolls. The report is left as
    /// it is.
    pub fn is_cursor_position_changed(&mut self) -> (changed: bool)
        ensures
            changed == old(self)@.moves(),
            *final(self) == *old(self),
    {
        self.x != 0 || self.y != 0 || self.v_wheel != 0 || self.h_wheel != 0
    }

    /// True if the two reports move the cursor and scroll alike.
    pub fn same_cursor_as(&self, other: &MouseKeyReport) -> (same: bool)
        ensures
            same == self@.same_cursor(other@),
    {
        self.x == other.x && self.y == other.y && self.v_wheel == other.v_wheel && self.h_wheel
            == other.h_wheel
    }

    /// True if the two reports hold the same bytes and the same speed.
    pub fn same_as(&self, other: &MouseKeyReport) -> (same: bool)
        ensures
            same == (self@ == other@),
    {
        self.buttons == other.buttons && self.x == other.x && self.y == other.y
            && self.v_wheel == other.v_wheel && self.h_wheel == other.h_wheel
            && self.speed == other.speed
    }

    fn go_left(&mut self)
        ensures
            final(self)@ == old(self)@.set_command(Kc::MoGL),
    {
        self.x = 255 - self.speed.param();
    }

    fn go_right(&mut self)
        ensures
            final(self)@ == old(self)@.set_command(Kc::MoGR),
    {
        self.x = 1 + self.speed.param();
    }

    fn go_up(&mut self)
        ensures
            final(self)@ == old(self)@.set_command(Kc::MoGU),
    {
        self.y = 255 - self.speed.param();
    }

    fn go_down(&mut self)
        ensures
            final(self)@ == old(self)@.set_command(Kc::MoGD),
    {
        self.y = 1 + self.speed.param();
    }

    fn click(&mut self, button: HidMouseKeys)
        ensures
            final(self)@ == (MouseState { buttons: button.spec_bits(), ..old(self)@ }),
    {
        self.buttons = button.bits();
    }

    fn scroll_left(&mut self)
        ensures
            final(self)@ == old(self)@.set_command(Kc::MoSL),
    {
        self.h_wheel = 255;
    }

    fn scroll_right(&mut self)
        ensures
            final(self)@ == old(self)@.set_command(Kc::MoSR),
    {
        self.h_wheel = 1;
    }

    fn scroll_up(&mut self)
        ensures
            final(self)@ == old(self)@.set_command(Kc::MoSU),
    {
        self.v_wheel = 255;
    }

    fn scroll_down(&mut self)
        ensures
            final(self)@ == old(self)@.set_command(Kc::MoSD),
    {
        self.v_wheel = 1;
    }
}

} // verus!
