//! The joypad register (0xFF00): a selector written by the program and the
//! state of the eight buttons.
use vstd::prelude::*;
use crate::alu::bit_of;

verus! {

#[derive(Clone, Copy, Debug, PartialEq, Eq, Structural)]
pub enum Button {
    Up,
    Down,
    Left,
    Right,
    Start,
    Select,
    A,
    B,
}

/// For each button, whether it is pressed.
#[derive(Clone, Copy, Debug, PartialEq, Eq, Structural)]
pub struct JoypadState {
    pub a: bool,
    pub b: bool,
    pub start: bool,
    pub select: bool,
    pub up: bool,
    pub down: bool,
    pub left: bool,
    pub right: bool,
}

/// The selector bits (0x20 arrows, 0x10 buttons) and the button states.
#[derive(Clone, Copy, Debug, PartialEq, Eq, Structural)]
pub struct Joypad {
    pub register: u8,
    pub state: JoypadState,
}

pub open spec fn released(b: bool) -> int {
    if b { 0 } else { 1 }
}

/// The arrows as a nibble, a set bit meaning released: Down, Up, Left, Right
/// from bit 3 to bit 0.
pub open spec fn arrows_nibble(s: JoypadState) -> int {
    8 * released(s.down) + 4 * released(s.up) + 2 * released(s.left) + released(s.right)
}

/// The other buttons as a nibble: Start, Select, B, A from bit 3 to bit 0.
pub open spec fn buttons_nibble(s: JoypadState) -> int {
    8 * released(s.start) + 4 * released(s.select) + 2 * released(s.b) + released(s.a)
}

/// What a read of the joypad register gives: bits 7 and 6 set, the selector
/// bits, and the arrows when bit 5 is selected, else the buttons when bit 4
/// is, else all released when neither is.
pub open spec fn joypad_read_spec(j: Joypad) -> u8 {
    let sel = j.register & 0x30;
    let low = if sel & 0x20 != 0 {
        arrows_nibble(j.state)
    } else if sel & 0x10 != 0 {
        buttons_nibble(j.state)
    } else {
        15
    };
    (0xC0 + sel + low) as u8
}

/// The state with button `b` pressed (`v`) or released (`!v`).
pub open spec fn with_button(s: JoypadState, b: Button, v: bool) -> JoypadState {
    match b {
        Button::A => JoypadState { a: v, ..s },
        Button::B => JoypadState { b: v, ..s },
        Button::Start => JoypadState { start: v, ..s },
        Button::Select => JoypadState { select: v, ..s },
        Button::Up => JoypadState { up: v, ..s },
        Button::Down => JoypadState { down: v, ..s },
        Button::Left => JoypadState { left: v, ..s },
        Button::Right => JoypadState { right: v, ..s },
    }
}

fn released_bit(pressed: bool) -> (r: u8)
    ensures
        r == released(pressed),
{
    if pressed { 0 } else { 1 }
}

impl Joypad {
    /// No selector, no button pressed.
    pub open spec fn new_spec() -> Joypad {
        Joypad {
            register: 0,
            state: JoypadState {
                a: false,
                b: false,
                start: false,
                select: false,
                up: false,
                down: false,
                left: false,
                right: false,
            },
        }
    }

    pub fn new() -> (r: Joypad)
        ensures
            r == Joypad::new_spec(),
    {
        Joypad {
            register: 0x0,
            state: JoypadState {
                a: false,
                b: false,
                start: false,
                select: false,
                up: false,
                down: false,
                left: false,
                right: false,
            },
        }
    }

    /// The selected group of buttons as the register reads them (0 means
    /// pressed).
    pub fn read(&self) -> (r: u8)
        ensures
            r == joypad_read_spec(*self),
    {
        let reg = self.register;
        let selector: u8 = reg & 0x30;
        let mut result: u8 = selector | 0b1100_0000;
        assert(selector | 0xC0 == 0xC0 + selector && selector <= 0x30 && selector & 0x0F == 0 && (selector & 0x20 != 0
            || selector & 0x10 != 0 || selector == 0)) by (bit_vector)
            requires
                selector == reg & 0x30,
        ;
        let low: u8 = if selector & 0x20 != 0 {
            8 * released_bit(self.state.down) + 4 * released_bit(self.state.up) + 2 * released_bit(
                self.state.left,
            ) + released_bit(self.state.right)
        } else if selector & 0x10 != 0 {
            8 * released_bit(self.state.start) + 4 * released_bit(self.state.select) + 2
                * released_bit(self.state.b) + released_bit(self.state.a)
        } else {
            0x0F
        };
        let r = result | low;
        assert(r == result + low) by (bit_vector)
            requires
                low <= 15,
                result == 0xC0 + selector,
                selector & 0x0F == 0,
                r == result | low,
        ;
        r
    }

    /// Keeps the selector bits of `value`; the other bits of the register
    /// read as set.
    pub fn write(&mut self, value: u8)
        ensures
            *final(self) == (Joypad { register: 0b1100_1111 | (value & 0x30), ..*old(self) }),
    {
        self.register = 0b1100_1111 | (value & 0x30);
    }

    pub fn button_pressed(&mut self, b: Button)
        ensures
            *final(self) == (Joypad { state: with_button(old(self).state, b, true), ..*old(self) }),
    {
        match b {
            Button::A => self.state.a = true,
            Button::B => self.state.b = true,
            Button::Start => self.state.start = true,
            Button::Select => self.state.select = true,
            Button::Up => self.state.up = true,
            Button::Down => self.state.down = true,
            Button::Left => self.state.left = true,
            Button::Right => self.state.right = true,
        }
    }

    pub fn button_released(&mut self, b: Button)
        ensures
            *final(self) == (Joypad { state: with_button(old(self).state, b, false), ..*old(self) }),
    {
        match b {
            Button::A => self.state.a = false,
            Button::B => self.state.b = false,
            Button::Start => self.state.start = false,
            Button::Select => self.state.select = false,
            Button::Up => self.state.up = false,
            Button::Down => self.state.down = false,
            Button::Left => self.state.left = false,
            Button::Right => self.state.right = false,
        }
    }
}

/// The selector written by the program is the one read back.
pub proof fn lemma_write_then_selector(j: Joypad, value: u8)
    ensures
        ((0b1100_1111u8 | (value & 0x30)) & 0x30) == value & 0x30,
{
    assert(((0b1100_1111u8 | (value & 0x30)) & 0x30) == value & 0x30) by (bit_vector);
}

/// Pressing and then releasing a button gives the state it had when it was
/// released before.
pub proof fn lemma_press_release(s: JoypadState, b: Button)
    ensures
        with_button(with_button(s, b, true), b, false) == with_button(s, b, false),
        with_button(with_button(s, b, false), b, true) == with_button(s, b, true),
{
}

/// Whether a button is one of the arrows (the other group is A, B, Select
/// and Start).
pub open spec fn is_arrow(b: Button) -> bool {
    b == Button::Up || b == Button::Down || b == Button::Left || b == Button::Right
}

/// The bit of a button in its group: Right and A bit 0, Left and B bit 1,
/// Up and Select bit 2, Down and Start bit 3.
pub open spec fn button_bit(b: Button) -> u8 {
    match b {
        Button::Right | Button::A => 0,
        Button::Left | Button::B => 1,
        Button::Up | Button::Select => 2,
        Button::Down | Button::Start => 3,
    }
}

/// When the group of a button is the one selected (bit 5 for the arrows;
/// bit 4 without bit 5 for the others), the register reads its bit clear
/// while it is pressed and set while it is released.
pub proof fn lemma_button_reads(j: Joypad, b: Button, pressed: bool)
    requires
        if is_arrow(b) {
            j.register & 0x20 != 0
        } else {
            j.register & 0x20 == 0 && j.register & 0x10 != 0
        },
    ensures
        bit_of(joypad_read_spec(Joypad { state: with_button(j.state, b, pressed), ..j }), button_bit(b)) == !pressed,
{
    let j1 = Joypad { state: with_button(j.state, b, pressed), ..j };
    let reg = j.register;
    let sel: u8 = reg & 0x30;
    assert(sel & 0x20 == reg & 0x20 && sel & 0x10 == reg & 0x10 && sel & 0x0F == 0 && sel <= 0x30) by (bit_vector)
        requires
            sel == reg & 0x30,
    ;
    let st = j1.state;
    let (d, c, bb, a) = if is_arrow(b) {
        (released(st.down), released(st.up), released(st.left), released(st.right))
    } else {
        (released(st.start), released(st.select), released(st.b), released(st.a))
    };
    let low: u8 = (8 * d + 4 * c + 2 * bb + a) as u8;
    let x: u8 = joypad_read_spec(j1);
    assert(x == (0xC0 + sel + low) as u8);
    let k = button_bit(b);
    let d8 = d as u8;
    let c8 = c as u8;
    let b8 = bb as u8;
    let a8 = a as u8;
    assert(((x >> k) & 1 == 1) == (if k == 0 { a8 == 1 } else if k == 1 { b8 == 1 } else if k == 2 { c8 == 1 } else {
        d8 == 1
    })) by (bit_vector)
        requires
            x == (0xC0 + sel + low) as u8,
            low == 8 * d8 + 4 * c8 + 2 * b8 + a8,
            d8 <= 1,
            c8 <= 1,
            b8 <= 1,
            a8 <= 1,
            sel & 0x0F == 0,
            sel <= 0x30,
            k < 4,
    ;
}

} // verus!
