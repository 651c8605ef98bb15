//! Interrupt requests (IF, 0xFF0F) and interrupt enables (IE, 0xFFFF).
use vstd::prelude::*;
use crate::alu::bit_of;

verus! {

/// The five interrupt sources, by priority.
#[derive(Clone, Copy, Debug, PartialEq, Eq, Structural)]
pub enum Interruption {
    VBlank,
    LCDStat,
    Timer,
    Serial,
    Joypad,
}

/// The bit of an interrupt source in IF and IE.
pub open spec fn interruption_bit(i: Interruption) -> u8 {
    match i {
        Interruption::VBlank => 0,
        Interruption::LCDStat => 1,
        Interruption::Timer => 2,
        Interruption::Serial => 3,
        Interruption::Joypad => 4,
    }
}

impl Interruption {
    pub fn bit(&self) -> (r: u8)
        ensures
            r == interruption_bit(*self),
    {
        match self {
            Interruption::VBlank => 0,
            Interruption::LCDStat => 1,
            Interruption::Timer => 2,
            Interruption::Serial => 3,
            Interruption::Joypad => 4,
        }
    }

    /// The address of the handler: 0x40 plus eight times the bit.
    pub fn handler(&self) -> (r: u16)
        ensures
            r == 0x40 + 8 * interruption_bit(*self),
    {
        0x40u16 + 8 * (self.bit() as u16)
    }
}

/// The interrupt flag register (requests) and the interrupt enable register.
#[derive(Clone, Copy, Debug, PartialEq, Eq, Structural)]
pub struct Interrupts {
    pub flag: u8,
    pub enable: u8,
}

/// The requests that are enabled, in the five low bits.
pub open spec fn pending(i: Interrupts) -> u8 {
    i.flag & i.enable & 0x1F
}

/// The enabled request of highest priority (lowest bit), if any.
pub open spec fn highest_pending(i: Interrupts) -> Option<Interruption> {
    let p = pending(i);
    if bit_of(p, 0) {
        Some(Interruption::VBlank)
    } else if bit_of(p, 1) {
        Some(Interruption::LCDStat)
    } else if bit_of(p, 2) {
        Some(Interruption::Timer)
    } else if bit_of(p, 3) {
        Some(Interruption::Serial)
    } else if bit_of(p, 4) {
        Some(Interruption::Joypad)
    } else {
        None
    }
}

/// The flags with the request of `i` set.
pub open spec fn request(r: Interrupts, i: Interruption) -> Interrupts {
    Interrupts { flag: r.flag | ((1u8 << interruption_bit(i)) as u8), ..r }
}

/// The flags with the request of `i` cleared.
pub open spec fn acknowledge(r: Interrupts, i: Interruption) -> Interrupts {
    Interrupts { flag: r.flag & !((1u8 << interruption_bit(i)) as u8), ..r }
}

impl Interrupts {
    pub open spec fn new_spec() -> Interrupts {
        Interrupts { flag: 0, enable: 0 }
    }

    pub fn new() -> (r: Interrupts)
        ensures
            r == Interrupts::new_spec(),
    {
        Interrupts { flag: 0, enable: 0 }
    }

    /// Whether some requested interrupt is enabled.
    pub fn some_interrupt_enabled(&self) -> (r: bool)
        ensures
            r == (pending(*self) != 0),
            r == highest_pending(*self).is_some(),
    {
        let fl: u8 = self.flag;
        let en: u8 = self.enable;
        let p: u8 = fl & en & 0x1F;
        assert(p != 0 <==> ((p >> 0u8) & 1 == 1 || (p >> 1u8) & 1 == 1 || (p >> 2u8) & 1 == 1 || (p
            >> 3u8) & 1 == 1 || (p >> 4u8) & 1 == 1)) by (bit_vector)
            requires
                p == fl & en & 0x1F,
        ;
        p != 0
    }

    /// Takes the enabled request of highest priority, clearing its flag.
    pub fn interrupt_to_handle(&mut self) -> (r: Option<Interruption>)
        ensures
            r == highest_pending(*old(self)),
            match r {
                Some(i) => *final(self) == acknowledge(*old(self), i),
                None => *final(self) == *old(self),
            },
    {
        let p: u8 = self.flag & self.enable & 0x1F;
        let r = if crate::alu::get_bit_val(0, p) {
            Some(Interruption::VBlank)
        } else if crate::alu::get_bit_val(1, p) {
            Some(Interruption::LCDStat)
        } else if crate::alu::get_bit_val(2, p) {
            Some(Interruption::Timer)
        } else if crate::alu::get_bit_val(3, p) {
            Some(Interruption::Serial)
        } else if crate::alu::get_bit_val(4, p) {
            Some(Interruption::Joypad)
        } else {
            None
        };
        match r {
            Some(i) => {
                let b = i.bit();
                self.flag = self.flag & !(1u8 << b);
            },
            None => {},
        }
        r
    }

    /// Requests interrupt `i`.
    pub fn turnon(&mut self, i: Interruption)
        ensures
            *final(self) == request(*old(self), i),
    {
        let b = i.bit();
        self.flag = self.flag | (1u8 << b);
    }

    pub fn read_flag(&self) -> (r: u8)
        ensures
            r == self.flag,
    {
        self.flag
    }

    pub fn write_flag(&mut self, value: u8)
        ensures
            *final(self) == (Interrupts { flag: value, ..*old(self) }),
    {
        self.flag = value;
    }

    pub fn read_enable(&self) -> (r: u8)
        ensures
            r == self.enable,
    {
        self.enable
    }

    pub fn write_enable(&mut self, value: u8)
        ensures
            *final(self) == (Interrupts { enable: value, ..*old(self) }),
    {
        self.enable = value;
    }
}

/// A requested interrupt of the highest priority is the one handled, and
/// handling it clears exactly its request.
pub proof fn lemma_request_then_handle(r: Interrupts, i: Interruption)
    requires
        r.flag == 0,
        bit_of(r.enable, interruption_bit(i)),
    ensures
        highest_pending(request(r, i)) == Some(i),
        acknowledge(request(r, i), i).flag == 0,
{
    let b = interruption_bit(i);
    let e = r.enable;
    let f: u8 = (1u8 << b) as u8;
    assert(b < 5 ==> ((((f & e & 0x1F) >> b) & 1 == 1) && (forall|q: u8| q < b ==> ((f & e & 0x1F) >> q) & 1 == 0)
        && (f & !f) == 0)) by (bit_vector)
        requires
            f == 1u8 << b,
            (e >> b) & 1 == 1,
    ;
    let g = r.flag;
    assert(g | f == f) by (bit_vector)
        requires
            g == 0,
    ;
}

} // verus!
