//! The GBA joypad: 10 buttons exposed through KEYINPUT/KEYCNT at
//! 0x04000130. The UI layer only ever sends `press`/`release` events.
use vstd::prelude::*;

verus! {

/// Offset of KEYINPUT within the I/O page.
pub const IO_BASE: usize = 0x130;

/// KEYINPUT (2 bytes) + KEYCNT (2 bytes).
pub const IO_SIZE: usize = 4;

#[derive(Debug, Clone, Copy, PartialEq, Eq, Structural)]
pub enum Button {
    A,
    B,
    Select,
    Start,
    Right,
    Left,
    Up,
    Down,
    R,
    L,
}

impl Button {
    /// KEYINPUT/KEYCNT bit index — also the stable numeric ID used by the
    /// native bridges.
    pub open spec fn spec_bit(self) -> u16 {
        match self {
            Button::A => 0,
            Button::B => 1,
            Button::Select => 2,
            Button::Start => 3,
            Button::Right => 4,
            Button::Left => 5,
            Button::Up => 6,
            Button::Down => 7,
            Button::R => 8,
            Button::L => 9,
        }
    }

    pub fn bit(self) -> (b: u16)
        ensures
            b == self.spec_bit(),
            b < 10,
    {
        match self {
            Button::A => 0,
            Button::B => 1,
            Button::Select => 2,
            Button::Start => 3,
            Button::Right => 4,
            Button::Left => 5,
            Button::Up => 6,
            Button::Down => 7,
            Button::R => 8,
            Button::L => 9,
        }
    }

    /// The button with numeric ID `index`, if there is one (0-9).
    pub fn from_index(index: i32) -> (b: Option<Button>)
        ensures
            0 <= index < 10 ==> b.is_some() && b.unwrap().spec_bit() == index,
            !(0 <= index < 10) ==> b.is_none(),
    {
        if index == 0 {
            Some(Button::A)
        } else if index == 1 {
            Some(Button::B)
        } else if index == 2 {
            Some(Button::Select)
        } else if index == 3 {
            Some(Button::Start)
        } else if index == 4 {
            Some(Button::Right)
        } else if index == 5 {
            Some(Button::Left)
        } else if index == 6 {
            Some(Button::Up)
        } else if index == 7 {
            Some(Button::Down)
        } else if index == 8 {
            Some(Button::R)
        } else if index == 9 {
            Some(Button::L)
        } else {
            None
        }
    }
}

/// All 10 button bits set (released); bits 10-15 read as 1.
pub const RELEASED: u16 = 0xFFFF;

#[derive(Debug, Clone, Copy)]
pub struct Joypad {
    /// Active-low: a 0 bit means that button is currently held.
    keyinput: u16,
    keycnt: u16,
}

impl Joypad {
    pub closed spec fn spec_keyinput(self) -> u16 {
        self.keyinput
    }

    pub closed spec fn spec_keycnt(self) -> u16 {
        self.keycnt
    }

    pub closed spec fn with_values(keyinput: u16, keycnt: u16) -> Joypad {
        Joypad { keyinput, keycnt }
    }

    pub open spec fn spec_is_pressed(self, button: Button) -> bool {
        self.spec_keyinput() & (1u16 << button.spec_bit()) == 0
    }

    pub open spec fn spec_read_register(self, offset: usize) -> u8 {
        if offset == 0 {
            (self.spec_keyinput() & 0xFF) as u8
        } else if offset == 1 {
            (self.spec_keyinput() >> 8) as u8
        } else if offset == 2 {
            (self.spec_keycnt() & 0xFF) as u8
        } else if offset == 3 {
            (self.spec_keycnt() >> 8) as u8
        } else {
            0
        }
    }

    /// KEYINPUT is read-only; KEYCNT's bytes are plain storage.
    pub open spec fn spec_write_register(self, offset: usize, value: u8) -> Joypad {
        if offset == 2 {
            Self::with_values(self.spec_keyinput(), (self.spec_keycnt() & 0xFF00) | value as u16)
        } else if offset == 3 {
            Self::with_values(
                self.spec_keyinput(),
                (self.spec_keycnt() & 0x00FF) | ((value as u16) << 8),
            )
        } else {
            self
        }
    }

    /// KEYCNT's IRQ condition: IRQ enabled (bit 14), some button selected
    /// (bits 0-9), and any (bit 15 clear) or all (bit 15 set) selected
    /// buttons held.
    pub open spec fn spec_irq_condition_met(self) -> bool {
        let selected = self.spec_keycnt() & 0x03FF;
        let held = (!self.spec_keyinput()) & 0x03FF;
        &&& self.spec_keycnt() & 0x4000 != 0
        &&& selected != 0
        &&& if self.spec_keycnt() & 0x8000 != 0 {
            held & selected == selected
        } else {
            held & selected != 0
        }
    }

    pub fn new() -> (j: Self)
        ensures
            j == Self::with_values(RELEASED, 0),
    {
        Joypad { keyinput: RELEASED, keycnt: 0 }
    }

    /// The joypad with `button` held: its KEYINPUT bit goes low.
    pub open spec fn spec_press(self, button: Button) -> Joypad {
        Self::with_values(self.spec_keyinput() & !(1u16 << button.spec_bit()), self.spec_keycnt())
    }

    /// The joypad with `button` released: its KEYINPUT bit goes high.
    pub open spec fn spec_release(self, button: Button) -> Joypad {
        Self::with_values(self.spec_keyinput() | (1u16 << button.spec_bit()), self.spec_keycnt())
    }

    pub fn press(&mut self, button: Button)
        ensures
            *final(self) == old(self).spec_press(button),
    {
        self.keyinput = self.keyinput & !(1u16 << button.bit());
    }

    pub fn release(&mut self, button: Button)
        ensures
            *final(self) == old(self).spec_release(button),
    {
        self.keyinput = self.keyinput | (1u16 << button.bit());
    }

    pub fn is_pressed(&self, button: Button) -> (b: bool)
        ensures
            b == self.spec_is_pressed(button),
    {
        self.keyinput & (1u16 << button.bit()) == 0
    }

    pub fn read_register(&self, offset: usize) -> (b: u8)
        ensures
            b == self.spec_read_register(offset),
    {
        if offset == 0 {
            (self.keyinput & 0xFF) as u8
        } else if offset == 1 {
            (self.keyinput >> 8) as u8
        } else if offset == 2 {
            (self.keycnt & 0xFF) as u8
        } else if offset == 3 {
            (self.keycnt >> 8) as u8
        } else {
            0
        }
    }

    pub fn write_register(&mut self, offset: usize, value: u8)
        ensures
            *final(self) == old(self).spec_write_register(offset, value),
    {
        if offset == 2 {
            self.keycnt = (self.keycnt & 0xFF00) | value as u16;
        } else if offset == 3 {
            self.keycnt = (self.keycnt & 0x00FF) | ((value as u16) << 8);
        }
        // KEYINPUT (offsets 0-1) is read-only, driven by press()/release().
    }

    /// Whether the currently held buttons satisfy KEYCNT's IRQ condition.
    pub fn irq_condition_met(&self) -> (b: bool)
        ensures
            b == self.spec_irq_condition_met(),
    {
        let irq_enabled = self.keycnt & 0x4000 != 0;
        if !irq_enabled {
            return false;
        }
        let selected: u16 = self.keycnt & 0x03FF;
        if selected == 0 {
            return false;
        }
        let held: u16 = (!self.keyinput) & 0x03FF;
        let require_all = self.keycnt & 0x8000 != 0;
        if require_all {
            held & selected == selected
        } else {
            held & selected != 0
        }
    }
}

/// A joypad built from register values holds exactly those values, and
/// two joypads with the same register values are the same.
pub broadcast proof fn lemma_with_values(keyinput: u16, keycnt: u16)
    ensures
        #[trigger] Joypad::with_values(keyinput, keycnt).spec_keyinput() == keyinput,
        Joypad::with_values(keyinput, keycnt).spec_keycnt() == keycnt,
{
}

/// A joypad is determined by its KEYINPUT and KEYCNT values.
pub proof fn lemma_joypad_ext(a: Joypad, b: Joypad)
    requires
        a.spec_keyinput() == b.spec_keyinput(),
        a.spec_keycnt() == b.spec_keycnt(),
    ensures
        a == b,
{
}

/// Pressing or releasing a button keeps KEYCNT, and pressing a button that
/// is already held (or releasing one that is not) changes nothing.
pub proof fn lemma_press_keeps_keycnt(j: Joypad, button: Button)
    ensures
        j.spec_press(button).spec_keycnt() == j.spec_keycnt(),
        j.spec_release(button).spec_keycnt() == j.spec_keycnt(),
        j.spec_is_pressed(button) ==> j.spec_press(button) == j,
        !j.spec_is_pressed(button) ==> j.spec_release(button) == j,
{
    let k = j.spec_keyinput();
    let bb = button.spec_bit();
    assert(bb < 16);
    assert(k & (1u16 << bb) == 0 ==> k & !(1u16 << bb) == k) by (bit_vector);
    assert(k & (1u16 << bb) != 0 ==> k | (1u16 << bb) == k) by (bit_vector)
        requires
            bb < 16,
    ;
}

/// Pressing a button makes it read as pressed and leaves every other
/// button's state unchanged; releasing it undoes the press.
pub proof fn lemma_press_release(j: Joypad, button: Button, other: Button)
    ensures
        ({
            let pressed = Joypad::with_values(
                j.spec_keyinput() & !(1u16 << button.spec_bit()),
                j.spec_keycnt(),
            );
            let released = Joypad::with_values(
                pressed.spec_keyinput() | (1u16 << button.spec_bit()),
                pressed.spec_keycnt(),
            );
            &&& pressed.spec_is_pressed(button)
            &&& other != button ==> pressed.spec_is_pressed(other) == j.spec_is_pressed(other)
            &&& !released.spec_is_pressed(button)
            &&& other != button ==> released.spec_is_pressed(other) == j.spec_is_pressed(other)
        }),
{
    let k = j.spec_keyinput();
    let a = button.spec_bit();
    let b = other.spec_bit();
    assert(a < 10 && b < 10);
    assert(a < 10 && b < 10 && a != b ==> ((k & !(1u16 << a)) & (1u16 << a) == 0 && (((k & !(1u16
        << a)) & (1u16 << b) == 0) == (k & (1u16 << b) == 0)) && ((k & !(1u16 << a)) | (1u16
        << a)) & (1u16 << a) != 0 && ((((k & !(1u16 << a)) | (1u16 << a)) & (1u16 << b) == 0) == (
    k & (1u16 << b) == 0)))) by (bit_vector);
    assert(a < 10 ==> ((k & !(1u16 << a)) & (1u16 << a) == 0 && ((k & !(1u16 << a)) | (1u16
        << a)) & (1u16 << a) != 0)) by (bit_vector);
}

} // verus!
