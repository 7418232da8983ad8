//! The controller: eight buttons read out one bit at a time through a shift
//! register.

use vstd::prelude::*;

verus! {

#[derive(Clone, Copy, PartialEq, Eq, Structural, Debug)]
pub enum ButtonAction {
    Pressed,
    Released,
}

#[derive(Clone, Copy, PartialEq, Eq, Structural, Debug)]
pub enum Button {
    A,
    B,
    Select,
    Start,
    Up,
    Down,
    Left,
    Right,
}

impl Button {
    /// The position of the button's bit, which is also its place in the
    /// order in which the buttons are read out.
    pub open spec fn bit(self) -> u8 {
        match self {
            Button::A => 0,
            Button::B => 1,
            Button::Select => 2,
            Button::Start => 3,
            Button::Up => 4,
            Button::Down => 5,
            Button::Left => 6,
            Button::Right => 7,
        }
    }

    /// The byte in which only the button's bit is set.
    pub open spec fn mask(self) -> u8 {
        1u8 << self.bit()
    }

    /// The position of the button's bit.
    pub fn bit_pos(self) -> (pos: u8)
        ensures
            pos == self.bit(),
            pos < 8,
    {
        match self {
            Button::A => 0,
            Button::B => 1,
            Button::Select => 2,
            Button::Start => 3,
            Button::Up => 4,
            Button::Down => 5,
            Button::Left => 6,
            Button::Right => 7,
        }
    }
}

/// The state of a controller. It is its own model: three plain values.
#[derive(Clone, Copy, PartialEq, Eq, Structural, Debug)]
pub struct Controller {
    /// The buttons held down right now, one bit each.
    pub current_buttons: u8,
    /// The shift register that reads take their bits from.
    pub stored_buttons: u8,
    /// While set, the shift register follows the buttons.
    pub strobe: bool,
}

impl Controller {
    /// No button held, nothing latched, strobe off.
    pub open spec fn initial() -> Controller {
        Controller { current_buttons: 0, stored_buttons: 0, strobe: false }
    }

    /// While the strobe is on, the shift register holds the live buttons.
    pub open spec fn wf(self) -> bool {
        self.strobe ==> self.stored_buttons == self.current_buttons
    }

    /// Whether `button` is held down.
    pub open spec fn is_pressed(self, button: Button) -> bool {
        self.current_buttons & button.mask() != 0
    }

    /// The buttons after `action` on `button`.
    pub open spec fn buttons_after(self, action: ButtonAction, button: Button) -> u8 {
        match action {
            ButtonAction::Pressed => self.current_buttons | button.mask(),
            ButtonAction::Released => self.current_buttons & !button.mask(),
        }
    }

    /// The controller after `action` on `button`: the button's bit changes,
    /// and an active strobe reloads the shift register at once.
    pub open spec fn updated(self, action: ButtonAction, button: Button) -> Controller {
        let buttons = self.buttons_after(action, button);
        Controller {
            current_buttons: buttons,
            stored_buttons: if self.strobe {
                buttons
            } else {
                self.stored_buttons
            },
            strobe: self.strobe,
        }
    }

    /// The bit that the next read returns.
    pub open spec fn next_bit(self) -> u8 {
        self.stored_buttons & 1
    }

    /// The controller after one read: the register shifts unless the strobe
    /// holds it.
    pub open spec fn after_read(self) -> Controller {
        if self.strobe {
            self
        } else {
            Controller { stored_buttons: self.stored_buttons >> 1, ..self }
        }
    }

    /// The controller after `val` is written to the strobe port.
    pub open spec fn strobed(self, val: u8) -> Controller {
        Controller {
            current_buttons: self.current_buttons,
            stored_buttons: self.current_buttons,
            strobe: val & 1 == 1,
        }
    }

    /// A controller with no button held.
    pub fn new() -> (c: Controller)
        ensures
            c == Controller::initial(),
            c.wf(),
    {
        Controller { current_buttons: 0, stored_buttons: 0, strobe: false }
    }

    /// Presses or releases a button.
    pub fn update(&mut self, action: ButtonAction, button: Button)
        ensures
            *final(self) == old(self).updated(action, button),
            old(self).wf() ==> final(self).wf(),
    {
        let bit_pos: u8 = button.bit_pos();
        match action {
            ButtonAction::Pressed => {
                self.current_buttons = self.current_buttons | (1u8 << bit_pos);
            },
            ButtonAction::Released => {
                self.current_buttons = self.current_buttons & !(1u8 << bit_pos);
            },
        }
        if self.strobe {
            self.stored_buttons = self.current_buttons;
        }
    }

    /// Reads the next bit of the shift register.
    pub fn read_next(&mut self) -> (bit: u8)
        ensures
            bit == old(self).next_bit(),
            *final(self) == old(self).after_read(),
            old(self).wf() ==> final(self).wf(),
    {
        let ret: u8 = self.stored_buttons & 1;
        if !self.strobe {
            self.stored_buttons = self.stored_buttons >> 1;
        }
        ret
    }

    /// Writes the strobe port.
    pub fn set_strobe(&mut self, val: u8)
        ensures
            *final(self) == old(self).strobed(val),
            final(self).wf(),
    {
        self.strobe = (val & 1) == 1;
        self.stored_buttons = self.current_buttons;
    }

    /// Every operation keeps the shift register in step with an active
    /// strobe.
    pub proof fn lemma_wf_preserved(self, action: ButtonAction, button: Button, val: u8)
        requires
            self.wf(),
        ensures
            self.strobed(val).wf(),
            self.updated(action, button).wf(),
            self.after_read().wf(),
    {
    }

    /// With the strobe held active, a read changes nothing and returns the
    /// bit of button A, however often it is repeated.
    pub proof fn lemma_strobe_holds_first_button(self)
        requires
            self.wf(),
            self.strobe,
        ensures
            self.after_read() == self,
            self.next_bit() == 1 <==> self.is_pressed(Button::A),
            self.next_bit() == 0 <==> !self.is_pressed(Button::A),
    {
        let b = self.current_buttons;
        assert(b & 1 == 1 <==> b & (1u8 << 0u8) != 0) by (bit_vector);
        assert(b & 1 == 0 <==> b & (1u8 << 0u8) == 0) by (bit_vector);
    }

    /// Pressing or releasing one button leaves every other button as it was,
    /// and leaves that button pressed or released.
    pub proof fn lemma_update_one_button(self, action: ButtonAction, button: Button, other: Button)
        ensures
            self.updated(action, button).is_pressed(button) == (action == ButtonAction::Pressed),
            other != button ==> self.updated(action, button).is_pressed(other) == self.is_pressed(
                other,
            ),
    {
        let b = self.current_buttons;
        let i = button.bit();
        let j = other.bit();
        assert(i < 8 && j < 8);
        assert(other != button ==> i != j);
        let set = b | (1u8 << i);
        let cleared = b & !(1u8 << i);
        assert(set & (1u8 << i) != 0 && cleared & (1u8 << i) == 0) by (bit_vector)
            requires
                i < 8,
                set == b | (1u8 << i),
                cleared == b & !(1u8 << i),
        ;
        assert(i != j ==> (set & (1u8 << j) != 0) == (b & (1u8 << j) != 0)) by (bit_vector)
            requires
                i < 8,
                j < 8,
                set == b | (1u8 << i),
        ;
        assert(i != j ==> (cleared & (1u8 << j) != 0) == (b & (1u8 << j) != 0)) by (bit_vector)
            requires
                i < 8,
                j < 8,
                cleared == b & !(1u8 << i),
        ;
    }
}

} // verus!
