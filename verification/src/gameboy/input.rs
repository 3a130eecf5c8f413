//! The joypad: eight keys read through two column lines.
use vstd::prelude::*;

verus! {

/// The eight keys of the console.
#[derive(Clone, Copy, PartialEq, Eq, Structural, Debug)]
pub enum Key {
    Up,
    Down,
    Left,
    Right,
    A,
    B,
    Start,
    Select,
}

/// The joypad state. Each key field is `true` while the key is held down.
#[derive(Clone, Copy, Debug)]
pub struct Input {
    pub up: bool,
    pub down: bool,
    pub left: bool,
    pub right: bool,
    pub start: bool,
    pub select: bool,
    pub a: bool,
    pub b: bool,
    /// Bits 4 and 5 of the last value written to the joypad register.
    pub column_line: u8,
}

/// The level of a key's line: 0 while the key is held, 1 while it is released.
pub open spec fn line(held: bool) -> int {
    if held {
        0
    } else {
        1
    }
}

/// The level of a line that two keys share while both columns are selected:
/// it reads 0 only while both keys are held.
pub open spec fn shared_line(held: bool, other_held: bool) -> int {
    if held && other_held {
        0
    } else {
        1
    }
}

impl Input {
    /// Whether `key` is held down.
    pub open spec fn held(self, key: Key) -> bool {
        match key {
            Key::Up => self.up,
            Key::Down => self.down,
            Key::Left => self.left,
            Key::Right => self.right,
            Key::A => self.a,
            Key::B => self.b,
            Key::Start => self.start,
            Key::Select => self.select,
        }
    }

    /// The joypad with `key` held down or released.
    pub open spec fn with_key(self, key: Key, held: bool) -> Input {
        match key {
            Key::Up => Input { up: held, ..self },
            Key::Down => Input { down: held, ..self },
            Key::Left => Input { left: held, ..self },
            Key::Right => Input { right: held, ..self },
            Key::A => Input { a: held, ..self },
            Key::B => Input { b: held, ..self },
            Key::Start => Input { start: held, ..self },
            Key::Select => Input { select: held, ..self },
        }
    }

    /// What the joypad register reads: the two top bits high, and in the low
    /// nibble the lines of the selected column. Column value 0x10 selects the
    /// action buttons (A, B, Select, Start from bit 0 up), 0x20 the direction
    /// pad (Right, Left, Up, Down).
    pub open spec fn joyp(self) -> int {
        if self.column_line == 0x10 {
            192 + line(self.a) + 2 * line(self.b) + 4 * line(self.select) + 8 * line(self.start)
        } else if self.column_line == 0x20 {
            192 + line(self.right) + 2 * line(self.left) + 4 * line(self.up) + 8 * line(self.down)
        } else if self.column_line == 0x30 {
            192 + line(self.a) + 2 * shared_line(self.b, self.left) + 4 * shared_line(
                self.select,
                self.up,
            ) + 8 * shared_line(self.start, self.down)
        } else {
            192
        }
    }

    /// The joypad with no key held and both columns deselected.
    pub open spec fn initial() -> Input {
        Input {
            up: false,
            down: false,
            left: false,
            right: false,
            start: false,
            select: false,
            a: false,
            b: false,
            column_line: 0x30,
        }
    }

    pub fn new() -> (input: Self)
        ensures
            input == Self::initial(),
    {
        Self {
            up: false,
            down: false,
            left: false,
            right: false,
            start: false,
            select: false,
            a: false,
            b: false,
            column_line: 0x30,
        }
    }

    /// Keeps bits 4 and 5 of the value written to the joypad register.
    pub fn set_column_line(&mut self, val: u8)
        ensures
            *final(self) == (Input { column_line: (val / 16 % 4 * 16) as u8, ..*old(self) }),
    {
        self.column_line = val / 16 % 4 * 16;
    }

    pub fn read_joyp(&self) -> (joyp: u8)
        ensures
            joyp == self.joyp(),
    {
        let a: u8 = if self.a { 0 } else { 1 };
        let b: u8 = if self.b { 0 } else { 1 };
        let select: u8 = if self.select { 0 } else { 1 };
        let start: u8 = if self.start { 0 } else { 1 };
        let right: u8 = if self.right { 0 } else { 1 };
        let left: u8 = if self.left { 0 } else { 1 };
        let up: u8 = if self.up { 0 } else { 1 };
        let down: u8 = if self.down { 0 } else { 1 };
        if self.column_line == 0x10 {
            192 + a + 2 * b + 4 * select + 8 * start
        } else if self.column_line == 0x20 {
            192 + right + 2 * left + 4 * up + 8 * down
        } else if self.column_line == 0x30 {
            let second: u8 = if b == 1 || left == 1 { 1 } else { 0 };
            let third: u8 = if select == 1 || up == 1 { 1 } else { 0 };
            let fourth: u8 = if start == 1 || down == 1 { 1 } else { 0 };
            192 + a + 2 * second + 4 * third + 8 * fourth
        } else {
            192
        }
    }

    /// Presses a key. Says whether the key's line fell, that is whether the
    /// key was released before.
    pub fn key_down(&mut self, key: Key) -> (pressed: bool)
        ensures
            *final(self) == old(self).with_key(key, true),
            pressed == !old(self).held(key),
    {
        let was_held = self.is_held(key);
        self.put_key(key, true);
        !was_held
    }

    /// Releases a key.
    pub fn key_up(&mut self, key: Key)
        ensures
            *final(self) == old(self).with_key(key, false),
    {
        self.put_key(key, false);
    }

    pub fn is_held(&self, key: Key) -> (held: bool)
        ensures
            held == self.held(key),
    {
        match key {
            Key::Up => self.up,
            Key::Down => self.down,
            Key::Left => self.left,
            Key::Right => self.right,
            Key::A => self.a,
            Key::B => self.b,
            Key::Start => self.start,
            Key::Select => self.select,
        }
    }

    fn put_key(&mut self, key: Key, held: bool)
        ensures
            *final(self) == old(self).with_key(key, held),
    {
        match key {
            Key::Up => self.up = held,
            Key::Down => self.down = held,
            Key::Left => self.left = held,
            Key::Right => self.right = held,
            Key::A => self.a = held,
            Key::B => self.b = held,
            Key::Start => self.start = held,
            Key::Select => self.select = held,
        }
    }
}

} // verus!
