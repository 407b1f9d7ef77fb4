use vstd::prelude::*;
use crate::semantics::bool_bit;

verus! {

/// The host keys that drive the cabinet's controls.
#[derive(Clone, Copy, Debug, PartialEq, Eq, Structural)]
pub enum HostKey {
    Left,
    Right,
    A,
    D,
    Space,
    W,
    J,
    L,
    I,
    Key1,
    Key2,
    Key3,
    T,
}

/// Represents the input state for Space Invaders controls
#[derive(Clone, Copy, Debug, PartialEq, Eq, Structural)]
pub struct Input {
    // Port 1 bits (read from port 1)
    pub coin: bool,  // Bit 0
    pub p2_start: bool,  // Bit 1
    pub p1_start: bool,  // Bit 2
    pub p1_shoot: bool,  // Bit 4
    pub p1_left: bool,  // Bit 5
    pub p1_right: bool,  // Bit 6
    // Port 2 bits (read from port 2) - DIP switches
    pub dip3: bool,  // Bit 0 - Ships per game
    pub dip5: bool,  // Bit 1 - Extra ship at
    pub tilt: bool,  // Bit 2
    pub dip6: bool,  // Bit 3 - Extra ship at
    pub p2_shoot: bool,  // Bit 4
    pub p2_left: bool,  // Bit 5
    pub p2_right: bool,  // Bit 6
    pub dip7: bool,  // Bit 7 - Coin info
}

/// The byte that port 1 reads: coin, P2 start, P1 start, 1, P1 shoot, left, right.
pub open spec fn port1_byte(i: Input) -> u8 {
    bool_bit(i.coin, 0x01) | bool_bit(i.p2_start, 0x02) | bool_bit(i.p1_start, 0x04) | 0x08u8
        | bool_bit(i.p1_shoot, 0x10) | bool_bit(i.p1_left, 0x20) | bool_bit(i.p1_right, 0x40)
}

/// The byte that port 2 reads: DIP switches, tilt and player 2's controls.
pub open spec fn port2_byte(i: Input) -> u8 {
    bool_bit(i.dip3, 0x01) | bool_bit(i.dip5, 0x02) | bool_bit(i.tilt, 0x04) | bool_bit(i.dip6, 0x08)
        | bool_bit(i.p2_shoot, 0x10) | bool_bit(i.p2_left, 0x20) | bool_bit(i.p2_right, 0x40)
        | bool_bit(i.dip7, 0x80)
}

/// The controls that the keys held in `keys` press; DIP switches are kept.
pub open spec fn pressed(i: Input, keys: Seq<HostKey>) -> Input {
    Input {
        p1_left: keys.contains(HostKey::Left) || keys.contains(HostKey::A),
        p1_right: keys.contains(HostKey::Right) || keys.contains(HostKey::D),
        p1_shoot: keys.contains(HostKey::Space) || keys.contains(HostKey::W),
        p2_left: keys.contains(HostKey::J),
        p2_right: keys.contains(HostKey::L),
        p2_shoot: keys.contains(HostKey::I),
        coin: keys.contains(HostKey::Key3),
        p1_start: keys.contains(HostKey::Key1),
        p2_start: keys.contains(HostKey::Key2),
        tilt: keys.contains(HostKey::T),
        ..i
    }
}

/// Whether `k` is among `keys`.
fn holds_key(keys: &[HostKey], k: HostKey) -> (r: bool)
    ensures
        r == keys@.contains(k),
{
    let mut i: usize = 0;
    while i < keys.len()
        invariant
            i <= keys@.len(),
            forall|j: int| 0 <= j < i ==> keys@[j] != k,
        decreases keys@.len() - i,
    {
        if keys[i] == k {
            assert(keys@[i as int] == k);
            return true;
        }
        i = i + 1;
    }
    false
}

impl Input {
    /// No control pressed; DIP switches for 3 ships and an extra ship at 1500.
    pub fn new() -> (r: Self)
        ensures
            r == (Input {
                coin: false,
                p2_start: false,
                p1_start: false,
                p1_shoot: false,
                p1_left: false,
                p1_right: false,
                dip3: true,
                dip5: false,
                tilt: false,
                dip6: false,
                p2_shoot: false,
                p2_left: false,
                p2_right: false,
                dip7: false,
            }),
    {
        Input {
            coin: false,
            p2_start: false,
            p1_start: false,
            p1_shoot: false,
            p1_left: false,
            p1_right: false,
            dip3: true,
            dip5: false,
            tilt: false,
            dip6: false,
            p2_shoot: false,
            p2_left: false,
            p2_right: false,
            dip7: false,
        }
    }

    /// Sets each control from the keys held down.
    pub fn update(&mut self, keys: &[HostKey])
        ensures
            *final(self) == pressed(*old(self), keys@),
    {
        // Player 1 controls
        self.p1_left = holds_key(keys, HostKey::Left) || holds_key(keys, HostKey::A);
        self.p1_right = holds_key(keys, HostKey::Right) || holds_key(keys, HostKey::D);
        self.p1_shoot = holds_key(keys, HostKey::Space) || holds_key(keys, HostKey::W);
        // Player 2 controls
        self.p2_left = holds_key(keys, HostKey::J);
        self.p2_right = holds_key(keys, HostKey::L);
        self.p2_shoot = holds_key(keys, HostKey::I);
        // Game controls
        self.coin = holds_key(keys, HostKey::Key3);
        self.p1_start = holds_key(keys, HostKey::Key1);
        self.p2_start = holds_key(keys, HostKey::Key2);
        // Tilt (cheat detection)
        self.tilt = holds_key(keys, HostKey::T);
    }

    /// Get port 1 byte value (player inputs)
    pub fn get_port1(&self) -> (r: u8)
        ensures
            r == port1_byte(*self),
    {
        let coin: u8 = if self.coin { 0x01 } else { 0 };
        let p2_start: u8 = if self.p2_start { 0x02 } else { 0 };
        let p1_start: u8 = if self.p1_start { 0x04 } else { 0 };
        let p1_shoot: u8 = if self.p1_shoot { 0x10 } else { 0 };
        let p1_left: u8 = if self.p1_left { 0x20 } else { 0 };
        let p1_right: u8 = if self.p1_right { 0x40 } else { 0 };
        coin | p2_start | p1_start | 0x08u8 | p1_shoot | p1_left | p1_right
    }

    /// Get port 2 byte value (DIP switches and player 2)
    pub fn get_port2(&self) -> (r: u8)
        ensures
            r == port2_byte(*self),
    {
        let dip3: u8 = if self.dip3 { 0x01 } else { 0 };
        let dip5: u8 = if self.dip5 { 0x02 } else { 0 };
        let tilt: u8 = if self.tilt { 0x04 } else { 0 };
        let dip6: u8 = if self.dip6 { 0x08 } else { 0 };
        let p2_shoot: u8 = if self.p2_shoot { 0x10 } else { 0 };
        let p2_left: u8 = if self.p2_left { 0x20 } else { 0 };
        let p2_right: u8 = if self.p2_right { 0x40 } else { 0 };
        let dip7: u8 = if self.dip7 { 0x80 } else { 0 };
        dip3 | dip5 | tilt | dip6 | p2_shoot | p2_left | p2_right | dip7
    }
}

} // verus!
