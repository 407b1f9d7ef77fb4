use vstd::prelude::*;

verus! {

/// What the arcade port device holds, as plain values.
pub struct PortsView {
    pub shift_register: u16,
    pub shift_amount: u8,
    pub port1: u8,
    pub port2: u8,
    pub port3: u8,
    pub port5: u8,
    pub console: Seq<u8>,
}

/// The byte that `IN port` reads from a device in state `p`.
pub open spec fn port_read(p: PortsView, port: u8) -> u8 {
    if port == 1 {
        p.port1
    } else if port == 2 {
        p.port2
    } else if port == 3 {
        ((p.shift_register >> (8 - p.shift_amount) as u16) & 0xFF) as u8
    } else {
        0
    }
}

/// The device after `OUT port` has written `value` to it.
pub open spec fn port_write(p: PortsView, port: u8, value: u8) -> PortsView {
    if port == 2 {
        PortsView { shift_amount: value & 0x07, ..p }
    } else if port == 3 {
        PortsView { port3: value, ..p }
    } else if port == 4 {
        PortsView { shift_register: (p.shift_register >> 8u16) | ((value as u16) << 8u16), ..p }
    } else if port == 5 {
        PortsView { port5: value, ..p }
    } else {
        p
    }
}

/// The Space Invaders cabinet's I/O ports: two input latches, two sound
/// latches, the bit-shifter, and the CP/M console that the BDOS shim fills.
pub struct Ports {
    /// Shift register for reading (port 3)
    shift_register: u16,
    /// Shift amount (port 2), always below 8
    shift_amount: u8,
    /// Input port 1 value
    pub port1: u8,
    /// Input port 2 value
    pub port2: u8,
    /// Sound port 3 value (written by CPU)
    pub port3: u8,
    /// Sound port 5 value (written by CPU)
    pub port5: u8,
    /// Characters emitted through the CP/M console, not yet taken by the host
    pub console: Vec<u8>,
}

impl View for Ports {
    type V = PortsView;

    closed spec fn view(&self) -> PortsView {
        PortsView {
            shift_register: self.shift_register,
            shift_amount: self.shift_amount,
            port1: self.port1,
            port2: self.port2,
            port3: self.port3,
            port5: self.port5,
            console: self.console@,
        }
    }
}

impl Ports {
    /// The shift amount is a 3-bit field.
    pub open spec fn wf(&self) -> bool {
        self@.shift_amount < 8
    }

    /// The device at power-on.
    pub open spec fn new_spec() -> PortsView {
        PortsView {
            shift_register: 0,
            shift_amount: 0,
            port1: 0x08,
            port2: 0,
            port3: 0,
            port5: 0,
            console: Seq::empty(),
        }
    }

    /// Ports at power-on: everything zero but bit 3 of port 1.
    pub fn new() -> (r: Self)
        ensures
            r.wf(),
            r@ == Ports::new_spec(),
    {
        Self {
            shift_register: 0,
            shift_amount: 0,
            port1: 0x08,  // Bit 3 is always 1
            port2: 0,
            port3: 0,
            port5: 0,
            console: Vec::new(),
        }
    }

    /// Reads an input port: the two latches, the shifter's 8-bit window, or 0.
    pub fn read(&self, port: u8) -> (r: u8)
        requires
            self.wf(),
        ensures
            r == port_read(self@, port),
    {
        match port {
            1 => self.port1,
            2 => self.port2,
            3 => {
                // Read shift register result
                ((self.shift_register >> (8 - self.shift_amount) as u16) & 0xFF) as u8
            },
            _ => 0,
        }
    }

    /// Writes an output port: shift amount, sound latches or shifter feed.
    pub fn write(&mut self, port: u8, value: u8)
        requires
            old(self).wf(),
        ensures
            final(self).wf(),
            final(self)@ == port_write(old(self)@, port, value),
    {
        match port {
            2 => {
                // Set shift amount (bits 0-2)
                self.shift_amount = value & 0x07;
                assert(value & 0x07 < 8) by (bit_vector);
            },
            4 => {
                // Shift register data
                self.shift_register = (self.shift_register >> 8u16) | ((value as u16) << 8u16);
            },
            3 => {
                // Sound port 3
                self.port3 = value;
            },
            5 => {
                // Sound port 5
                self.port5 = value;
            },
            _ => {
                // Port 6 is the watchdog; the others are not wired
            },
        }
    }

    /// Appends characters to the console output.
    pub fn emit(&mut self, text: &mut Vec<u8>)
        requires
            old(self).wf(),
        ensures
            final(self).wf(),
            final(self)@ == (PortsView { console: old(self)@.console + old(text)@, ..old(self)@ }),
    {
        self.console.append(text);
    }
}

} // verus!
