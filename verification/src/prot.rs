//! Protection of a memory region, as read/write/execute bits.

use vstd::prelude::*;

verus! {

/// Protection of a memory region: bit 0 is read, bit 1 is write, bit 2 is
/// execute.
#[derive(Debug, Clone, Copy, PartialEq, Eq, Structural)]
pub struct Protection(pub u8);

impl Protection {
    /// Whether the read bit is set.
    pub open spec fn spec_read(self) -> bool {
        self.0 as int % 2 == 1
    }

    /// Whether the write bit is set.
    pub open spec fn spec_write(self) -> bool {
        (self.0 as int / 2) % 2 == 1
    }

    /// Whether the execute bit is set.
    pub open spec fn spec_execute(self) -> bool {
        (self.0 as int / 4) % 2 == 1
    }

    /// Can read?
    pub fn read(&self) -> (r: bool)
        ensures
            r == self.spec_read(),
    {
        self.0 % 2 == 1
    }

    /// Can write?
    pub fn write(&self) -> (r: bool)
        ensures
            r == self.spec_write(),
    {
        (self.0 / 2) % 2 == 1
    }

    /// Can execute?
    pub fn execute(&self) -> (r: bool)
        ensures
            r == self.spec_execute(),
    {
        (self.0 / 4) % 2 == 1
    }

    /// Parses a string of the kind `r-x`: exactly three characters, each
    /// either its own flag letter or `-`.
    pub fn parse(s: &str) -> (r: Protection)
        requires
            s@.len() == 3,
            forall|i: int|
                0 <= i < 3 ==> (s@[i] == '-' || s@[i] == 'r' || s@[i] == 'w' || s@[i] == 'x'),
        ensures
            r.spec_read() == (s@[0] == 'r'),
            r.spec_write() == (s@[1] == 'w'),
            r.spec_execute() == (s@[2] == 'x'),
    {
        let mut bits: u8 = 0;
        if s.get_char(0) == 'r' {
            bits = bits + 1;
        }
        if s.get_char(1) == 'w' {
            bits = bits + 2;
        }
        if s.get_char(2) == 'x' {
            bits = bits + 4;
        }
        Protection(bits)
    }

    /// Converts to the operating system's protection value: the raw bits.
    pub fn to_os(&self) -> (r: i32)
        ensures
            r == self.0 as i32,
            r >= 0,
    {
        self.0 as i32
    }

    /// Converts from the operating system's protection value, keeping only
    /// the three flag bits.
    pub fn from_os(prot: i32) -> (r: Protection)
        ensures
            r.spec_read() == ((prot as u8) as int % 2 == 1),
            r.spec_write() == (((prot as u8) as int / 2) % 2 == 1),
            r.spec_execute() == (((prot as u8) as int / 4) % 2 == 1),
    {
        let low = prot as u8;
        let bits = low % 8;
        proof {
            assert(low as int % 8 % 2 == low as int % 2) by (nonlinear_arith);
            assert(low as int % 8 / 2 % 2 == low as int / 2 % 2) by (nonlinear_arith);
            assert(low as int % 8 / 4 % 2 == low as int / 4 % 2) by (nonlinear_arith);
        }
        Protection(bits)
    }
}

} // verus!
