//! The two device handles: each owns an SPI bus and a chip select line.
use vstd::prelude::*;

use core::convert::Infallible;

verus! {

/// MCP3008 driver: an eight-channel converter on its own SPI bus and chip select line.
pub struct Mcp3008<SPI, CS> {
    spi: SPI,
    cs: CS,
}

impl<SPI, CS> Mcp3008<SPI, CS> {
    /// The SPI bus that the driver owns.
    pub closed spec fn bus(self) -> SPI {
        self.spi
    }

    /// The chip select line that the driver owns.
    pub closed spec fn select_line(self) -> CS {
        self.cs
    }

    /// A driver that owns `spi` and `cs`. Nothing is sent: this never fails.
    pub fn new(spi: SPI, cs: CS) -> (r: Result<Self, Infallible>)
        ensures
            r matches Ok(d) && d.bus() == spi && d.select_line() == cs,
    {
        Ok(Mcp3008 { spi, cs })
    }

    /// The bus and the chip select line, to perform the operations of a conversion.
    pub fn parts(&mut self) -> (r: (&mut SPI, &mut CS))
        ensures
            *r.0 == old(self).bus(),
            *r.1 == old(self).select_line(),
            final(self).bus() == *final(r.0),
            final(self).select_line() == *final(r.1),
    {
        (&mut self.spi, &mut self.cs)
    }
}

/// MCP3004 driver: a four-channel converter on its own SPI bus and chip select line.
pub struct Mcp3004<SPI, CS> {
    spi: SPI,
    cs: CS,
}

impl<SPI, CS> Mcp3004<SPI, CS> {
    /// The SPI bus that the driver owns.
    pub closed spec fn bus(self) -> SPI {
        self.spi
    }

    /// The chip select line that the driver owns.
    pub closed spec fn select_line(self) -> CS {
        self.cs
    }

    /// A driver that owns `spi` and `cs`. Nothing is sent: this never fails.
    pub fn new(spi: SPI, cs: CS) -> (r: Result<Self, Infallible>)
        ensures
            r matches Ok(d) && d.bus() == spi && d.select_line() == cs,
    {
        Ok(Mcp3004 { spi, cs })
    }

    /// The bus and the chip select line, to perform the operations of a conversion.
    pub fn parts(&mut self) -> (r: (&mut SPI, &mut CS))
        ensures
            *r.0 == old(self).bus(),
            *r.1 == old(self).select_line(),
            final(self).bus() == *final(r.0),
            final(self).select_line() == *final(r.1),
    {
        (&mut self.spi, &mut self.cs)
    }
}

} // verus!
