//! The interrupt controller: which sources are enabled, which have asked, and
//! whether the line to the processor is raised.

use vstd::prelude::*;

verus! {

/// A source of interrupts. Each source owns one bit of the enable and request
/// registers.
#[derive(Debug, PartialEq, Eq, Clone, Copy, Structural)]
pub enum Interrupt {
    VBlank,
    HBlank,
    VCount,
    Timer0,
    Timer1,
    Timer2,
    Timer3,
    Serial,
    Dma0,
    Dma1,
    Dma2,
    Dma3,
    Keypad,
    GamePak,
}

/// The bits of the enable and request registers that stand for a source.
pub const IRQ_MASK: u16 = 0x3fff;

impl Interrupt {
    /// The bit of the source in the enable and request registers, as a mask.
    pub open spec fn spec_mask(self) -> u16 {
        match self {
            Interrupt::VBlank => 0x0001,
            Interrupt::HBlank => 0x0002,
            Interrupt::VCount => 0x0004,
            Interrupt::Timer0 => 0x0008,
            Interrupt::Timer1 => 0x0010,
            Interrupt::Timer2 => 0x0020,
            Interrupt::Timer3 => 0x0040,
            Interrupt::Serial => 0x0080,
            Interrupt::Dma0 => 0x0100,
            Interrupt::Dma1 => 0x0200,
            Interrupt::Dma2 => 0x0400,
            Interrupt::Dma3 => 0x0800,
            Interrupt::Keypad => 0x1000,
            Interrupt::GamePak => 0x2000,
        }
    }

    /// The bit of the source in the enable and request registers, as a mask.
    #[verifier::when_used_as_spec(spec_mask)]
    pub fn mask(self) -> (r: u16)
        ensures
            r == self.spec_mask(),
    {
        match self {
            Interrupt::VBlank => 0x0001,
            Interrupt::HBlank => 0x0002,
            Interrupt::VCount => 0x0004,
            Interrupt::Timer0 => 0x0008,
            Interrupt::Timer1 => 0x0010,
            Interrupt::Timer2 => 0x0020,
            Interrupt::Timer3 => 0x0040,
            Interrupt::Serial => 0x0080,
            Interrupt::Dma0 => 0x0100,
            Interrupt::Dma1 => 0x0200,
            Interrupt::Dma2 => 0x0400,
            Interrupt::Dma3 => 0x0800,
            Interrupt::Keypad => 0x1000,
            Interrupt::GamePak => 0x2000,
        }
    }
}

/// The three registers of the interrupt controller.
#[derive(Debug, Clone, Copy)]
pub struct InterruptController {
    /// Master enable: no interrupt reaches the processor while it is off.
    pub interrupt_master_enable: bool,
    /// The sources that may interrupt, one bit each.
    pub interrupt_enable: u16,
    /// The sources that have asked and were not acknowledged yet, one bit
    /// each.
    pub interrupt_flags: u16,
}

impl InterruptController {
    /// A controller with everything off and nothing pending.
    pub fn new() -> (r: InterruptController)
        ensures
            !r.interrupt_master_enable,
            r.interrupt_enable == 0,
            r.interrupt_flags == 0,
            !r.spec_irq_line(),
    {
        InterruptController {
            interrupt_master_enable: false,
            interrupt_enable: 0,
            interrupt_flags: 0,
        }
    }

    /// Whether the line to the processor is raised: the master enable is on
    /// and a source that is enabled has asked.
    pub open spec fn spec_irq_line(&self) -> bool {
        self.interrupt_master_enable && (self.interrupt_enable & self.interrupt_flags) != 0
    }

    /// Whether the line to the processor is raised.
    ///
    /// The line follows the registers at every moment: it falls as soon as a
    /// write takes the master enable, the source's enable bit or its request
    /// away.
    #[verifier::when_used_as_spec(spec_irq_line)]
    pub fn irq_line(&self) -> (r: bool)
        ensures
            r == self.spec_irq_line(),
    {
        self.interrupt_master_enable && (self.interrupt_enable & self.interrupt_flags) != 0
    }

    /// Records that the sources in `mask` have asked, and says whether the
    /// line to the processor is raised afterwards.
    pub fn request_irqs(&mut self, mask: u16) -> (line: bool)
        ensures
            final(self).interrupt_flags == old(self).interrupt_flags | (mask & IRQ_MASK),
            final(self).interrupt_enable == old(self).interrupt_enable,
            final(self).interrupt_master_enable == old(self).interrupt_master_enable,
            line == final(self).spec_irq_line(),
    {
        self.interrupt_flags = self.interrupt_flags | (mask & IRQ_MASK);
        self.irq_line()
    }

    /// Records that `irq` has asked, and says whether the line to the
    /// processor is raised afterwards.
    pub fn request_irq(&mut self, irq: Interrupt) -> (line: bool)
        ensures
            final(self).interrupt_flags == old(self).interrupt_flags | irq.spec_mask(),
            final(self).interrupt_enable == old(self).interrupt_enable,
            final(self).interrupt_master_enable == old(self).interrupt_master_enable,
            line == final(self).spec_irq_line(),
    {
        self.interrupt_flags = self.interrupt_flags | irq.mask();
        self.irq_line()
    }

    /// Takes a write to the request register: every bit set in `value`
    /// acknowledges its source and clears the request.
    pub fn acknowledge(&mut self, value: u16)
        ensures
            final(self).interrupt_flags == old(self).interrupt_flags & !value,
            final(self).interrupt_enable == old(self).interrupt_enable,
            final(self).interrupt_master_enable == old(self).interrupt_master_enable,
    {
        self.interrupt_flags = self.interrupt_flags & !value;
    }
}

/// A request is seen in the request register until it is acknowledged, and an
/// acknowledged request is gone.
pub proof fn lemma_request_then_acknowledge(flags: u16, irq: Interrupt)
    ensures
        (flags | irq.spec_mask()) & irq.spec_mask() == irq.spec_mask(),
        ((flags | irq.spec_mask()) & !irq.spec_mask()) & irq.spec_mask() == 0,
        irq.spec_mask() != 0,
{
    let m = irq.spec_mask();
    assert((flags | m) & m == m && ((flags | m) & !m) & m == 0) by (bit_vector);
}

/// With the master enable on and the source enabled, a request raises the
/// line.
pub proof fn lemma_enabled_request_raises_line(c: InterruptController, irq: Interrupt)
    requires
        c.interrupt_master_enable,
        c.interrupt_enable & irq.spec_mask() != 0,
    ensures
        (InterruptController {
            interrupt_flags: c.interrupt_flags | irq.spec_mask(),
            ..c
        }).spec_irq_line(),
{
    let m = irq.spec_mask();
    let e = c.interrupt_enable;
    let f = c.interrupt_flags;
    assert(e & m != 0 ==> e & (f | m) != 0) by (bit_vector);
}

} // verus!
