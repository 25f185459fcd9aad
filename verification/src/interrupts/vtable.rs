//! Vector tables: the Cortex-M33 exceptions followed by the RP2350 interrupts.

use vstd::prelude::*;

use super::vector::{entry_at, with_entry, Vector};

verus! {

/// Number of entries of a `VectorTable`.
pub const VTABLE_ENTRIES: usize = 62;

/// Vector table of the Cortex-M33 exceptions.
#[derive(Clone, Copy)]
pub struct Exceptions {
    /// Stack pointer after reset.
    sp: Vector,
    /// Reset vector. First function to be executed after reset.
    reset: Vector,
    /// Non-maskable interrupt.
    nmi: Vector,
    /// Generic hardfault.
    hardfault: Vector,
    /// Memory management fault.
    memmanage: Vector,
    /// Bus access fault.
    busfault: Vector,
    /// Usage fault.
    usagefault: Vector,
    /// Reserved entry.
    reserved7: Vector,
    /// Reserved entry.
    reserved8: Vector,
    /// Reserved entry.
    reserved9: Vector,
    /// Reserved entry.
    reserved10: Vector,
    /// Synchronous exception to call the supervisor routine.
    svcall: Vector,
    /// Debug monitor call.
    debug: Vector,
    /// Reserved entry.
    reserve13: Vector,
    /// Pending a SV call.
    pendsv: Vector,
    /// System Tick exception.
    systick: Vector,
}

/// Vector table of the RP2350 interrupts.
#[derive(Clone, Copy)]
pub struct Interrupts {
    /// IRQ 0 of the TIMER 0 peripheral.
    pub tim0irq0: Vector,
    /// IRQ 1 of the TIMER 0 peripheral.
    pub tim0irq1: Vector,
    /// IRQ 2 of the TIMER 0 peripheral.
    pub tim0irq2: Vector,
    /// IRQ 3 of the TIMER 0 peripheral.
    pub tim0irq3: Vector,
    /// IRQ 0 of the TIMER 1 peripheral.
    pub tim1irq0: Vector,
    /// IRQ 1 of the TIMER 1 peripheral.
    pub tim1irq1: Vector,
    /// IRQ 2 of the TIMER 1 peripheral.
    pub tim1irq2: Vector,
    /// IRQ 3 of the TIMER 1 peripheral.
    pub tim1irq3: Vector,
    /// PWM Wrap IRQ 0.
    pub pwm0: Vector,
    /// PWM Wrap IRQ 1.
    pub pwm1: Vector,
    /// DMA IRQ0.
    pub dma0: Vector,
    /// DMA IRQ1.
    pub dma1: Vector,
    /// DMA IRQ2.
    pub dma2: Vector,
    /// DMA IRQ3.
    pub dma3: Vector,
    /// USB CTRL IRQ.
    pub usb: Vector,
    /// Vector of the `pio0irq0` interrupt.
    pub pio0irq0: Vector,
    /// Vector of the `pio0irq1` interrupt.
    pub pio0irq1: Vector,
    /// Vector of the `pio1irq0` interrupt.
    pub pio1irq0: Vector,
    /// Vector of the `pio1irq1` interrupt.
    pub pio1irq1: Vector,
    /// Vector of the `pio2irq0` interrupt.
    pub pio2irq0: Vector,
    /// Vector of the `pio2irq1` interrupt.
    pub pio2irq1: Vector,
    /// Vector of the `io` interrupt.
    pub io: Vector,
    /// Vector of the `ions` interrupt.
    pub ions: Vector,
    /// Vector of the `qspi` interrupt.
    pub qspi: Vector,
    /// Vector of the `qspins` interrupt.
    pub qspins: Vector,
    /// Vector of the `fifo` interrupt.
    pub fifo: Vector,
    /// Vector of the `bell` interrupt.
    pub bell: Vector,
    /// Vector of the `fifons` interrupt.
    pub fifons: Vector,
    /// Vector of the `bellns` interrupt.
    pub bellns: Vector,
    /// Vector of the `mtimecmp` interrupt.
    pub mtimecmp: Vector,
    /// Vector of the `clocks` interrupt.
    pub clocks: Vector,
    /// Vector of the `spi0` interrupt.
    pub spi0: Vector,
    /// Vector of the `spi1` interrupt.
    pub spi1: Vector,
    /// Vector of the `uart0` interrupt.
    pub uart0: Vector,
    /// Vector of the `uart1` interrupt.
    pub uart1: Vector,
    /// Vector of the `adc` interrupt.
    pub adc: Vector,
    /// Vector of the `i2c0` interrupt.
    pub i2c0: Vector,
    /// Vector of the `i2c1` interrupt.
    pub i2c1: Vector,
    /// Vector of the `otp` interrupt.
    pub otp: Vector,
    /// Vector of the `trng` interrupt.
    pub trng: Vector,
    /// Vector of the `proc0cti` interrupt.
    pub proc0cti: Vector,
    /// Vector of the `proc1cti` interrupt.
    pub proc1cti: Vector,
    /// Vector of the `pllsys` interrupt.
    pub pllsys: Vector,
    /// Vector of the `pllusb` interrupt.
    pub pllusb: Vector,
    /// Vector of the `powmanpow` interrupt.
    pub powmanpow: Vector,
    /// Vector of the `powmantimer` interrupt.
    pub powmantimer: Vector,
}

/// Vector table of a core: the exceptions, then the interrupts.
#[derive(Clone, Copy)]
pub struct VectorTable {
    pub exceptions: Exceptions,
    pub interrupts: Interrupts,
}

impl View for VectorTable {
    /// The values of the entries, in table order.
    type V = Seq<usize>;

    closed spec fn view(&self) -> Seq<usize> {
        seq![
            self.exceptions.sp@,
            self.exceptions.reset@,
            self.exceptions.nmi@,
            self.exceptions.hardfault@,
            self.exceptions.memmanage@,
            self.exceptions.busfault@,
            self.exceptions.usagefault@,
            self.exceptions.reserved7@,
            self.exceptions.reserved8@,
            self.exceptions.reserved9@,
            self.exceptions.reserved10@,
            self.exceptions.svcall@,
            self.exceptions.debug@,
            self.exceptions.reserve13@,
            self.exceptions.pendsv@,
            self.exceptions.systick@,
            self.interrupts.tim0irq0@,
            self.interrupts.tim0irq1@,
            self.interrupts.tim0irq2@,
            self.interrupts.tim0irq3@,
            self.interrupts.tim1irq0@,
            self.interrupts.tim1irq1@,
            self.interrupts.tim1irq2@,
            self.interrupts.tim1irq3@,
            self.interrupts.pwm0@,
            self.interrupts.pwm1@,
            self.interrupts.dma0@,
            self.interrupts.dma1@,
            self.interrupts.dma2@,
            self.interrupts.dma3@,
            self.interrupts.usb@,
            self.interrupts.pio0irq0@,
            self.interrupts.pio0irq1@,
            self.interrupts.pio1irq0@,
            self.interrupts.pio1irq1@,
            self.interrupts.pio2irq0@,
            self.interrupts.pio2irq1@,
            self.interrupts.io@,
            self.interrupts.ions@,
            self.interrupts.qspi@,
            self.interrupts.qspins@,
            self.interrupts.fifo@,
            self.interrupts.bell@,
            self.interrupts.fifons@,
            self.interrupts.bellns@,
            self.interrupts.mtimecmp@,
            self.interrupts.clocks@,
            self.interrupts.spi0@,
            self.interrupts.spi1@,
            self.interrupts.uart0@,
            self.interrupts.uart1@,
            self.interrupts.adc@,
            self.interrupts.i2c0@,
            self.interrupts.i2c1@,
            self.interrupts.otp@,
            self.interrupts.trng@,
            self.interrupts.proc0cti@,
            self.interrupts.proc1cti@,
            self.interrupts.pllsys@,
            self.interrupts.pllusb@,
            self.interrupts.powmanpow@,
            self.interrupts.powmantimer@,
        ]
    }
}

impl VectorTable {
    /// A table with every entry reserved.
    pub fn reserved() -> (r: Self)
        ensures
            r@ == Seq::new(62, |i: int| 0usize),
    {
        let z = Vector::reserved();
        let r = VectorTable {
            exceptions: Exceptions {
                sp: z,
                reset: z,
                nmi: z,
                hardfault: z,
                memmanage: z,
                busfault: z,
                usagefault: z,
                reserved7: z,
                reserved8: z,
                reserved9: z,
                reserved10: z,
                svcall: z,
                debug: z,
                reserve13: z,
                pendsv: z,
                systick: z,
            },
            interrupts: Interrupts {
                tim0irq0: z,
                tim0irq1: z,
                tim0irq2: z,
                tim0irq3: z,
                tim1irq0: z,
                tim1irq1: z,
                tim1irq2: z,
                tim1irq3: z,
                pwm0: z,
                pwm1: z,
                dma0: z,
                dma1: z,
                dma2: z,
                dma3: z,
                usb: z,
                pio0irq0: z,
                pio0irq1: z,
                pio1irq0: z,
                pio1irq1: z,
                pio2irq0: z,
                pio2irq1: z,
                io: z,
                ions: z,
                qspi: z,
                qspins: z,
                fifo: z,
                bell: z,
                fifons: z,
                bellns: z,
                mtimecmp: z,
                clocks: z,
                spi0: z,
                spi1: z,
                uart0: z,
                uart1: z,
                adc: z,
                i2c0: z,
                i2c1: z,
                otp: z,
                trng: z,
                proc0cti: z,
                proc1cti: z,
                pllsys: z,
                pllusb: z,
                powmanpow: z,
                powmantimer: z,
            },
        };
        proof {
            assert(r@ =~= Seq::new(62, |i: int| 0usize));
        }
        r
    }

    /// The table always has the same number of entries.
    pub proof fn lemma_len(&self)
        ensures
            self@.len() == VTABLE_ENTRIES,
    {
    }

    /// Returns the entry at `index`.
    pub fn index(&self, index: usize) -> (r: Vector)
        requires
            index < VTABLE_ENTRIES,
        ensures
            r@ == entry_at(self@, index),
    {
        match index {
            0 => self.exceptions.sp,
            1 => self.exceptions.reset,
            2 => self.exceptions.nmi,
            3 => self.exceptions.hardfault,
            4 => self.exceptions.memmanage,
            5 => self.exceptions.busfault,
            6 => self.exceptions.usagefault,
            7 => self.exceptions.reserved7,
            8 => self.exceptions.reserved8,
            9 => self.exceptions.reserved9,
            10 => self.exceptions.reserved10,
            11 => self.exceptions.svcall,
            12 => self.exceptions.debug,
            13 => self.exceptions.reserve13,
            14 => self.exceptions.pendsv,
            15 => self.exceptions.systick,
            16 => self.interrupts.tim0irq0,
            17 => self.interrupts.tim0irq1,
            18 => self.interrupts.tim0irq2,
            19 => self.interrupts.tim0irq3,
            20 => self.interrupts.tim1irq0,
            21 => self.interrupts.tim1irq1,
            22 => self.interrupts.tim1irq2,
            23 => self.interrupts.tim1irq3,
            24 => self.interrupts.pwm0,
            25 => self.interrupts.pwm1,
            26 => self.interrupts.dma0,
            27 => self.interrupts.dma1,
            28 => self.interrupts.dma2,
            29 => self.interrupts.dma3,
            30 => self.interrupts.usb,
            31 => self.interrupts.pio0irq0,
            32 => self.interrupts.pio0irq1,
            33 => self.interrupts.pio1irq0,
            34 => self.interrupts.pio1irq1,
            35 => self.interrupts.pio2irq0,
            36 => self.interrupts.pio2irq1,
            37 => self.interrupts.io,
            38 => self.interrupts.ions,
            39 => self.interrupts.qspi,
            40 => self.interrupts.qspins,
            41 => self.interrupts.fifo,
            42 => self.interrupts.bell,
            43 => self.interrupts.fifons,
            44 => self.interrupts.bellns,
            45 => self.interrupts.mtimecmp,
            46 => self.interrupts.clocks,
            47 => self.interrupts.spi0,
            48 => self.interrupts.spi1,
            49 => self.interrupts.uart0,
            50 => self.interrupts.uart1,
            51 => self.interrupts.adc,
            52 => self.interrupts.i2c0,
            53 => self.interrupts.i2c1,
            54 => self.interrupts.otp,
            55 => self.interrupts.trng,
            56 => self.interrupts.proc0cti,
            57 => self.interrupts.proc1cti,
            58 => self.interrupts.pllsys,
            59 => self.interrupts.pllusb,
            60 => self.interrupts.powmanpow,
            61 => self.interrupts.powmantimer,
            _ => self.interrupts.powmantimer,
        }
    }

    /// Replaces the entry at `index`.
    pub fn index_mut(&mut self, index: usize, vector: Vector)
        requires
            index < VTABLE_ENTRIES,
        ensures
            final(self)@ == with_entry(old(self)@, index, vector@),
    {
        match index {
            0 => self.exceptions.sp = vector,
            1 => self.exceptions.reset = vector,
            2 => self.exceptions.nmi = vector,
            3 => self.exceptions.hardfault = vector,
            4 => self.exceptions.memmanage = vector,
            5 => self.exceptions.busfault = vector,
            6 => self.exceptions.usagefault = vector,
            7 => self.exceptions.reserved7 = vector,
            8 => self.exceptions.reserved8 = vector,
            9 => self.exceptions.reserved9 = vector,
            10 => self.exceptions.reserved10 = vector,
            11 => self.exceptions.svcall = vector,
            12 => self.exceptions.debug = vector,
            13 => self.exceptions.reserve13 = vector,
            14 => self.exceptions.pendsv = vector,
            15 => self.exceptions.systick = vector,
            16 => self.interrupts.tim0irq0 = vector,
            17 => self.interrupts.tim0irq1 = vector,
            18 => self.interrupts.tim0irq2 = vector,
            19 => self.interrupts.tim0irq3 = vector,
            20 => self.interrupts.tim1irq0 = vector,
            21 => self.interrupts.tim1irq1 = vector,
            22 => self.interrupts.tim1irq2 = vector,
            23 => self.interrupts.tim1irq3 = vector,
            24 => self.interrupts.pwm0 = vector,
            25 => self.interrupts.pwm1 = vector,
            26 => self.interrupts.dma0 = vector,
            27 => self.interrupts.dma1 = vector,
            28 => self.interrupts.dma2 = vector,
            29 => self.interrupts.dma3 = vector,
            30 => self.interrupts.usb = vector,
            31 => self.interrupts.pio0irq0 = vector,
            32 => self.interrupts.pio0irq1 = vector,
            33 => self.interrupts.pio1irq0 = vector,
            34 => self.interrupts.pio1irq1 = vector,
            35 => self.interrupts.pio2irq0 = vector,
            36 => self.interrupts.pio2irq1 = vector,
            37 => self.interrupts.io = vector,
            38 => self.interrupts.ions = vector,
            39 => self.interrupts.qspi = vector,
            40 => self.interrupts.qspins = vector,
            41 => self.interrupts.fifo = vector,
            42 => self.interrupts.bell = vector,
            43 => self.interrupts.fifons = vector,
            44 => self.interrupts.bellns = vector,
            45 => self.interrupts.mtimecmp = vector,
            46 => self.interrupts.clocks = vector,
            47 => self.interrupts.spi0 = vector,
            48 => self.interrupts.spi1 = vector,
            49 => self.interrupts.uart0 = vector,
            50 => self.interrupts.uart1 = vector,
            51 => self.interrupts.adc = vector,
            52 => self.interrupts.i2c0 = vector,
            53 => self.interrupts.i2c1 = vector,
            54 => self.interrupts.otp = vector,
            55 => self.interrupts.trng = vector,
            56 => self.interrupts.proc0cti = vector,
            57 => self.interrupts.proc1cti = vector,
            58 => self.interrupts.pllsys = vector,
            59 => self.interrupts.pllusb = vector,
            60 => self.interrupts.powmanpow = vector,
            61 => self.interrupts.powmantimer = vector,
            _ => self.interrupts.powmantimer = vector,
        }
        proof {
            assert(self@ =~= with_entry(old(self)@, index, vector@));
        }
    }
}

} // verus!
