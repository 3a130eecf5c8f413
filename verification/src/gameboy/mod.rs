//! The whole machine, advanced one master cycle at a time.
//!
//! Within a cycle the components run in a fixed order: the CPU, the picture
//! unit, the sound unit, the DMA engine, the timer, and last the interrupt
//! controller, which looks at the CPU. All of them work on one memory bus.
use vstd::prelude::*;

pub mod bits;
pub mod boot;
pub mod cartridge;
pub mod cpu;
pub mod input;
pub mod interupt;
pub mod mmu;
pub mod ppu;
pub mod spu;
pub mod timer;

use crate::gameboy::cartridge::battery_backed;
use crate::gameboy::cartridge::controller_of;
use crate::gameboy::cartridge::create;
use crate::gameboy::cartridge::header_fault;
use crate::gameboy::cartridge::loaded;
use crate::gameboy::cartridge::BadRom;
use crate::gameboy::cartridge::Cartridge;
use crate::gameboy::cartridge::CartridgeView;
use crate::gameboy::cartridge::Controller;
use crate::gameboy::cpu::scheduler::Decoder;
use crate::gameboy::cpu::Cpu;
use crate::gameboy::input::Key;
use crate::gameboy::interupt::InterruptFlag;
use crate::gameboy::interupt::Interupt;
use crate::gameboy::mmu::bytes_of;
use crate::gameboy::mmu::lemma_high_write_keeps_cartridge;
use crate::gameboy::mmu::Mmu;
use crate::gameboy::mmu::MmuView;
use crate::gameboy::ppu::Ppu;
use crate::gameboy::ppu::PpuView;
use crate::gameboy::spu::Spu;
use crate::gameboy::spu::SpuView;

verus! {

/// The number of master cycles in a second.
pub const CLOCK_HZ: u32 = 4_194_304;

/// The number of master cycles in a frame.
pub const CYCLES_PER_FRAME: u32 = 70_224;

pub struct GameBoy {
    pub cpu: Cpu,
    pub mmu: Mmu,
    pub ppu: Ppu,
    /// The step queues of all opcodes.
    pub decoder: Decoder,
}

/// The mathematical content of a [`GameBoy`].
#[verifier::ext_equal]
pub struct GameBoyView {
    pub cpu: Cpu,
    pub mmu: MmuView,
    pub ppu: PpuView,
}

impl View for GameBoy {
    type V = GameBoyView;

    open spec fn view(&self) -> GameBoyView {
        GameBoyView { cpu: self.cpu, mmu: self.mmu@, ppu: self.ppu@ }
    }
}

/// The bus after one master cycle of the sound unit.
pub open spec fn sound_ticked(bus: MmuView) -> MmuView {
    MmuView { spu: bus.spu.ticked(), ..bus }
}

/// The bus after one master cycle of the timer: an overflow that comes due
/// requests the timer interrupt.
pub open spec fn timer_ticked(bus: MmuView) -> MmuView {
    MmuView {
        timer: bus.timer.ticked().0,
        interupts: bus.interupts.requested_if(bus.timer.ticked().1, InterruptFlag::Timer),
        ..bus
    }
}

/// The bus after the picture unit, the sound unit, the DMA engine and the
/// timer have had their turn in a master cycle, and the picture unit after
/// it.
pub open spec fn peripherals_ticked(ppu: PpuView, bus: MmuView) -> (PpuView, MmuView) {
    (ppu.ticked(bus).0, timer_ticked(sound_ticked(ppu.ticked(bus).1).dma_ticked()))
}

impl GameBoyView {
    /// The machine after one master cycle. A stopped machine stands still.
    pub open spec fn ticked(self) -> GameBoyView {
        if self.cpu.stopped {
            self
        } else {
            let ran = self.cpu.ticked(self.mmu);
            let around = peripherals_ticked(self.ppu, ran.1);
            GameBoyView {
                cpu: around.1.interupts.handled(ran.0),
                mmu: around.1,
                ppu: around.0,
            }
        }
    }

    /// The machine after a key has gone down. A key that was up before
    /// requests the joypad interrupt and ends stop mode.
    pub open spec fn key_pressed(self, key: Key) -> GameBoyView {
        if self.mmu.input.held(key) {
            self
        } else {
            GameBoyView {
                cpu: Cpu { stopped: false, ..self.cpu },
                mmu: MmuView {
                    input: self.mmu.input.with_key(key, true),
                    interupts: self.mmu.interupts.requested(InterruptFlag::Joypad),
                    ..self.mmu
                },
                ..self
            }
        }
    }

    /// The machine after a key has come up.
    pub open spec fn key_released(self, key: Key) -> GameBoyView {
        GameBoyView {
            mmu: MmuView { input: self.mmu.input.with_key(key, false), ..self.mmu },
            ..self
        }
    }

    /// The machine at power-on, around a cartridge, with the given contents
    /// of work RAM. With a boot image the CPU starts at address 0 with the
    /// image mapped. Without one the machine starts in the state that the
    /// boot image would leave: the CPU at 0x0100 with its registers set, and
    /// LCDC at 0x91.
    pub open spec fn initial(
        cartridge: CartridgeView,
        boot: Option<Seq<u8>>,
        ram: Seq<u8>,
    ) -> GameBoyView {
        let bus = MmuView::initial(cartridge, SpuView::initial(), boot, ram);
        GameBoyView {
            cpu: if boot is Some {
                Cpu::initial()
            } else {
                Cpu::booted()
            },
            mmu: if boot is Some {
                bus
            } else {
                bus.write_byte(0xFF40, 0x91)
            },
            ppu: PpuView::initial(),
        }
    }
}

impl GameBoy {
    /// The invariant of the machine.
    pub open spec fn wf(&self) -> bool {
        &&& self.cpu.wf()
        &&& self.mmu.wf()
        &&& self.ppu.wf()
        &&& self.decoder.wf()
    }

    /// Whether the cartridge keeps its RAM in a save file.
    pub open spec fn has_battery(&self) -> bool {
        self@.mmu.cartridge.battery
    }

    /// Makes the machine from the bytes of a ROM image, the bytes of its
    /// save file if there is one, and a boot image of 256 bytes if one is to
    /// run. Work RAM starts with whatever chance puts there.
    ///
    /// Fails exactly on a ROM image with a faulty header, with the first
    /// fault found.
    pub fn new(rom: Vec<u8>, save: Option<Vec<u8>>, boot: Option<Vec<u8>>) -> (made: Result<
        GameBoy,
        BadRom,
    >)
        requires
            boot matches Some(image) ==> image.len() == 0x100,
        ensures
            match made {
                Ok(gameboy) => {
                    &&& header_fault(rom@) is None
                    &&& gameboy.wf()
                    &&& gameboy.has_battery() == (controller_of(rom@[0x147]) == Some(
                        Controller::Mbc3,
                    ) && battery_backed(rom@[0x147]))
                    &&& exists|ram: Seq<u8>|
                        ram.len() == 0x2000 && gameboy@ == #[trigger] GameBoyView::initial(
                            loaded(rom@, bytes_of(save)),
                            bytes_of(boot),
                            ram,
                        )
                },
                Err(fault) => header_fault(rom@) == Some(fault),
            },
    {
        let ram = Mmu::randomize_ram_values();
        Self::with_ram(rom, save, boot, ram)
    }

    /// Makes the machine as [`GameBoy::new`] does, with the given 8 KiB as
    /// the contents of work RAM.
    pub fn with_ram(rom: Vec<u8>, save: Option<Vec<u8>>, boot: Option<Vec<u8>>, ram: Vec<u8>) -> (made:
        Result<GameBoy, BadRom>)
        requires
            boot matches Some(image) ==> image.len() == 0x100,
            ram.len() == 0x2000,
        ensures
            match made {
                Ok(gameboy) => {
                    &&& header_fault(rom@) is None
                    &&& gameboy.wf()
                    &&& gameboy.has_battery() == (controller_of(rom@[0x147]) == Some(
                        Controller::Mbc3,
                    ) && battery_backed(rom@[0x147]))
                    &&& gameboy@ =~= GameBoyView::initial(
                        loaded(rom@, bytes_of(save)),
                        bytes_of(boot),
                        ram@,
                    )
                },
                Err(fault) => header_fault(rom@) == Some(fault),
            },
    {
        let ghost code = rom@[0x147];
        match create(rom, save) {
            Ok(cartridge) => {
                let has_boot = boot.is_some();
                let ghost model = cartridge.model();
                let mmu = Mmu::with_ram(cartridge, Spu::new(), boot, ram);
                proof {
                    lemma_high_write_keeps_cartridge(mmu@, 0xFF40, 0x91);
                    assert(mmu@.cartridge == model);
                    assert(model.battery == (controller_of(code) == Some(Controller::Mbc3)
                        && battery_backed(code)));
                }
                Ok(Self::assemble(mmu, has_boot))
            },
            Err(fault) => Err(fault),
        }
    }

    /// Puts the machine together around a bus at power-on.
    #[verifier::rlimit(100)]
    fn assemble(mmu: Mmu, has_boot: bool) -> (gameboy: Self)
        requires
            mmu.wf(),
        ensures
            gameboy.wf(),
            gameboy@ =~= (GameBoyView {
                cpu: if has_boot {
                    Cpu::initial()
                } else {
                    Cpu::booted()
                },
                mmu: if has_boot {
                    mmu@
                } else {
                    mmu@.write_byte(0xFF40, 0x91)
                },
                ppu: PpuView::initial(),
            }),
    {
        let mut mmu = mmu;
        let cpu = if has_boot {
            Cpu::new()
        } else {
            mmu.write_byte(0xFF40, 0x91);
            Cpu::after_boot()
        };
        Self { cpu, mmu, ppu: Ppu::new(), decoder: Decoder::new() }
    }

    /// Takes note of a key going down.
    pub fn key_down(&mut self, key: Key)
        requires
            old(self).wf(),
        ensures
            final(self).wf(),
            final(self)@ =~= old(self)@.key_pressed(key),
    {
        let sucessful_press = self.mmu.input.key_down(key);
        if sucessful_press {
            self.cpu.stopped = false;
            self.mmu.interupts.request_interupt(InterruptFlag::Joypad);
        }
    }

    /// Takes note of a key coming up.
    pub fn key_up(&mut self, key: Key)
        requires
            old(self).wf(),
        ensures
            final(self).wf(),
            final(self)@ =~= old(self)@.key_released(key),
    {
        self.mmu.input.key_up(key);
    }

    /// The picture: 160 by 144 shades, row by row.
    pub fn get_frame_buffer(&self) -> (frame: &Vec<u8>)
        requires
            self.wf(),
        ensures
            frame@ == self@.ppu.frame_buffer,
            frame.len() == 160 * 144,
    {
        &self.ppu.frame_buffer
    }

    /// Says whether a whole frame has been drawn since the last call, and
    /// forgets it.
    pub fn take_frame_ready(&mut self) -> (ready: bool)
        requires
            old(self).wf(),
        ensures
            final(self).wf(),
            ready == old(self).ppu.draw_flag,
            final(self)@ =~= (GameBoyView {
                ppu: PpuView { draw_flag: false, ..old(self)@.ppu },
                ..old(self)@
            }),
    {
        let ready = self.ppu.draw_flag;
        self.ppu.draw_flag = false;
        ready
    }

    /// Hands over the buffer of mixed sound levels, once for each time it
    /// fills up.
    pub fn take_samples(&mut self) -> (samples: Option<Vec<u16>>)
        requires
            old(self).wf(),
        ensures
            final(self).wf(),
            match samples {
                Some(levels) => old(self).mmu.spu.buffer_ready && levels@ == old(
                    self,
                ).mmu.spu.buffer@,
                None => !old(self).mmu.spu.buffer_ready,
            },
            final(self)@ =~= (GameBoyView {
                mmu: MmuView {
                    spu: SpuView { buffer_ready: false, ..old(self)@.mmu.spu },
                    ..old(self)@.mmu
                },
                ..old(self)@
            }),
    {
        self.mmu.spu.take_samples()
    }

    /// Tells the machine the wall-clock time in seconds, which the clock of
    /// an MBC3 cartridge takes when it is latched.
    pub fn set_wall_clock(&mut self, seconds: u64)
        requires
            old(self).wf(),
        ensures
            final(self).wf(),
            final(self)@ =~= (GameBoyView {
                mmu: MmuView {
                    cartridge: if old(self)@.mmu.cartridge.controller == Controller::Mbc3 {
                        CartridgeView { clock: seconds, ..old(self)@.mmu.cartridge }
                    } else {
                        old(self)@.mmu.cartridge
                    },
                    ..old(self)@.mmu
                },
                ..old(self)@
            }),
    {
        self.mmu.cartridge.set_wall_clock(seconds);
    }

    /// The cartridge RAM to keep in the save file, for a cartridge that is
    /// battery-backed.
    pub fn save_data(&self) -> (data: Option<Vec<u8>>)
        requires
            self.wf(),
        ensures
            match data {
                Some(bytes) => bytes@ == self@.mmu.cartridge.ram && self.has_battery(),
                None => !self.has_battery(),
            },
    {
        self.mmu.cartridge.save_data()
    }

    /// Advances the machine by one master cycle.
    #[verifier::rlimit(100)]
    pub fn tick(&mut self)
        requires
            old(self).wf(),
        ensures
            final(self).wf(),
            final(self)@ =~= old(self)@.ticked(),
    {
        if self.cpu.stopped {
            return ;
        }
        self.cpu.tick(&mut self.mmu, &self.decoder);
        self.tick_peripherals();
        Interupt::handle(&mut self.mmu.interupts, &mut self.cpu);
    }

    /// Gives the picture unit, the sound unit, the DMA engine and the timer
    /// their turn.
    #[verifier::rlimit(100)]
    fn tick_peripherals(&mut self)
        requires
            old(self).cpu.wf(),
            old(self).mmu.wf(),
            old(self).ppu.wf(),
            old(self).decoder.wf(),
        ensures
            final(self).wf(),
            final(self).cpu == old(self).cpu,
            final(self).ppu@ =~= peripherals_ticked(old(self).ppu@, old(self).mmu@).0,
            final(self).mmu@ =~= peripherals_ticked(old(self).ppu@, old(self).mmu@).1,
    {
        self.ppu.tick(&mut self.mmu);
        self.tick_sound();
        self.mmu.dma_tick();
        self.tick_timer();
    }

    fn tick_sound(&mut self)
        requires
            old(self).mmu.wf(),
        ensures
            final(self).mmu.wf(),
            final(self).cpu == old(self).cpu,
            final(self).ppu == old(self).ppu,
            final(self).decoder == old(self).decoder,
            final(self).mmu@ =~= sound_ticked(old(self).mmu@),
    {
        self.mmu.spu.tick();
    }

    fn tick_timer(&mut self)
        requires
            old(self).mmu.wf(),
        ensures
            final(self).mmu.wf(),
            final(self).cpu == old(self).cpu,
            final(self).ppu == old(self).ppu,
            final(self).decoder == old(self).decoder,
            final(self).mmu@ =~= timer_ticked(old(self).mmu@),
    {
        let request_timer_interupt = self.mmu.timer.tick();
        if request_timer_interupt {
            self.mmu.interupts.request_interupt(InterruptFlag::Timer);
        }
    }
}

} // verus!
