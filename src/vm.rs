use vstd::prelude::*;

use crate::cartridge::rom::{spec_parse, spec_valid_nes};
use crate::common::constants::{PC_START_ADDRESS, STACK_POINTER_INIT};
use crate::common::errors::EmulatorError;
use crate::cpu::types::ProcessorStatus;
use crate::cpu::{spec_run, CpuState, CPU};
use crate::memory::bus::MemView;

verus! {

/// A machine that boots cartridges.
pub struct VM {
    pub cpu: CPU,
}

/// The state right after a reset through the reset vector of `s`'s memory.
pub open spec fn spec_after_reset(s: CpuState, pc: u16) -> CpuState {
    CpuState {
        program_counter: pc,
        stack_pointer: STACK_POINTER_INIT,
        register_a: 0,
        register_x: 0,
        register_y: 0,
        status: ProcessorStatus::cleared(),
        ..s
    }
}

impl VM {
    pub fn new() -> (r: VM)
        ensures
            r.cpu@ == CPU::new_view(),
    {
        VM { cpu: CPU::new() }
    }

    /// Installs an iNES image, resets through its reset vector and runs it
    /// until `BRK` or an error (for at most `u64::MAX` instructions).
    pub fn load_rom(&mut self, rom: Vec<u8>) -> (r: Result<(), EmulatorError>)
        ensures
            !spec_valid_nes(rom@) ==> r == Err::<(), EmulatorError>(EmulatorError::InvalidNesFile),
            spec_valid_nes(rom@) ==> ({
                let loaded = CpuState {
                    mem: MemView { rom: Some(spec_parse(rom@)), ..old(self).cpu@.mem },
                    ..old(self).cpu@
                };
                match loaded.mem.read_u16(PC_START_ADDRESS) {
                    Err(e) => r == Err::<(), EmulatorError>(e),
                    Ok(pc) => {
                        let run = spec_run(spec_after_reset(loaded, pc), u64::MAX as nat);
                        final(self).cpu@ == run.0 && (r is Ok <==> run.1 is Ok) && (run.1 matches Err(
                            e,
                        ) ==> r == Err::<(), EmulatorError>(e))
                    },
                }
            }),
    {
        self.cpu.load(&rom)?;
        self.cpu.reset()?;
        self.cpu.run_for(u64::MAX)?;
        Ok(())
    }
}

} // verus!
