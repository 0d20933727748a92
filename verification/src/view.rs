//! What a front end keeps beside the machine, and the decisions it takes on
//! the user's behalf: which page of the control store is shown, and whether
//! the machine runs by itself from frame to frame.
//!
//! Nothing here draws anything. A front end shows the state, hands each
//! event to the function that stands for it, and shows the state again.

use vstd::prelude::*;
use crate::micro_code::MicroCode;
use crate::vm::{Fault, MachineState, MicroArch};

verus! {

/// The number of microinstructions on one page of the control store.
pub const PAGE_LEN: usize = 256;

/// The number of microinstructions that the control-store address can reach.
pub const CONTROL_STORE_LEN: usize = 65536;

/// A machine and the state of the windows that show it.
#[derive(Debug, PartialEq, Eq)]
pub struct VMView {
    pub vm: MicroArch,
    pub open_register_view: bool,
    pub open_micro_code_view: bool,
    pub open_memory_view: bool,
    /// The page of the control store that is shown.
    pub current_viewing_page: u8,
    /// Whether a cycle is run on every frame.
    pub auto_exec: bool,
}

impl VMView {
    /// The control-store address of the first slot of the page shown.
    pub open spec fn page_start(self) -> int {
        self.current_viewing_page * PAGE_LEN
    }

    /// The smaller of `address` and the length of the control store.
    pub open spec fn within_store(self, address: int) -> int {
        if address <= self.vm@.micro_program.len() {
            address
        } else {
            self.vm@.micro_program.len() as int
        }
    }

    /// Whether the windows and the page are those of `other`.
    pub open spec fn same_windows(self, other: VMView) -> bool {
        &&& self.open_register_view == other.open_register_view
        &&& self.open_micro_code_view == other.open_micro_code_view
        &&& self.open_memory_view == other.open_memory_view
        &&& self.current_viewing_page == other.current_viewing_page
    }

    /// A machine whose control store is full of idle microinstructions, with
    /// the register and microcode windows open, the memory window closed, the
    /// first page shown and the machine at rest.
    pub fn init() -> (view: VMView)
        ensures
            view.vm@.micro_program == Seq::new(CONTROL_STORE_LEN as nat, |i: int| MicroCode::nop()),
            view.vm@.micro_program_counter == 0,
            view.vm@.memory == Seq::<u8>::empty(),
            view.vm@.gpr == Seq::new(7, |i: int| 0u8),
            view.vm@.pc == 0 && view.vm@.ir == 0 && view.vm@.mdr == 0 && view.vm@.mar == 0
                && view.vm@.str == 0,
            view.vm@.sw1 == 0 && view.vm@.sw2 == 0,
            !view.vm@.hlt,
            view.open_register_view,
            view.open_micro_code_view,
            !view.open_memory_view,
            view.current_viewing_page == 0,
            !view.auto_exec,
    {
        let micro_codes: Vec<MicroCode> = vec![MicroCode::nop(); CONTROL_STORE_LEN];
        assert(micro_codes@ =~= Seq::new(CONTROL_STORE_LEN as nat, |i: int| MicroCode::nop()));
        VMView {
            vm: MicroArch::construct(micro_codes),
            open_register_view: true,
            open_micro_code_view: true,
            open_memory_view: false,
            current_viewing_page: 0,
            auto_exec: false,
        }
    }

    /// Show the page before the one shown, if there is one.
    pub fn page_back(&mut self)
        ensures
            *final(self) == (VMView {
                current_viewing_page: if old(self).current_viewing_page > 0 {
                    (old(self).current_viewing_page - 1) as u8
                } else {
                    0
                },
                ..*old(self)
            }),
    {
        if self.current_viewing_page > 0 {
            self.current_viewing_page -= 1;
        }
    }

    /// Show the page after the one shown, if there is one.
    pub fn page_forward(&mut self)
        ensures
            *final(self) == (VMView {
                current_viewing_page: if old(self).current_viewing_page < 0xff {
                    (old(self).current_viewing_page + 1) as u8
                } else {
                    0xff
                },
                ..*old(self)
            }),
    {
        if self.current_viewing_page < 0xff {
            self.current_viewing_page += 1;
        }
    }

    /// The slots of the control store that the page shown holds, as the range
    /// from `range.0` up to, not including, `range.1`: the 256 addresses of
    /// the page, as far as the control store has them.
    pub fn page_range(&self) -> (range: (usize, usize))
        ensures
            range.0 == self.within_store(self.page_start()),
            range.1 == self.within_store(self.page_start() + PAGE_LEN),
            range.0 <= range.1 <= self.vm@.micro_program.len(),
    {
        let len: usize = self.vm.micro_program.len();
        let start: usize = self.current_viewing_page as usize * PAGE_LEN;
        let end: usize = start + PAGE_LEN;
        (
            if start <= len {
                start
            } else {
                len
            },
            if end <= len {
                end
            } else {
                len
            },
        )
    }

    /// The user asks for one cycle: the machine stops running by itself and
    /// runs that cycle.
    pub fn step(&mut self) -> (r: Result<bool, Fault>)
        ensures
            final(self).vm@ == old(self).vm@.step(),
            r == old(self).vm@.step_result(),
            !final(self).auto_exec,
            final(self).same_windows(*old(self)),
    {
        self.auto_exec = false;
        self.vm.exec()
    }

    /// The user asks for a run: from the next frame on the machine runs by
    /// itself.
    pub fn start(&mut self)
        ensures
            *final(self) == (VMView { auto_exec: true, ..*old(self) }),
    {
        self.auto_exec = true;
    }

    /// A frame goes by. A machine that runs by itself runs one cycle, and
    /// goes on running by itself unless that cycle halted it or faulted.
    ///
    /// Returns what the cycle reported, or `None` if none was run; the front
    /// end asks for another frame where a cycle was run.
    pub fn tick(&mut self) -> (r: Option<Result<bool, Fault>>)
        ensures
            !old(self).auto_exec ==> r is None && *final(self) == *old(self),
            old(self).auto_exec ==> r == Some(old(self).vm@.step_result()),
            old(self).auto_exec ==> final(self).vm@ == old(self).vm@.step(),
            old(self).auto_exec ==> final(self).auto_exec == (old(self).vm@.step_result() == Ok::<
                bool,
                Fault,
            >(false)),
            final(self).same_windows(*old(self)),
    {
        if !self.auto_exec {
            return None;
        }
        let r: Result<bool, Fault> = self.vm.exec();
        self.auto_exec = match r {
            Ok(halted) => !halted,
            Err(_) => false,
        };
        Some(r)
    }

    /// The user asks for the control store to start over: its address goes
    /// back to zero and nothing else changes.
    pub fn reset_micro_program_counter(&mut self)
        ensures
            final(self).vm@ == (MachineState { micro_program_counter: 0, ..old(self).vm@ }),
            final(self).auto_exec == old(self).auto_exec,
            final(self).same_windows(*old(self)),
    {
        self.vm.micro_program_counter = 0;
    }
}

} // verus!
