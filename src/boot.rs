//! The boot sequence from a parsed image to the kernel entry point, as a
//! state machine: the firmware work of each step is the caller's, the
//! decisions are made here.
use vstd::prelude::*;

use crate::elf::Elf;
use crate::error::LoadError;
use crate::load_plan::{has_loadable, is_loadable, lowest_vaddr, page_count_of, LoadPlan};
use crate::materialize::file_range_in_bounds;

verus! {

#[derive(Clone, Copy, PartialEq, Eq, Debug, Structural)]
pub enum Stage {
    /// Waiting for the pages at the planned address.
    Placing,
    /// The pages are reserved; the segments are to be copied.
    Materializing,
    /// The image is in place; the memory map is to be captured.
    Bootstrapped,
    /// The memory map was captured under `map_key`; boot services are to be
    /// left with that same key.
    MemoryMapCaptured { map_key: u64 },
    /// Boot services are gone; only the jump to the kernel is left.
    ServicesExited,
    /// Control went to the kernel. Terminal.
    EntryInvoked,
    /// A fatal error stopped the boot. Terminal.
    Halted { error: LoadError },
}

/// What the firmware reported after the last action.
#[derive(Clone, Copy, PartialEq, Eq, Debug, Structural)]
pub enum Event {
    AllocationSucceeded,
    AllocationFailed,
    SegmentsCopied,
    CopyFailed { error: LoadError },
    MemoryMapCaptured { map_key: u64 },
    MemoryMapUnavailable,
    ExitSucceeded,
    ExitFailed,
    EntryCalled,
}

/// The firmware work that the boot sequence asks for next.
#[derive(Clone, Copy, PartialEq, Eq, Debug, Structural)]
pub enum Action {
    AllocatePages { address: u64, page_count: u64 },
    CopySegments,
    CaptureMemoryMap,
    ExitBootServices { map_key: u64 },
    InvokeEntry { entry: u64 },
    Halt { error: LoadError },
    Idle,
}

#[derive(Clone, Copy, PartialEq, Eq, Debug, Structural)]
pub struct BootSequence {
    pub stage: Stage,
    pub plan: LoadPlan,
    pub entry: u64,
}

/// The file bytes of every loadable segment lie inside the image buffer.
pub open spec fn loadable_in_bounds(segs: Seq<crate::elf::ProgramHeader>, len: int) -> bool {
    forall|i: int|
        0 <= i < segs.len() && is_loadable(#[trigger] segs[i]) ==> file_range_in_bounds(
            segs[i],
            len,
        )
}

/// The stage that follows `s` on event `e`; an event that does not belong
/// to the stage changes nothing.
pub open spec fn next_stage(s: Stage, e: Event) -> Stage {
    match (s, e) {
        (Stage::Placing, Event::AllocationSucceeded) => Stage::Materializing,
        (Stage::Placing, Event::AllocationFailed) => Stage::Halted {
            error: LoadError::AllocationFailure,
        },
        (Stage::Materializing, Event::SegmentsCopied) => Stage::Bootstrapped,
        (Stage::Materializing, Event::CopyFailed { error }) => Stage::Halted { error },
        (Stage::Bootstrapped, Event::MemoryMapCaptured { map_key }) => Stage::MemoryMapCaptured {
            map_key,
        },
        (Stage::Bootstrapped, Event::MemoryMapUnavailable) => Stage::Halted {
            error: LoadError::TransitionFailure,
        },
        (Stage::MemoryMapCaptured { .. }, Event::ExitSucceeded) => Stage::ServicesExited,
        (Stage::MemoryMapCaptured { .. }, Event::ExitFailed) => Stage::Halted {
            error: LoadError::TransitionFailure,
        },
        (Stage::ServicesExited, Event::EntryCalled) => Stage::EntryInvoked,
        _ => s,
    }
}

pub open spec fn step_of(b: BootSequence, e: Event) -> BootSequence {
    BootSequence { stage: next_stage(b.stage, e), ..b }
}

/// The action that stage of `b` calls for.
pub open spec fn action_of(b: BootSequence) -> Action {
    match b.stage {
        Stage::Placing => Action::AllocatePages {
            address: b.plan.base_address,
            page_count: b.plan.page_count,
        },
        Stage::Materializing => Action::CopySegments,
        Stage::Bootstrapped => Action::CaptureMemoryMap,
        Stage::MemoryMapCaptured { map_key } => Action::ExitBootServices { map_key },
        Stage::ServicesExited => Action::InvokeEntry { entry: b.entry },
        Stage::EntryInvoked => Action::Idle,
        Stage::Halted { error } => Action::Halt { error },
    }
}

/// The sequence after the events `es`, one after the other.
pub open spec fn run(b: BootSequence, es: Seq<Event>) -> BootSequence
    decreases es.len(),
{
    if es.len() == 0 {
        b
    } else {
        step_of(run(b, es.drop_last()), es.last())
    }
}

/// The stages in which the planned pages have been obtained.
pub open spec fn is_after_allocation(s: Stage) -> bool {
    match s {
        Stage::Materializing | Stage::Bootstrapped | Stage::MemoryMapCaptured { .. }
        | Stage::ServicesExited | Stage::EntryInvoked => true,
        _ => false,
    }
}

impl BootSequence {
    /// The sequence for a parsed image whose buffer holds `image_len` bytes.
    /// It halts at once, before any allocation, when no segment is loadable
    /// or when a loadable segment's file bytes lie outside the buffer.
    pub fn start(elf: &Elf, image_len: usize) -> (r: BootSequence)
        ensures
            r.entry == elf.spec_header().e_entry,
            !has_loadable(elf.spec_segments()) ==> r.stage == (Stage::Halted {
                error: LoadError::NoLoadableSegment,
            }),
            has_loadable(elf.spec_segments()) && !loadable_in_bounds(
                elf.spec_segments(),
                image_len as int,
            ) ==> r.stage == (Stage::Halted { error: LoadError::ParseError }),
            has_loadable(elf.spec_segments()) && loadable_in_bounds(
                elf.spec_segments(),
                image_len as int,
            ) ==> {
                &&& r.stage == Stage::Placing
                &&& r.plan.base_address == lowest_vaddr(elf.spec_segments())
                &&& r.plan.page_count == page_count_of(elf.spec_segments())
            },
    {
        let entry = elf.entry();
        let plan = match elf.load_plan() {
            Ok(plan) => plan,
            Err(error) => {
                return BootSequence {
                    stage: Stage::Halted { error },
                    plan: LoadPlan { base_address: 0, page_count: 0 },
                    entry,
                };
            },
        };
        let segments = elf.program_header_iter();
        let mut i: usize = 0;
        while i < segments.len()
            invariant
                segments@ == elf.spec_segments(),
                entry == elf.spec_header().e_entry,
                has_loadable(elf.spec_segments()),
                plan.base_address == lowest_vaddr(elf.spec_segments()),
                plan.page_count == page_count_of(elf.spec_segments()),
                i <= segments@.len(),
                loadable_in_bounds(segments@.take(i as int), image_len as int),
            decreases segments@.len() - i,
        {
            let p = &segments[i];
            if p.type_is_load() && p.p_offset as u128 + p.p_filesz as u128 > image_len as u128 {
                assert(!file_range_in_bounds(segments@[i as int], image_len as int));
                return BootSequence { stage: Stage::Halted { error: LoadError::ParseError }, plan, entry };
            }
            assert forall|j: int|
                0 <= j < i + 1 && is_loadable(#[trigger] segments@.take(i + 1)[j]) implies file_range_in_bounds(
                segments@.take(i + 1)[j],
                image_len as int,
            ) by {
                if j < i {
                    assert(segments@.take(i + 1)[j] == segments@.take(i as int)[j]);
                }
            }
            i = i + 1;
        }
        assert(segments@.take(i as int) =~= segments@);
        BootSequence { stage: Stage::Placing, plan, entry }
    }

    /// The firmware work to do next.
    pub fn next_action(&self) -> (r: Action)
        ensures
            r == action_of(*self),
    {
        match self.stage {
            Stage::Placing => Action::AllocatePages {
                address: self.plan.base_address,
                page_count: self.plan.page_count,
            },
            Stage::Materializing => Action::CopySegments,
            Stage::Bootstrapped => Action::CaptureMemoryMap,
            Stage::MemoryMapCaptured { map_key } => Action::ExitBootServices { map_key },
            Stage::ServicesExited => Action::InvokeEntry { entry: self.entry },
            Stage::EntryInvoked => Action::Idle,
            Stage::Halted { error } => Action::Halt { error },
        }
    }

    /// Takes in what the firmware reported and returns the next action.
    pub fn step(&mut self, event: Event) -> (r: Action)
        ensures
            *final(self) == step_of(*old(self), event),
            r == action_of(*final(self)),
    {
        let stage = match (self.stage, event) {
            (Stage::Placing, Event::AllocationSucceeded) => Stage::Materializing,
            (Stage::Placing, Event::AllocationFailed) => Stage::Halted {
                error: LoadError::AllocationFailure,
            },
            (Stage::Materializing, Event::SegmentsCopied) => Stage::Bootstrapped,
            (Stage::Materializing, Event::CopyFailed { error }) => Stage::Halted { error },
            (Stage::Bootstrapped, Event::MemoryMapCaptured { map_key }) => Stage::MemoryMapCaptured {
                map_key,
            },
            (Stage::Bootstrapped, Event::MemoryMapUnavailable) => Stage::Halted {
                error: LoadError::TransitionFailure,
            },
            (Stage::MemoryMapCaptured { .. }, Event::ExitSucceeded) => Stage::ServicesExited,
            (Stage::MemoryMapCaptured { .. }, Event::ExitFailed) => Stage::Halted {
                error: LoadError::TransitionFailure,
            },
            (Stage::ServicesExited, Event::EntryCalled) => Stage::EntryInvoked,
            (s, _) => s,
        };
        self.stage = stage;
        self.next_action()
    }
}

/// A halted sequence stays halted with the same error, whatever is
/// reported afterwards.
pub proof fn lemma_halted_is_final(b: BootSequence, es: Seq<Event>)
    requires
        b.stage is Halted,
    ensures
        run(b, es) == b,
        action_of(run(b, es)) == (Action::Halt { error: b.stage->error }),
    decreases es.len(),
{
    if es.len() > 0 {
        lemma_halted_is_final(b, es.drop_last());
    }
}

/// When the pages at the planned address cannot be had, the boot halts with
/// `AllocationFailure` and never asks for a segment copy, whatever is
/// reported afterwards.
pub proof fn lemma_allocation_failure_halts_before_copy(b: BootSequence, es: Seq<Event>)
    requires
        b.stage == Stage::Placing,
    ensures
        forall|k: int|
            0 <= k <= es.len() ==> #[trigger] action_of(
                run(step_of(b, Event::AllocationFailed), es.take(k)),
            ) == (Action::Halt { error: LoadError::AllocationFailure }),
{
    let h = step_of(b, Event::AllocationFailed);
    assert forall|k: int| 0 <= k <= es.len() implies #[trigger] action_of(
        run(h, es.take(k)),
    ) == (Action::Halt { error: LoadError::AllocationFailure }) by {
        lemma_halted_is_final(h, es.take(k));
    }
}

/// Segments are copied, and the later steps taken, only after the firmware
/// reported that the planned pages were obtained.
pub proof fn lemma_copy_only_after_allocation(b: BootSequence, es: Seq<Event>)
    requires
        b.stage == Stage::Placing || b.stage is Halted,
    ensures
        is_after_allocation(run(b, es).stage) ==> es.contains(Event::AllocationSucceeded),
        action_of(run(b, es)) == Action::CopySegments ==> es.contains(
            Event::AllocationSucceeded,
        ),
    decreases es.len(),
{
    if es.len() > 0 {
        let prev = es.drop_last();
        lemma_copy_only_after_allocation(b, prev);
        if is_after_allocation(run(b, es).stage) {
            if is_after_allocation(run(b, prev).stage) {
                let i = choose|i: int| 0 <= i < prev.len() && prev[i] == Event::AllocationSucceeded;
                assert(es[i] == Event::AllocationSucceeded);
            } else {
                assert(es[es.len() - 1] == Event::AllocationSucceeded);
            }
        }
    }
}

} // verus!
