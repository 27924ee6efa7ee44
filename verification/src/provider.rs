//! The metrics provider: what `sysinfo` knows of the monitored process.
//!
//! A `System` is a snapshot of the operating system's state. It holds a
//! table of processes, and a process has a resident memory size and a
//! cumulative CPU time. Reading from a snapshot never changes it; reloading
//! it may change everything in it. Nothing is assumed of what a snapshot
//! holds: a process may have vanished, and its numbers may be anything.

use sysinfo::{Pid, System};
use vstd::prelude::*;

use crate::sampler::{transition, Action, Event, Phase, Sampler};

verus! {

/// `sysinfo::System`, the snapshot of the operating system's state.
#[verifier::external_type_specification]
#[verifier::external_body]
pub struct ExSystem(System);

/// The process table of a snapshot: for each number under which
/// `System::process` finds a process, that process's resident memory in
/// bytes and its cumulative CPU time in milliseconds.
pub uninterp spec fn processes(system: System) -> Map<usize, (u64, u64)>;

/// `System::new_all` makes a snapshot with everything loaded. Nothing is
/// claimed of what it holds.
pub assume_specification[ System::new_all ]() -> (system: System)
;

/// `System::refresh_all` reloads the snapshot. Nothing is claimed of what it
/// holds afterwards.
pub assume_specification[ System::refresh_all ](system: &mut System)
;

/// `System::process` looks up the process whose identifier `Pid::from` makes
/// of `pid`; `Process::memory` and `Process::accumulated_cpu_time` read its
/// two numbers. All three only read the snapshot, so what they give is the
/// entry of its process table, or nothing where the table has none.
#[verifier::external_body]
fn lookup(system: &System, pid: usize) -> (found: Option<(u64, u64)>)
    ensures
        found == entry(processes(*system), pid),
{
    system.process(Pid::from(pid)).map(|process| (process.memory(), process.accumulated_cpu_time()))
}

/// The monitored identifier names no live process.
#[derive(Clone, Copy, Debug, PartialEq, Eq, Structural)]
pub struct NotFound;

/// The entry of a process table under `pid`, if there is one.
pub open spec fn entry(table: Map<usize, (u64, u64)>, pid: usize) -> Option<(u64, u64)> {
    if table.dom().contains(pid) {
        Some(table[pid])
    } else {
        None
    }
}

/// The memory reading that a process table gives for `pid`.
pub open spec fn memory_in(table: Map<usize, (u64, u64)>, pid: usize) -> Result<u64, NotFound> {
    match entry(table, pid) {
        Some((memory, _)) => Ok(memory),
        None => Err(NotFound),
    }
}

/// The CPU time reading that a process table gives for `pid`.
pub open spec fn cpu_time_in(table: Map<usize, (u64, u64)>, pid: usize) -> Result<u64, NotFound> {
    match entry(table, pid) {
        Some((_, cpu_time)) => Ok(cpu_time),
        None => Err(NotFound),
    }
}

/// Within one snapshot the two reads agree on whether the process is there.
pub proof fn lemma_reads_agree(table: Map<usize, (u64, u64)>, pid: usize)
    ensures
        memory_in(table, pid) is Ok <==> cpu_time_in(table, pid) is Ok,
        memory_in(table, pid) is Ok <==> table.dom().contains(pid),
        finished(memory_in(table, pid), cpu_time_in(table, pid)) is ProcessGone
            <==> !table.dom().contains(pid),
{
}

/// The event that the read at the start of a tick amounts to.
pub open spec fn started(cpu_before: Result<u64, NotFound>) -> Event {
    match cpu_before {
        Ok(cpu_before) => Event::CpuBefore(cpu_before),
        Err(_) => Event::ProcessGone,
    }
}

/// The event that the reads at the end of an interval amount to: a sample
/// where both found the process, its exit where either did not.
pub open spec fn finished(memory: Result<u64, NotFound>, cpu_after: Result<u64, NotFound>) -> Event {
    match (memory, cpu_after) {
        (Ok(memory), Ok(cpu_after)) => Event::Sampled { memory, cpu_after },
        _ => Event::ProcessGone,
    }
}

/// A snapshot of the operating system's state as it is now, processes
/// included.
pub fn snapshot() -> (system: System) {
    System::new_all()
}

/// Resident memory of process `pid`, in bytes, as the snapshot has it.
pub fn memory_of(system: &System, pid: usize) -> (reading: Result<u64, NotFound>)
    ensures
        reading == memory_in(processes(*system), pid),
{
    match lookup(system, pid) {
        Some((memory, _)) => Ok(memory),
        None => Err(NotFound),
    }
}

/// Cumulative CPU time of process `pid`, in milliseconds, as the snapshot
/// has it.
pub fn cpu_cumulative_of(system: &System, pid: usize) -> (reading: Result<u64, NotFound>)
    ensures
        reading == cpu_time_in(processes(*system), pid),
{
    match lookup(system, pid) {
        Some((_, cpu_time)) => Ok(cpu_time),
        None => Err(NotFound),
    }
}

/// The event that the read at the start of a tick amounts to.
pub fn tick_started(cpu_before: Result<u64, NotFound>) -> (event: Event)
    ensures
        event == started(cpu_before),
{
    match cpu_before {
        Ok(cpu_before) => Event::CpuBefore(cpu_before),
        Err(_) => Event::ProcessGone,
    }
}

/// The event that the reads at the end of an interval amount to.
pub fn tick_finished(memory: Result<u64, NotFound>, cpu_after: Result<u64, NotFound>) -> (event:
    Event)
    ensures
        event == finished(memory, cpu_after),
{
    match (memory, cpu_after) {
        (Ok(memory), Ok(cpu_after)) => Event::Sampled { memory, cpu_after },
        _ => Event::ProcessGone,
    }
}

/// Makes the reads that the machine's phase calls for and feeds it the
/// event that they amount to.
///
/// Between ticks this is the CPU time at the start of the next tick, read
/// from the snapshot as it stands. Within a tick the snapshot is reloaded
/// once, and memory and CPU time are both read from the reloaded snapshot.
/// A finished machine makes no read and leaves the snapshot alone.
pub fn advance(sampler: &mut Sampler, system: &mut System, pid: usize) -> (action: Action)
    ensures
        old(sampler)@.phase is Done ==> {
            &&& *final(system) == *old(system)
            &&& final(sampler)@ == old(sampler)@
            &&& action@ is Stop
        },
        old(sampler)@.phase is Idle ==> {
            &&& *final(system) == *old(system)
            &&& (final(sampler)@, action@) == transition(
                old(sampler)@,
                started(cpu_time_in(processes(*old(system)), pid)),
            )
        },
        old(sampler)@.phase is Sleeping ==> (final(sampler)@, action@) == transition(
            old(sampler)@,
            finished(
                memory_in(processes(*final(system)), pid),
                cpu_time_in(processes(*final(system)), pid),
            ),
        ),
{
    match sampler.phase() {
        Phase::Done => Action::Stop,
        Phase::Idle => {
            let event = tick_started(cpu_cumulative_of(system, pid));
            sampler.step(event)
        },
        Phase::Sleeping { .. } => {
            system.refresh_all();
            let memory = memory_of(system, pid);
            let event = match memory {
                Ok(_) => tick_finished(memory, cpu_cumulative_of(system, pid)),
                Err(_) => Event::ProcessGone,
            };
            sampler.step(event)
        },
    }
}

} // verus!
