//! The sampling loop as a state machine.
//!
//! One tick reads the cumulative CPU time of the process, waits one sampling
//! interval, then reads its memory and its cumulative CPU time again. The
//! machine is told what each read gave and answers with what to do next. The
//! caller does the waiting and the writing.
//!
//! Monitoring ends when a read finds the process gone or when the operator
//! interrupts. Whichever comes first is answered with the report; the machine
//! is then finished and answers everything after that with [`Action::Stop`].

use vstd::prelude::*;

use crate::report::report_text;
use crate::status::{ProcessStatus, Sample};

verus! {

/// Length of one sampling interval, in milliseconds.
pub const SAMPLING_INTERVAL_MS: u64 = 1000;

/// CPU time consumed between two cumulative readings, in milliseconds.
/// A later reading that is below the earlier one counts as no time at all.
pub open spec fn cpu_delta(before: u64, after: u64) -> nat {
    if after >= before {
        (after - before) as nat
    } else {
        0
    }
}

/// Utilisation, in tenths of a percent of one core, of a process that
/// consumed `delta` milliseconds of CPU time during one sampling interval.
pub open spec fn percentage(delta: nat) -> nat {
    delta * 1000 / (SAMPLING_INTERVAL_MS as nat)
}

/// CPU utilisation over one interval from the cumulative readings taken at
/// its start and at its end.
pub fn cpu_percent(before: u64, after: u64) -> (tenths: u64)
    ensures
        tenths == percentage(cpu_delta(before, after)),
        after < before ==> tenths == 0,
{
    if after >= before {
        after - before
    } else {
        0
    }
}

/// Where the machine stands within a tick.
#[derive(Clone, Copy, Debug, PartialEq, Eq, Structural)]
pub enum Phase {
    /// Between ticks: the next read is the CPU time at the start of a tick.
    Idle,
    /// Within a tick: the CPU time at its start is held, the interval runs,
    /// and the next reads are memory and CPU time at its end.
    Sleeping { cpu_before: u64 },
    /// Monitoring has ended and the report has been handed out.
    Done,
}

/// What the caller observed.
#[derive(Clone, Copy, Debug, PartialEq, Eq, Structural)]
pub enum Event {
    /// The read at the start of a tick gave this cumulative CPU time.
    CpuBefore(u64),
    /// The reads at the end of the interval gave this memory usage and this
    /// cumulative CPU time.
    Sampled { memory: u64, cpu_after: u64 },
    /// A read found no process under the monitored identifier.
    ProcessGone,
    /// The operator asked for monitoring to end.
    Interrupt,
}

/// What the machine asks of the caller after an event.
#[derive(Debug, PartialEq, Eq)]
pub enum Action {
    /// A tick has begun: wait one sampling interval, then read memory and
    /// CPU time.
    Sleep,
    /// A tick is complete and this sample has been recorded: begin the next.
    Recorded(Sample),
    /// Monitoring has ended now: write these bytes and exit.
    Report(Vec<u8>),
    /// Monitoring had ended before: nothing is left to do.
    Stop,
    /// The event does not belong to the current phase and changed nothing.
    Ignored,
}

/// An [`Action`] as a mathematical value.
pub enum Effect {
    /// A tick has begun.
    Sleep,
    /// A tick is complete, with this sample.
    Recorded(Sample),
    /// Monitoring has ended now, with this report.
    Report(Seq<u8>),
    /// Monitoring had ended before.
    Stop,
    /// The event changed nothing.
    Ignored,
}

impl View for Action {
    type V = Effect;

    open spec fn view(&self) -> Effect {
        match self {
            Action::Sleep => Effect::Sleep,
            Action::Recorded(sample) => Effect::Recorded(*sample),
            Action::Report(bytes) => Effect::Report(bytes@),
            Action::Stop => Effect::Stop,
            Action::Ignored => Effect::Ignored,
        }
    }
}

/// The machine as a mathematical value: its phase and the samples of the
/// ticks completed so far, oldest first.
pub struct SamplerState {
    pub phase: Phase,
    pub samples: Seq<Sample>,
}

/// The state in which monitoring starts.
pub open spec fn initial() -> SamplerState {
    SamplerState { phase: Phase::Idle, samples: Seq::empty() }
}

/// Whether `event` ends monitoring.
pub open spec fn is_trigger(event: Event) -> bool {
    event is ProcessGone || event is Interrupt
}

/// The state after `event` and the answer to it.
pub open spec fn transition(state: SamplerState, event: Event) -> (SamplerState, Effect) {
    match state.phase {
        Phase::Done => (state, Effect::Stop),
        Phase::Idle => match event {
            Event::CpuBefore(cpu_before) => (
                SamplerState { phase: Phase::Sleeping { cpu_before }, samples: state.samples },
                Effect::Sleep,
            ),
            Event::Sampled { .. } => (state, Effect::Ignored),
            Event::ProcessGone | Event::Interrupt => (
                SamplerState { phase: Phase::Done, samples: state.samples },
                Effect::Report(report_text(state.samples)),
            ),
        },
        Phase::Sleeping { cpu_before } => match event {
            Event::CpuBefore(_) => (state, Effect::Ignored),
            Event::Sampled { memory, cpu_after } => {
                let sample = Sample {
                    memory,
                    cpu: percentage(cpu_delta(cpu_before, cpu_after)) as u64,
                };
                (
                    SamplerState { phase: Phase::Idle, samples: state.samples.push(sample) },
                    Effect::Recorded(sample),
                )
            },
            Event::ProcessGone | Event::Interrupt => (
                SamplerState { phase: Phase::Done, samples: state.samples },
                Effect::Report(report_text(state.samples)),
            ),
        },
    }
}

/// The sampling state machine.
pub struct Sampler {
    status: ProcessStatus,
    phase: Phase,
}

impl View for Sampler {
    type V = SamplerState;

    closed spec fn view(&self) -> SamplerState {
        SamplerState { phase: self.phase, samples: self.status@ }
    }
}

impl Sampler {
    /// A machine that has recorded nothing and stands between ticks.
    pub fn new() -> (sampler: Self)
        ensures
            sampler@ == initial(),
    {
        Sampler { status: ProcessStatus::new(), phase: Phase::Idle }
    }

    /// The current phase.
    pub fn phase(&self) -> (phase: Phase)
        ensures
            phase == self@.phase,
    {
        self.phase
    }

    /// The samples recorded so far.
    pub fn status(&self) -> (status: &ProcessStatus)
        ensures
            status@ == self@.samples,
    {
        &self.status
    }

    /// Takes in one event and answers with what the caller is to do.
    pub fn step(&mut self, event: Event) -> (action: Action)
        ensures
            (final(self)@, action@) == transition(old(self)@, event),
    {
        match self.phase {
            Phase::Done => Action::Stop,
            Phase::Idle => match event {
                Event::CpuBefore(cpu_before) => {
                    self.phase = Phase::Sleeping { cpu_before };
                    Action::Sleep
                },
                Event::Sampled { .. } => Action::Ignored,
                Event::ProcessGone | Event::Interrupt => {
                    self.phase = Phase::Done;
                    Action::Report(self.status.output())
                },
            },
            Phase::Sleeping { cpu_before } => match event {
                Event::CpuBefore(_) => Action::Ignored,
                Event::Sampled { memory, cpu_after } => {
                    let cpu = cpu_percent(cpu_before, cpu_after);
                    self.status.update_info(memory, cpu);
                    self.phase = Phase::Idle;
                    Action::Recorded(Sample { memory, cpu })
                },
                Event::ProcessGone | Event::Interrupt => {
                    self.phase = Phase::Done;
                    Action::Report(self.status.output())
                },
            },
        }
    }
}

} // verus!
