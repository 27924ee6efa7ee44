//! The aggregator: every sample taken so far, in order, with running maxima.

use vstd::prelude::*;

use crate::report::{push_decimal, push_joined, push_tenths, push_text, report_text, Notation};

verus! {

/// One completed sampling tick.
#[derive(Clone, Copy, Debug, PartialEq, Eq, Structural)]
pub struct Sample {
    /// Resident memory in bytes, read at the end of the interval.
    pub memory: u64,
    /// CPU utilisation over the interval, in tenths of a percent of one core.
    pub cpu: u64,
}

/// The largest element of `s`, or 0 when `s` is empty.
pub open spec fn max_of(s: Seq<u64>) -> nat
    decreases s.len(),
{
    if s.len() == 0 {
        0
    } else {
        let rest = max_of(s.drop_last());
        if s.last() > rest {
            s.last() as nat
        } else {
            rest
        }
    }
}

/// The memory readings of `samples`, index by index.
pub open spec fn memory_column(samples: Seq<Sample>) -> Seq<u64> {
    Seq::new(samples.len(), |i: int| samples[i].memory)
}

/// The CPU readings of `samples`, index by index.
pub open spec fn cpu_column(samples: Seq<Sample>) -> Seq<u64> {
    Seq::new(samples.len(), |i: int| samples[i].cpu)
}

/// The two columns run side by side: equally long, and entry `i` of each is
/// taken from sample `i`.
pub proof fn lemma_columns_align(samples: Seq<Sample>)
    ensures
        memory_column(samples).len() == cpu_column(samples).len(),
        memory_column(samples).len() == samples.len(),
        forall|i: int|
            0 <= i < samples.len() ==> samples[i] == (Sample {
                memory: #[trigger] memory_column(samples)[i],
                cpu: cpu_column(samples)[i],
            }),
{
}

/// `max_of(s)` is the maximum of `s`: no element lies above it, and it is
/// one of the elements, or 0 where there is none.
pub proof fn lemma_max_of_is_maximum(s: Seq<u64>)
    ensures
        forall|i: int| 0 <= i < s.len() ==> #[trigger] s[i] <= max_of(s),
        s.len() == 0 ==> max_of(s) == 0,
        s.len() > 0 ==> exists|i: int| 0 <= i < s.len() && #[trigger] s[i] == max_of(s),
    decreases s.len(),
{
    if s.len() > 0 {
        let front = s.drop_last();
        lemma_max_of_is_maximum(front);
        assert forall|i: int| 0 <= i < s.len() implies #[trigger] s[i] <= max_of(s) by {
            if i < front.len() {
                assert(s[i] == front[i]);
            }
        }
        if s.last() > max_of(front) || front.len() == 0 {
            assert(s[s.len() - 1] == max_of(s));
        } else {
            let i = choose|i: int| 0 <= i < front.len() && #[trigger] front[i] == max_of(front);
            assert(s[i] == max_of(s));
        }
    }
}

/// A further element raises the maximum to itself where it lies above, and
/// leaves it alone otherwise: the maximum never falls.
pub proof fn lemma_max_of_push(s: Seq<u64>, x: u64)
    ensures
        max_of(s.push(x)) == if x > max_of(s) { x as nat } else { max_of(s) },
        max_of(s.push(x)) >= max_of(s),
{
    assert(s.push(x).drop_last() == s);
}

/// Accumulated samples of one monitored process.
pub struct ProcessStatus {
    memory_max: u64,
    memory_usage: Vec<u64>,
    cpu_max: u64,
    cpu_usage: Vec<u64>,
}

impl View for ProcessStatus {
    type V = Seq<Sample>;

    closed spec fn view(&self) -> Seq<Sample> {
        Seq::new(
            self.memory_usage@.len(),
            |i: int| Sample { memory: self.memory_usage@[i], cpu: self.cpu_usage@[i] },
        )
    }
}

impl ProcessStatus {
    #[verifier::type_invariant]
    spec fn consistent(self) -> bool {
        &&& self.memory_usage@.len() == self.cpu_usage@.len()
        &&& self.memory_max == max_of(self.memory_usage@)
        &&& self.cpu_max == max_of(self.cpu_usage@)
    }

    /// An aggregator that has seen no sample.
    pub fn new() -> (status: Self)
        ensures
            status@ == Seq::<Sample>::empty(),
    {
        ProcessStatus { memory_max: 0, memory_usage: Vec::new(), cpu_max: 0, cpu_usage: Vec::new() }
    }

    /// Appends one sample and raises the maxima where it exceeds them.
    pub fn update_info(&mut self, mem: u64, cpu: u64)
        ensures
            final(self)@ == old(self)@.push(Sample { memory: mem, cpu: cpu }),
    {
        // The value is whole wherever it can be seen: it is taken out, grown
        // on the side and put back in one piece.
        let mut taken = ProcessStatus::new();
        core::mem::swap(self, &mut taken);
        proof {
            use_type_invariant(&taken);
        }
        let ProcessStatus { memory_max, mut memory_usage, cpu_max, mut cpu_usage } = taken;
        memory_usage.push(mem);
        cpu_usage.push(cpu);
        proof {
            assert(memory_usage@.drop_last() == old(self).memory_usage@);
            assert(cpu_usage@.drop_last() == old(self).cpu_usage@);
        }
        *self = ProcessStatus {
            memory_max: if mem > memory_max { mem } else { memory_max },
            memory_usage,
            cpu_max: if cpu > cpu_max { cpu } else { cpu_max },
            cpu_usage,
        };
    }

    /// The number of samples taken.
    pub fn len(&self) -> (n: usize)
        ensures
            n == self@.len(),
    {
        self.memory_usage.len()
    }

    /// The largest memory reading so far, 0 before the first sample.
    pub fn memory_max(&self) -> (max: u64)
        ensures
            max == max_of(memory_column(self@)),
    {
        proof {
            use_type_invariant(self);
            assert(memory_column(self@) == self.memory_usage@);
        }
        self.memory_max
    }

    /// The largest CPU reading so far, 0 before the first sample.
    pub fn cpu_max(&self) -> (max: u64)
        ensures
            max == max_of(cpu_column(self@)),
    {
        proof {
            use_type_invariant(self);
            assert(cpu_column(self@) == self.cpu_usage@);
        }
        self.cpu_max
    }

    /// Every memory reading, oldest first.
    pub fn memory_usage(&self) -> (readings: &Vec<u64>)
        ensures
            readings@ == memory_column(self@),
    {
        proof {
            use_type_invariant(self);
            assert(memory_column(self@) == self.memory_usage@);
        }
        &self.memory_usage
    }

    /// Every CPU reading, oldest first, index by index beside the memory
    /// readings.
    pub fn cpu_usage(&self) -> (readings: &Vec<u64>)
        ensures
            readings@ == cpu_column(self@),
    {
        proof {
            use_type_invariant(self);
            assert(cpu_column(self@) == self.cpu_usage@);
        }
        &self.cpu_usage
    }

    /// The report on the samples taken so far, as the bytes to be written.
    pub fn output(&self) -> (bytes: Vec<u8>)
        ensures
            bytes@ == report_text(self@),
    {
        proof {
            use_type_invariant(self);
            assert(memory_column(self@) == self.memory_usage@);
            assert(cpu_column(self@) == self.cpu_usage@);
        }
        let mut bytes: Vec<u8> = Vec::new();
        push_text(&mut bytes, "Memory Max: ");
        push_decimal(&mut bytes, self.memory_max);
        bytes.push(10);
        push_text(&mut bytes, "Cpu Max: ");
        push_tenths(&mut bytes, self.cpu_max);
        bytes.push(10);
        push_joined(&mut bytes, Notation::Whole, &self.memory_usage);
        bytes.push(10);
        push_joined(&mut bytes, Notation::Tenths, &self.cpu_usage);
        bytes.push(10);
        assert(bytes@ == report_text(self@));
        bytes
    }
}

} // verus!
