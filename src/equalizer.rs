//! The per-block equalizer stage. It does no filtering yet: a block leaves
//! it exactly as it came in.
use vstd::prelude::*;

verus! {

pub struct Equalizer {
    sample_rate: u32,
}

impl Equalizer {
    pub closed spec fn sample_rate_spec(&self) -> u32 {
        self.sample_rate
    }

    /// An equalizer for a stream of `sample_rate` samples per second.
    pub fn new(sample_rate: u32) -> (e: Equalizer)
        ensures
            e.sample_rate_spec() == sample_rate,
    {
        Equalizer { sample_rate }
    }

    pub fn sample_rate(&self) -> (r: u32)
        ensures
            r == self.sample_rate_spec(),
    {
        self.sample_rate
    }

    /// Writes the processed `input` into `output`, which has its length.
    pub fn process<T: Copy>(&mut self, input: &[T], output: &mut [T])
        requires
            input@.len() == old(output)@.len(),
        ensures
            final(output)@ == input@,
            final(self).sample_rate_spec() == old(self).sample_rate_spec(),
    {
        let mut i: usize = 0;
        while i < output.len()
            invariant
                output@.len() == input@.len(),
                i <= output@.len(),
                forall|j: int| 0 <= j < i ==> output@[j] == input@[j],
            decreases output@.len() - i,
        {
            output[i] = input[i];
            i = i + 1;
        }
        proof {
            assert(output@ =~= input@);
        }
    }
}

} // verus!
