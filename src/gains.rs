//! The ten band gains shared by the control surface, which writes them, and
//! the playback stage, which reads a copy of all ten at a time.
use vstd::prelude::*;

verus! {

/// The number of bands.
pub const BAND_COUNT: usize = 10;

#[derive(PartialEq, Eq, Structural, Debug, Clone, Copy)]
pub enum GainError {
    /// The band index is not below `BAND_COUNT`.
    OutOfRange,
}

/// The gains after `set(index, value)` on `gains`: the band at `index`
/// takes `value` when it exists, and nothing changes otherwise.
pub open spec fn after_set<T>(gains: Seq<T>, index: int, value: T) -> Seq<T> {
    if 0 <= index < BAND_COUNT {
        gains.update(index, value)
    } else {
        gains
    }
}

/// One gain per band, band 0 first. The gain type is left to the caller
/// (decibels as the caller represents them).
pub struct BandGainState<T> {
    values: Vec<T>,
}

impl<T: Copy> BandGainState<T> {
    pub closed spec fn view(&self) -> Seq<T> {
        self.values@
    }

    pub open spec fn wf(&self) -> bool {
        self@.len() == BAND_COUNT
    }

    /// Every band starts at `initial`.
    pub fn new(initial: T) -> (s: BandGainState<T>)
        ensures
            s.wf(),
            forall|i: int| 0 <= i < BAND_COUNT ==> s@[i] == initial,
    {
        let mut values: Vec<T> = Vec::new();
        let mut i: usize = 0;
        while i < BAND_COUNT
            invariant
                i <= BAND_COUNT,
                values@.len() == i,
                forall|j: int| 0 <= j < i ==> values@[j] == initial,
            decreases BAND_COUNT - i,
        {
            values.push(initial);
            i = i + 1;
        }
        BandGainState { values }
    }

    /// Sets the gain of band `index`; fails with `OutOfRange`, changing
    /// nothing, when there is no such band.
    pub fn set(&mut self, index: usize, value: T) -> (r: Result<(), GainError>)
        requires
            old(self).wf(),
        ensures
            final(self).wf(),
            final(self)@ == after_set(old(self)@, index as int, value),
            r is Ok <==> index < BAND_COUNT,
            r is Err ==> r == Err::<(), GainError>(GainError::OutOfRange),
    {
        if index < BAND_COUNT {
            self.values.set(index, value);
            Ok(())
        } else {
            Err(GainError::OutOfRange)
        }
    }

    /// The gain of band `index`, or `OutOfRange` when there is no such band.
    pub fn get(&self, index: usize) -> (r: Result<T, GainError>)
        requires
            self.wf(),
        ensures
            index < BAND_COUNT ==> r == Ok::<T, GainError>(self@[index as int]),
            index >= BAND_COUNT ==> r == Err::<T, GainError>(GainError::OutOfRange),
    {
        if index < BAND_COUNT {
            Ok(self.values[index])
        } else {
            Err(GainError::OutOfRange)
        }
    }

    /// A copy of all ten gains, which the reader keeps and uses without
    /// further access to the state.
    pub fn get_all(&self) -> (snapshot: Vec<T>)
        requires
            self.wf(),
        ensures
            snapshot@ == self@,
    {
        let mut snapshot: Vec<T> = Vec::new();
        let mut i: usize = 0;
        while i < BAND_COUNT
            invariant
                self.wf(),
                i <= BAND_COUNT,
                snapshot@ == self@.take(i as int),
            decreases BAND_COUNT - i,
        {
            snapshot.push(self.values[i]);
            i = i + 1;
            proof {
                assert(snapshot@ =~= self@.take(i as int));
            }
        }
        proof {
            assert(self@.take(BAND_COUNT as int) =~= self@);
        }
        snapshot
    }
}

/// A gain written to a band is what a later read of that band returns, and
/// the other bands keep theirs.
pub proof fn lemma_set_then_read<T>(gains: Seq<T>, index: int, value: T)
    requires
        gains.len() == BAND_COUNT,
        0 <= index < BAND_COUNT,
    ensures
        after_set(gains, index, value).len() == BAND_COUNT,
        after_set(gains, index, value)[index] == value,
        forall|j: int| 0 <= j < BAND_COUNT && j != index ==> after_set(gains, index, value)[j] == gains[j],
{
}

} // verus!
