//! Sources of the numbers that drive redrift: the thread's generator, and
//! a scripted source that replays a fixed list.

use rand::rngs::ThreadRng;
use rand::Rng;
use vstd::prelude::*;

verus! {

/// One number drawn from a source: the range that was asked for, from
/// `low` up to but not including `high`, and the value that came.
pub struct Draw {
    pub low: int,
    pub high: int,
    pub value: int,
}

/// A source of numbers, handed to whatever needs chance.
pub trait RandomSource {
    /// The draws made from this source so far, oldest first.
    spec fn drawn(&self) -> Seq<Draw>;

    /// A number from `low` up to, but not including, `high`. The draw is
    /// added to those made so far.
    fn pick(&mut self, low: u16, high: u16) -> (value: u16)
        requires
            low < high,
        ensures
            low <= value < high,
            final(self).drawn() == old(self).drawn().push(
                (Draw { low: low as int, high: high as int, value: value as int }),
            ),
    ;
}

/// `rand::rngs::ThreadRng`, the handle to a thread's generator. It is
/// carried as an opaque value: nothing is known of what it holds.
#[verifier::external_type_specification]
#[verifier::external_body]
pub struct ExThreadRng(ThreadRng);

/// `rand::thread_rng`: a handle to the calling thread's generator, which
/// the system seeds on first use; it panics only if the system cannot
/// seed it. Nothing is claimed of the handle.
#[verifier::external_body]
fn thread_generator() -> ThreadRng {
    rand::thread_rng()
}

/// `rand::Rng::gen_range` on the half-open range `low..high` of `u16`. It
/// panics on an empty range, so `low < high` is required. The value it
/// gives lies in the range; which value is left open, and two calls with
/// the same bounds may differ.
#[verifier::external_body]
fn thread_range(rng: &mut ThreadRng, low: u16, high: u16) -> (value: u16)
    requires
        low < high,
    ensures
        low <= value < high,
{
    rng.gen_range(low..high)
}

/// Chance drawn from the calling thread's generator.
pub struct Entropy {
    rng: ThreadRng,
    log: Ghost<Seq<Draw>>,
}

impl Entropy {
    /// A source backed by the calling thread's generator, from which
    /// nothing has been drawn yet.
    pub fn new() -> (source: Entropy)
        ensures
            source.drawn() == Seq::<Draw>::empty(),
    {
        Entropy { rng: thread_generator(), log: Ghost(Seq::empty()) }
    }
}

impl RandomSource for Entropy {
    closed spec fn drawn(&self) -> Seq<Draw> {
        self.log@
    }

    fn pick(&mut self, low: u16, high: u16) -> (value: u16) {
        let value: u16 = thread_range(&mut self.rng, low, high);
        proof {
            self.log@ = self.log@.push(
                Draw { low: low as int, high: high as int, value: value as int },
            );
        }
        value
    }
}

/// The number a scripted source gives for a range when `entry` is next in
/// its list: `entry` folded into the range, counted from `low`.
pub open spec fn folded(entry: int, low: int, high: int) -> int
    recommends
        low < high,
{
    low + entry % (high - low)
}

/// A source that replays a list of numbers over and over. Each entry is
/// folded into the range asked for; an empty list always gives `low`.
#[derive(Clone)]
pub struct Scripted {
    /// The list that is replayed.
    pub entries: Vec<u16>,
    /// How many entries have been handed out since the list last started
    /// over.
    pub cursor: usize,
    /// The draws made so far.
    pub log: Ghost<Seq<Draw>>,
}

impl Scripted {
    /// The entry that the next pick uses, if the list has any.
    pub open spec fn upcoming(&self) -> Option<int> {
        if self.entries.len() == 0 {
            None
        } else {
            Some(self.entries@[self.cursor as int % self.entries.len() as int] as int)
        }
    }

    /// A source that replays `entries` from the start, from which nothing
    /// has been drawn yet.
    pub fn new(entries: Vec<u16>) -> (source: Scripted)
        ensures
            source.entries == entries,
            source.cursor == 0,
            source.drawn() == Seq::<Draw>::empty(),
    {
        Scripted { entries, cursor: 0, log: Ghost(Seq::empty()) }
    }
}

impl RandomSource for Scripted {
    open spec fn drawn(&self) -> Seq<Draw> {
        self.log@
    }

    fn pick(&mut self, low: u16, high: u16) -> (value: u16)
        ensures
            final(self).entries == old(self).entries,
            old(self).upcoming() matches Some(entry) ==> value == folded(
                entry,
                low as int,
                high as int,
            ),
            old(self).upcoming() is None ==> value == low,
            old(self).entries.len() > 0 ==> final(self).cursor == old(self).cursor
                % old(self).entries.len() + 1,
    {
        let count: usize = self.entries.len();
        let value: u16 = if count == 0 {
            low
        } else {
            let at: usize = self.cursor % count;
            let entry: u16 = self.entries[at];
            self.cursor = at + 1;
            low + entry % (high - low)
        };
        proof {
            self.log@ = self.log@.push(
                Draw { low: low as int, high: high as int, value: value as int },
            );
        }
        value
    }
}

} // verus!
