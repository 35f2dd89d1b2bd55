//! Counters of time and memory for named regions of code. Regions nest:
//! what is allocated counts for the region that was begun last and has not
//! ended.
//!
//! The clock is the caller's: every operation that needs the time takes it
//! in microseconds.

use crate::text::same_text;
use vstd::prelude::*;

verus! {

/// When a region was last begun or ended, and how long it last took, both
/// in microseconds.
#[derive(Debug, Copy, Clone, PartialEq, Eq, Structural)]
pub struct Timer {
    pub instant: u128,
    pub last_elapsed: u128,
}

/// The bytes that were allocated and freed in a region since it was last
/// begun, and the most that it ever had allocated.
#[derive(Debug, Copy, Clone, PartialEq, Eq, Structural, Default)]
pub struct Memory {
    pub allocated: usize,
    pub freed: usize,
    pub peak_usage: usize,
}

#[derive(Debug, Copy, Clone, PartialEq, Eq, Structural)]
pub struct Statistics {
    pub timer: Timer,
    pub memory: Memory,
}

/// A region and its counters.
#[derive(Debug, Copy, Clone)]
pub struct Region {
    pub name: &'static str,
    pub statistics: Statistics,
}

/// The regions that were ever begun, and the places of those that have not
/// ended, the innermost last.
#[derive(Debug)]
pub struct PerfRegistry {
    pub regions: Vec<Region>,
    pub stack: Vec<usize>,
}

/// A region that was begun by `PerfTrace::new` and is ended by
/// `PerfTrace::finish`.
#[derive(Debug)]
pub struct PerfTrace(pub &'static str);

/// The counters of a region that is begun for the first time.
pub open spec fn spec_fresh(now: u128) -> Statistics {
    Statistics {
        timer: Timer { instant: now, last_elapsed: 0 },
        memory: Memory { allocated: 0, freed: 0, peak_usage: 0 },
    }
}

/// The counters of a region that is begun again: what it allocated and
/// freed starts at zero, its peak and its last duration stay.
pub open spec fn spec_restarted(statistics: Statistics, now: u128) -> Statistics {
    Statistics {
        timer: Timer { instant: now, ..statistics.timer },
        memory: Memory { allocated: 0, freed: 0, ..statistics.memory },
    }
}

/// The counters of a region that ends: it took the time since it was
/// begun.
pub open spec fn spec_stopped(statistics: Statistics, now: u128) -> Statistics {
    Statistics {
        timer: Timer {
            instant: now,
            last_elapsed: if now >= statistics.timer.instant {
                (now - statistics.timer.instant) as u128
            } else {
                0
            },
        },
        ..statistics
    }
}

/// The counters of a region in which `size` bytes were allocated. The
/// count stops at the largest number rather than wrap.
pub open spec fn spec_allocated(statistics: Statistics, size: usize) -> Statistics {
    let allocated = if statistics.memory.allocated + size <= usize::MAX {
        (statistics.memory.allocated + size) as usize
    } else {
        usize::MAX
    };
    Statistics {
        memory: Memory {
            allocated,
            peak_usage: if statistics.memory.peak_usage >= allocated {
                statistics.memory.peak_usage
            } else {
                allocated
            },
            ..statistics.memory
        },
        ..statistics
    }
}

/// The counters of a region in which `size` bytes were freed.
pub open spec fn spec_freed(statistics: Statistics, size: usize) -> Statistics {
    Statistics {
        memory: Memory {
            freed: if statistics.memory.freed + size <= usize::MAX {
                (statistics.memory.freed + size) as usize
            } else {
                usize::MAX
            },
            ..statistics.memory
        },
        ..statistics
    }
}

/// The regions and the nesting after a region was begun: a region that is
/// known is begun again, one that is not is begun for the first time; it is
/// the innermost from then on.
pub open spec fn spec_begun(
    regions: Seq<Region>,
    stack: Seq<usize>,
    region: &'static str,
    now: u128,
) -> (Seq<Region>, Seq<usize>) {
    match spec_place(regions, region@) {
        Some(at) => (
            regions.update(
                at,
                Region {
                    name: regions[at].name,
                    statistics: spec_restarted(regions[at].statistics, now),
                },
            ),
            stack.push(at as usize),
        ),
        None => (
            regions.push(Region { name: region, statistics: spec_fresh(now) }),
            stack.push(regions.len() as usize),
        ),
    }
}

/// The first place at which a region of a name stands.
pub open spec fn spec_place(regions: Seq<Region>, name: Seq<char>) -> Option<int>
    decreases regions.len(),
{
    if regions.len() == 0 {
        None
    } else {
        match spec_place(regions.drop_last(), name) {
            Some(at) => Some(at),
            None => if regions.last().name@ == name {
                Some(regions.len() - 1)
            } else {
                None
            },
        }
    }
}

/// What finding a region says: the place holds the name.
pub proof fn lemma_place(regions: Seq<Region>, name: Seq<char>)
    ensures
        spec_place(regions, name) matches Some(at) ==> 0 <= at < regions.len()
            && regions[at].name@ == name,
    decreases regions.len(),
{
    if regions.len() > 0 {
        lemma_place(regions.drop_last(), name);
    }
}

impl PerfRegistry {
    /// The place of the innermost region that has not ended.
    pub open spec fn spec_current(self) -> Option<int> {
        if self.stack@.len() > 0 && self.stack@.last() < self.regions@.len() {
            Some(self.stack@.last() as int)
        } else {
            None
        }
    }

    fn place(&self, name: &str) -> (at: Option<usize>)
        ensures
            match at {
                Some(at) => spec_place(self.regions@, name@) == Some(at as int)
                    && at < self.regions@.len(),
                None => spec_place(self.regions@, name@) is None,
            },
    {
        let mut i: usize = 0;
        proof {
            assert(self.regions@.take(0) =~= Seq::<Region>::empty());
        }
        while i < self.regions.len()
            invariant
                i <= self.regions@.len(),
                spec_place(self.regions@.take(i as int), name@) is None,
            decreases self.regions@.len() - i,
        {
            proof {
                let next = self.regions@.take(i + 1);
                assert(next.drop_last() =~= self.regions@.take(i as int));
                assert(next.last() == self.regions@[i as int]);
                lemma_place_of_prefix(self.regions@, i + 1, name@);
            }
            if same_text(self.regions[i].name, name) {
                return Some(i);
            }
            i += 1;
        }
        proof {
            assert(self.regions@.take(self.regions@.len() as int) =~= self.regions@);
        }
        None
    }

    /// Whether a region of this name can be ended now: it is the innermost
    /// region that has not ended.
    pub open spec fn spec_ends(self, region: Seq<char>) -> bool {
        self.spec_current() matches Some(at) && self.regions@[at].name@ == region
    }

}
/// Begins a region at the time `now`.
pub fn begin(registry: &mut PerfRegistry, region: &'static str, now: u128)
    ensures
        (final(registry).regions@, final(registry).stack@) == spec_begun(
            old(registry).regions@,
            old(registry).stack@,
            region,
            now,
        ),
{
    match registry.place(region) {
        Some(at) => {
            let before = registry.regions[at];
            let statistics = Statistics {
                timer: Timer {
                    instant: now,
                    last_elapsed: before.statistics.timer.last_elapsed,
                },
                memory: Memory {
                    allocated: 0,
                    freed: 0,
                    peak_usage: before.statistics.memory.peak_usage,
                },
            };
            registry.regions[at] = Region { name: before.name, statistics };
            registry.stack.push(at);
        },
        None => {
            let at = registry.regions.len();
            registry.regions.push(
                Region {
                    name: region,
                    statistics: Statistics {
                        timer: Timer { instant: now, last_elapsed: 0 },
                        memory: Memory { allocated: 0, freed: 0, peak_usage: 0 },
                    },
                },
            );
            registry.stack.push(at);
        },
    }
}

/// Ends a region at the time `now`. Regions end in the reverse of the
/// order in which they were begun: any other is refused, and nothing
/// changes.
pub fn end(registry: &mut PerfRegistry, region: &'static str, now: u128) -> (ended: bool)
    ensures
        ended == old(registry).spec_ends(region@),
        !ended ==> final(registry).regions@ == old(registry).regions@,
        !ended ==> final(registry).stack@ == old(registry).stack@,
        ended ==> ({
            let at = old(registry).spec_current().unwrap();
            &&& final(registry).stack@ == old(registry).stack@.drop_last()
            &&& final(registry).regions@ == old(registry).regions@.update(
                at,
                Region {
                    name: old(registry).regions@[at].name,
                    statistics: spec_stopped(old(registry).regions@[at].statistics, now),
                },
            )
        }),
{
    if registry.stack.len() == 0 {
        return false;
    }
    let at = registry.stack[registry.stack.len() - 1];
    if at >= registry.regions.len() {
        return false;
    }
    let before = registry.regions[at];
    if !same_text(before.name, region) {
        return false;
    }
    registry.stack.pop();
    let last_elapsed = if now >= before.statistics.timer.instant {
        now - before.statistics.timer.instant
    } else {
        0
    };
    registry.regions[at] = Region {
        name: before.name,
        statistics: Statistics {
            timer: Timer { instant: now, last_elapsed },
            memory: before.statistics.memory,
        },
    };
    true
}

/// The innermost region that has not ended.
pub fn region(registry: &PerfRegistry) -> (name: Option<&'static str>)
    ensures
        match registry.spec_current() {
            Some(at) => name == Some(registry.regions@[at].name),
            None => name is None,
        },
{
    if registry.stack.len() == 0 {
        return None;
    }
    let at = registry.stack[registry.stack.len() - 1];
    if at >= registry.regions.len() {
        return None;
    }
    Some(registry.regions[at].name)
}

/// The counters of a region.
pub fn get(registry: &PerfRegistry, region: &str) -> (statistics: Option<Statistics>)
    ensures
        statistics == match spec_place(registry.regions@, region@) {
            Some(at) => Some(registry.regions@[at].statistics),
            None => None,
        },
{
    match registry.place(region) {
        Some(at) => Some(registry.regions[at].statistics),
        None => None,
    }
}

proof fn lemma_place_of_prefix(regions: Seq<Region>, count: int, name: Seq<char>)
    requires
        0 < count <= regions.len(),
        spec_place(regions.take(count - 1), name) is None,
    ensures
        regions[count - 1].name@ == name ==> spec_place(regions, name) == Some(count - 1),
        regions[count - 1].name@ != name ==> spec_place(regions.take(count), name) is None,
    decreases regions.len() - count,
{
    let prefix = regions.take(count);
    assert(prefix.drop_last() =~= regions.take(count - 1));
    assert(prefix.last() == regions[count - 1]);
    if regions[count - 1].name@ == name {
        assert(spec_place(prefix, name) == Some(count - 1));
        lemma_place_extends(regions, count, name);
    }
}

proof fn lemma_place_extends(regions: Seq<Region>, count: int, name: Seq<char>)
    requires
        0 < count <= regions.len(),
        spec_place(regions.take(count), name) is Some,
    ensures
        spec_place(regions, name) == spec_place(regions.take(count), name),
    decreases regions.len() - count,
{
    if count < regions.len() {
        let next = regions.take(count + 1);
        assert(next.drop_last() =~= regions.take(count));
        lemma_place_extends(regions, count + 1, name);
    } else {
        assert(regions.take(count) =~= regions);
    }
}

/// A registry without regions.
pub fn init() -> (registry: PerfRegistry)
    ensures
        registry.regions@.len() == 0,
        registry.stack@.len() == 0,
{
    PerfRegistry { regions: Vec::new(), stack: Vec::new() }
}

/// Counts an allocation of `size` bytes for the innermost region that has
/// not ended, if there is one.
pub fn count_alloc(registry: &mut PerfRegistry, size: usize)
    ensures
        final(registry).stack@ == old(registry).stack@,
        final(registry).regions@ == match old(registry).spec_current() {
            Some(at) => old(registry).regions@.update(
                at,
                Region {
                    name: old(registry).regions@[at].name,
                    statistics: spec_allocated(old(registry).regions@[at].statistics, size),
                },
            ),
            None => old(registry).regions@,
        },
{
    if registry.stack.len() == 0 {
        return ;
    }
    let at = registry.stack[registry.stack.len() - 1];
    if at >= registry.regions.len() {
        return ;
    }
    let before = registry.regions[at];
    let memory = before.statistics.memory;
    let allocated = if size <= usize::MAX - memory.allocated {
        memory.allocated + size
    } else {
        usize::MAX
    };
    let peak_usage = if memory.peak_usage >= allocated {
        memory.peak_usage
    } else {
        allocated
    };
    registry.regions[at] = Region {
        name: before.name,
        statistics: Statistics {
            timer: before.statistics.timer,
            memory: Memory { allocated, freed: memory.freed, peak_usage },
        },
    };
}

/// Counts `size` freed bytes for the innermost region that has not ended,
/// if there is one.
pub fn dealloc(registry: &mut PerfRegistry, size: usize)
    ensures
        final(registry).stack@ == old(registry).stack@,
        final(registry).regions@ == match old(registry).spec_current() {
            Some(at) => old(registry).regions@.update(
                at,
                Region {
                    name: old(registry).regions@[at].name,
                    statistics: spec_freed(old(registry).regions@[at].statistics, size),
                },
            ),
            None => old(registry).regions@,
        },
{
    if registry.stack.len() == 0 {
        return ;
    }
    let at = registry.stack[registry.stack.len() - 1];
    if at >= registry.regions.len() {
        return ;
    }
    let before = registry.regions[at];
    let memory = before.statistics.memory;
    let freed = if size <= usize::MAX - memory.freed {
        memory.freed + size
    } else {
        usize::MAX
    };
    registry.regions[at] = Region {
        name: before.name,
        statistics: Statistics {
            timer: before.statistics.timer,
            memory: Memory { allocated: memory.allocated, freed, peak_usage: memory.peak_usage },
        },
    };
}

impl PerfTrace {
    /// Begins a region, and stands for it until it is finished.
    pub fn new(registry: &mut PerfRegistry, region: &'static str, now: u128) -> (trace: PerfTrace)
        ensures
            trace.0 == region,
            (final(registry).regions@, final(registry).stack@) == spec_begun(
                old(registry).regions@,
                old(registry).stack@,
                region,
                now,
            ),
    {
        begin(registry, region, now);
        PerfTrace(region)
    }

    /// Ends the region. Returns whether it was the innermost one.
    pub fn finish(self, registry: &mut PerfRegistry, now: u128) -> (ended: bool)
        ensures
            ended == old(registry).spec_ends(self.0@),
            ended ==> final(registry).stack@ == old(registry).stack@.drop_last(),
            !ended ==> final(registry).regions@ == old(registry).regions@,
            !ended ==> final(registry).stack@ == old(registry).stack@,
    {
        end(registry, self.0, now)
    }
}

/// A region that was begun is the innermost one, so that it can be ended;
/// and ending it leaves the nesting as it was before it was begun.
pub proof fn lemma_begin_then_end(
    regions: Seq<Region>,
    stack: Seq<usize>,
    region: &'static str,
    now: u128,
)
    requires
        regions.len() < usize::MAX,
    ensures
        ({
            let begun = spec_begun(regions, stack, region, now);
            &&& begun.1.len() == stack.len() + 1
            &&& begun.1.drop_last() == stack
            &&& begun.1.last() < begun.0.len()
            &&& begun.0[begun.1.last() as int].name@ == region@
        }),
{
    lemma_place(regions, region@);
    let begun = spec_begun(regions, stack, region, now);
    assert(begun.1.drop_last() =~= stack);
}

/// The peak never falls below what is allocated, once something was
/// allocated.
pub proof fn lemma_peak_covers_allocated(statistics: Statistics, size: usize)
    ensures
        spec_allocated(statistics, size).memory.peak_usage >= spec_allocated(
            statistics,
            size,
        ).memory.allocated,
        spec_allocated(statistics, size).memory.peak_usage >= statistics.memory.peak_usage,
        spec_allocated(statistics, size).memory.freed == statistics.memory.freed,
        spec_allocated(statistics, size).timer == statistics.timer,
{
}

} // verus!
