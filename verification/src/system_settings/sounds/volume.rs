//! Volume levels in the server's encoding, and their conversion to and from
//! percentages of the reference level.
use vstd::prelude::*;

verus! {

/// The level that stands for 100%.
pub const VOLUME_NORM: u32 = 0x10000;

/// The level of silence.
pub const VOLUME_MUTED: u32 = 0;

/// The highest level that the protocol can carry.
pub const VOLUME_MAX: u32 = 0x7FFF_FFFF;

/// The highest number of channels that the protocol can carry.
pub const CHANNELS_MAX: usize = 32;

/// One level in the server's encoding.
#[derive(Clone, Copy, Debug, PartialEq, Eq, Structural)]
pub struct Volume(pub u32);

/// `a / b`, rounded up.
pub open spec fn ceil_div(a: int, b: int) -> int {
    (a + b - 1) / b
}

/// The level for `p` percent of the reference level, rounded up and no
/// higher than the protocol's maximum.
pub open spec fn native_of_percent(p: int) -> int {
    let v = ceil_div(p * VOLUME_NORM as int, 100);
    if v > VOLUME_MAX as int {
        VOLUME_MAX as int
    } else {
        v
    }
}

/// The percentage of the reference level that `v` stands for, rounded up.
pub open spec fn percent_of_native(v: int) -> int {
    ceil_div(v * 100, VOLUME_NORM as int)
}

/// A level raised by `delta`, no higher than the protocol's maximum.
pub open spec fn raised(v: int, delta: int) -> int {
    if v + delta > VOLUME_MAX as int {
        VOLUME_MAX as int
    } else {
        v + delta
    }
}

/// A level lowered by `delta`, no lower than silence.
pub open spec fn lowered(v: int, delta: int) -> int {
    if v - delta < 0 {
        0
    } else {
        v - delta
    }
}

/// The sum of the levels.
pub open spec fn total(levels: Seq<Volume>) -> int
    decreases levels.len(),
{
    if levels.len() == 0 {
        0
    } else {
        total(levels.drop_last()) + levels.last().0 as int
    }
}

/// The mean of the levels, rounded down; silence where there is no channel.
pub open spec fn average(levels: Seq<Volume>) -> int {
    if levels.len() == 0 {
        0
    } else {
        total(levels) / levels.len() as int
    }
}

/// The level for `p` percent of the reference level.
pub fn percent_to_native(p: u32) -> (v: Volume)
    ensures
        v.0 as int == native_of_percent(p as int),
        v.0 <= VOLUME_MAX,
{
    let norm: u64 = VOLUME_NORM as u64;
    assert(p as u64 * norm <= 0xFFFF_FFFF * 0x10000) by (nonlinear_arith)
        requires
            p <= 0xFFFF_FFFF,
            norm == 0x10000,
    ;
    let scaled: u64 = (p as u64 * norm + 99) / 100;
    if scaled > VOLUME_MAX as u64 {
        Volume(VOLUME_MAX)
    } else {
        Volume(scaled as u32)
    }
}

/// The percentage of the reference level that `v` stands for.
pub fn native_to_percent(v: Volume) -> (p: u32)
    ensures
        p as int == percent_of_native(v.0 as int),
{
    let scaled: u64 = (v.0 as u64 * 100 + (VOLUME_NORM as u64 - 1)) / VOLUME_NORM as u64;
    scaled as u32
}

/// A percentage up to 100 that is turned into a level and back comes out as
/// itself or as the next percentage above it.
pub proof fn lemma_percent_round_trip(p: int)
    requires
        0 <= p <= 100,
    ensures
        p <= percent_of_native(native_of_percent(p)) <= p + 1,
{
}

/// A percentage whose level is a whole number comes back unchanged: so do
/// 0, 25, 50, 75 and 100.
pub proof fn lemma_percent_round_trip_exact(p: int)
    requires
        0 <= p <= 100,
        (p * VOLUME_NORM as int) % 100 == 0,
    ensures
        percent_of_native(native_of_percent(p)) == p,
{
}

/// The levels of the channels of one device or stream, in channel order:
/// no more channels than the protocol carries, each at a level that it
/// carries.
#[derive(Debug, PartialEq, Eq)]
pub struct ChannelVolumes {
    levels: Vec<Volume>,
}

impl View for ChannelVolumes {
    type V = Seq<Volume>;

    closed spec fn view(&self) -> Seq<Volume> {
        self.levels@
    }
}

/// The protocol can carry these levels as the volume of one device.
pub open spec fn valid_levels(levels: Seq<Volume>) -> bool {
    &&& levels.len() <= CHANNELS_MAX
    &&& forall|c: int| 0 <= c < levels.len() ==> (#[trigger] levels[c]).0 <= VOLUME_MAX
}

impl ChannelVolumes {
    #[verifier::type_invariant]
    closed spec fn wf(&self) -> bool {
        valid_levels(self.levels@)
    }

    /// The given levels as one value, where the protocol can carry them.
    pub fn new(levels: Vec<Volume>) -> (r: Option<ChannelVolumes>)
        ensures
            r is Some <==> valid_levels(levels@),
            r is Some ==> r->0@ == levels@,
    {
        if levels.len() > CHANNELS_MAX {
            return None;
        }
        let mut c: usize = 0;
        while c < levels.len()
            invariant
                c <= levels.len(),
                forall|k: int| 0 <= k < c ==> (#[trigger] levels@[k]).0 <= VOLUME_MAX,
            decreases levels.len() - c,
        {
            if levels[c].0 > VOLUME_MAX {
                return None;
            }
            c = c + 1;
        }
        Some(ChannelVolumes { levels })
    }

    /// The volume of a device without channels.
    pub fn empty() -> (r: ChannelVolumes)
        ensures
            r@.len() == 0,
    {
        ChannelVolumes { levels: Vec::new() }
    }

    /// `channels` channels, all at `level`; `None` where the protocol
    /// cannot carry that.
    pub fn uniform(channels: usize, level: Volume) -> (r: Option<ChannelVolumes>)
        ensures
            r is Some <==> channels <= CHANNELS_MAX && level.0 <= VOLUME_MAX,
            r is Some ==> r->0@ == Seq::new(channels as nat, |c: int| level),
    {
        if channels > CHANNELS_MAX || level.0 > VOLUME_MAX {
            return None;
        }
        let mut levels: Vec<Volume> = Vec::new();
        let mut c: usize = 0;
        while c < channels
            invariant
                c <= channels,
                levels@ == Seq::new(c as nat, |c: int| level),
            decreases channels - c,
        {
            levels.push(level);
            assert(levels@ =~= Seq::new((c + 1) as nat, |c: int| level));
            c = c + 1;
        }
        Some(ChannelVolumes { levels })
    }

    /// The number of channels.
    pub fn len(&self) -> (n: usize)
        ensures
            n == self@.len(),
            valid_levels(self@),
    {
        proof {
            use_type_invariant(self);
        }
        self.levels.len()
    }

    /// The level of channel `c`.
    pub fn get(&self, c: usize) -> (v: Option<Volume>)
        ensures
            v == if c < self@.len() {
                Some(self@[c as int])
            } else {
                None
            },
    {
        if c < self.levels.len() {
            Some(self.levels[c])
        } else {
            None
        }
    }

    /// A copy with the same levels.
    pub fn duplicate(&self) -> (r: ChannelVolumes)
        ensures
            r@ == self@,
    {
        proof {
            use_type_invariant(self);
        }
        let mut levels: Vec<Volume> = Vec::new();
        let mut c: usize = 0;
        while c < self.levels.len()
            invariant
                c <= self.levels.len(),
                levels@ == self.levels@.take(c as int),
            decreases self.levels.len() - c,
        {
            levels.push(self.levels[c]);
            assert(self.levels@.take(c + 1) =~= self.levels@.take(c as int).push(
                self.levels@[c as int],
            ));
            c = c + 1;
        }
        assert(self.levels@.take(self.levels.len() as int) =~= self.levels@);
        ChannelVolumes { levels }
    }

    /// Whether the two hold the same levels, channel by channel.
    pub fn same(&self, other: &ChannelVolumes) -> (r: bool)
        ensures
            r == (self@ == other@),
    {
        if self.levels.len() != other.levels.len() {
            return false;
        }
        let mut c: usize = 0;
        while c < self.levels.len()
            invariant
                c <= self.levels.len(),
                self.levels.len() == other.levels.len(),
                forall|k: int| 0 <= k < c ==> self@[k] == other@[k],
            decreases self.levels.len() - c,
        {
            if self.levels[c].0 != other.levels[c].0 {
                return false;
            }
            c = c + 1;
        }
        assert(self@ =~= other@);
        true
    }

    /// The mean level over the channels: the one value shown for the whole
    /// device.
    pub fn avg(&self) -> (v: Volume)
        ensures
            v.0 as int == average(self@),
            v.0 <= VOLUME_MAX,
    {
        proof {
            use_type_invariant(self);
        }
        if self.levels.len() == 0 {
            return Volume(VOLUME_MUTED);
        }
        let mut sum: u64 = 0;
        let mut c: usize = 0;
        while c < self.levels.len()
            invariant
                c <= self.levels.len(),
                valid_levels(self.levels@),
                sum == total(self@.take(c as int)),
                sum <= c * VOLUME_MAX,
            decreases self.levels.len() - c,
        {
            assert(self@.take(c + 1).drop_last() =~= self@.take(c as int));
            assert(self@[c as int].0 <= VOLUME_MAX);
            sum = sum + self.levels[c].0 as u64;
            c = c + 1;
        }
        assert(self@.take(self.levels.len() as int) =~= self@);
        let n: u64 = self.levels.len() as u64;
        let mean: u64 = sum / n;
        assert(mean <= VOLUME_MAX) by (nonlinear_arith)
            requires
                mean == sum / n,
                n > 0,
                sum <= n * VOLUME_MAX,
        ;
        Volume(mean as u32)
    }

    /// The percentage shown for the whole device: that of the mean level.
    pub fn percent(&self) -> (p: u32)
        ensures
            p as int == percent_of_native(average(self@)),
    {
        native_to_percent(self.avg())
    }

    /// Every channel raised by `delta`, none above the protocol's maximum.
    pub fn increase(&self, delta: Volume) -> (r: ChannelVolumes)
        ensures
            valid_levels(r@),
            r@.len() == self@.len(),
            forall|c: int|
                0 <= c < self@.len() ==> (#[trigger] r@[c]).0 as int == raised(
                    self@[c].0 as int,
                    delta.0 as int,
                ),
    {
        proof {
            use_type_invariant(self);
        }
        let mut levels: Vec<Volume> = Vec::new();
        let mut c: usize = 0;
        while c < self.levels.len()
            invariant
                c <= self.levels.len(),
                levels@.len() == c,
                forall|k: int|
                    0 <= k < c ==> (#[trigger] levels@[k]).0 as int == raised(
                        self@[k].0 as int,
                        delta.0 as int,
                    ),
            decreases self.levels.len() - c,
        {
            let sum: u64 = self.levels[c].0 as u64 + delta.0 as u64;
            let level: u32 = if sum > VOLUME_MAX as u64 {
                VOLUME_MAX
            } else {
                sum as u32
            };
            levels.push(Volume(level));
            c = c + 1;
        }
        ChannelVolumes { levels }
    }

    /// Every channel lowered by `delta`, none below silence.
    pub fn decrease(&self, delta: Volume) -> (r: ChannelVolumes)
        ensures
            valid_levels(r@),
            r@.len() == self@.len(),
            forall|c: int|
                0 <= c < self@.len() ==> (#[trigger] r@[c]).0 as int == lowered(
                    self@[c].0 as int,
                    delta.0 as int,
                ),
    {
        proof {
            use_type_invariant(self);
        }
        let mut levels: Vec<Volume> = Vec::new();
        let mut c: usize = 0;
        while c < self.levels.len()
            invariant
                c <= self.levels.len(),
                valid_levels(self.levels@),
                levels@.len() == c,
                forall|k: int|
                    0 <= k < c ==> (#[trigger] levels@[k]).0 as int == lowered(
                        self@[k].0 as int,
                        delta.0 as int,
                    ),
            decreases self.levels.len() - c,
        {
            let level: u32 = if self.levels[c].0 < delta.0 {
                VOLUME_MUTED
            } else {
                self.levels[c].0 - delta.0
            };
            levels.push(Volume(level));
            c = c + 1;
        }
        assert forall|k: int| 0 <= k < levels@.len() implies (#[trigger] levels@[k]).0
            <= VOLUME_MAX by {
            assert(self@[k].0 <= VOLUME_MAX);
        }
        ChannelVolumes { levels }
    }
}

/// `current` with every channel raised by `delta_percent` percent of the
/// reference level.
pub fn increase(current: &ChannelVolumes, delta_percent: u32) -> (r: ChannelVolumes)
    ensures
        r@.len() == current@.len(),
        forall|c: int|
            0 <= c < current@.len() ==> (#[trigger] r@[c]).0 as int == raised(
                current@[c].0 as int,
                native_of_percent(delta_percent as int),
            ),
{
    current.increase(percent_to_native(delta_percent))
}

/// `current` with every channel lowered by `delta_percent` percent of the
/// reference level.
pub fn decrease(current: &ChannelVolumes, delta_percent: u32) -> (r: ChannelVolumes)
    ensures
        r@.len() == current@.len(),
        forall|c: int|
            0 <= c < current@.len() ==> (#[trigger] r@[c]).0 as int == lowered(
                current@[c].0 as int,
                native_of_percent(delta_percent as int),
            ),
{
    current.decrease(percent_to_native(delta_percent))
}

/// Raising never leaves the protocol's range, whatever the step, and
/// lowering never goes under silence.
pub proof fn lemma_steps_stay_in_range(v: int, delta: int)
    requires
        0 <= v <= VOLUME_MAX,
        0 <= delta,
    ensures
        v <= raised(v, delta) <= VOLUME_MAX,
        0 <= lowered(v, delta) <= v,
{
}

proof fn lemma_total_uniform(levels: Seq<Volume>, level: int)
    requires
        forall|c: int| 0 <= c < levels.len() ==> (#[trigger] levels[c]).0 == level,
    ensures
        total(levels) == levels.len() * level,
    decreases levels.len(),
{
    if levels.len() > 0 {
        let rest = levels.drop_last();
        assert forall|c: int| 0 <= c < rest.len() implies (#[trigger] rest[c]).0 == level by {
            assert(rest[c] == levels[c]);
        }
        lemma_total_uniform(rest, level);
        assert(levels.last().0 == level);
        assert(total(levels) == (levels.len() - 1) * level + level);
        assert((levels.len() - 1) * level + level == levels.len() * level) by (nonlinear_arith);
    }
}

/// The mean of channels that all stand at one level is that level.
pub proof fn lemma_average_uniform(levels: Seq<Volume>, level: int)
    requires
        levels.len() > 0,
        forall|c: int| 0 <= c < levels.len() ==> (#[trigger] levels[c]).0 == level,
    ensures
        average(levels) == level,
{
    lemma_total_uniform(levels, level);
    let n = levels.len() as int;
    assert((n * level) / n == level) by (nonlinear_arith)
        requires
            n > 0,
    ;
}

/// A device with one channel or more, all at the level for a percentage
/// up to 100, shows that level as its mean, and as its percentage that
/// percentage or the next above it.
pub proof fn lemma_uniform_percent_round_trip(levels: Seq<Volume>, p: int)
    requires
        0 <= p <= 100,
        levels.len() > 0,
        forall|c: int| 0 <= c < levels.len() ==> (#[trigger] levels[c]).0 == native_of_percent(p),
    ensures
        average(levels) == native_of_percent(p),
        p <= percent_of_native(average(levels)) <= p + 1,
{
    lemma_average_uniform(levels, native_of_percent(p));
    lemma_percent_round_trip(p);
}

} // verus!
