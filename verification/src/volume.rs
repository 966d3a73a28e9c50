//! Per-channel device volume: an ordered sequence of channel levels plus a
//! mute flag, with a uniform broadcast `set` and an arithmetic-mean `avg`.
//! Levels are clamped to the valid range before they are stored, so a value
//! handed to the server never leaves that range.

use vstd::prelude::*;

verus! {

/// Level that corresponds to full scale (100%).
pub const VOLUME_NORM: u32 = 65536;

/// Largest level a channel may hold; `set` clamps to this bound.
pub const VOLUME_MAX: u32 = 262144;

/// Most channels a device volume may carry.
pub const CHANNELS_MAX: usize = 32;

/// Mathematical model of a [`Volume`].
#[verifier::ext_equal]
pub ghost struct VolumeView {
    pub levels: Seq<u32>,
    pub muted: bool,
}

/// Sum of a sequence of levels.
pub open spec fn sum_of(s: Seq<u32>) -> int
    decreases s.len(),
{
    if s.len() == 0 {
        0
    } else {
        sum_of(s.drop_last()) + s.last()
    }
}

/// A level pulled back into the valid range.
pub open spec fn clamp_level(v: u32) -> u32 {
    if v > VOLUME_MAX {
        VOLUME_MAX
    } else {
        v
    }
}

impl VolumeView {
    /// Channel count and every level are within the ranges the server accepts.
    pub open spec fn wf(self) -> bool {
        &&& self.levels.len() <= CHANNELS_MAX
        &&& forall|i: int| 0 <= i < self.levels.len() ==> self.levels[i] <= VOLUME_MAX
    }

    /// Arithmetic mean of the levels; zero when there are no channels.
    pub open spec fn avg(self) -> u32 {
        if self.levels.len() == 0 {
            0
        } else {
            (sum_of(self.levels) / self.levels.len() as int) as u32
        }
    }

    /// The model after a uniform `set`: `channels` copies of the clamped
    /// value, mute flag kept.
    pub open spec fn set_to(self, channels: nat, value: u32) -> VolumeView {
        VolumeView { levels: Seq::new(channels, |i: int| clamp_level(value)), muted: self.muted }
    }
}

/// Level that a slider position in percent (0–100) maps to: the linear
/// fraction of full scale, clamped like every stored level.
pub open spec fn percent_level(p: u32) -> u32 {
    if (p as int) * (VOLUME_NORM as int) / 100 > VOLUME_MAX as int {
        VOLUME_MAX
    } else {
        ((p as int) * (VOLUME_NORM as int) / 100) as u32
    }
}

/// Turn a slider position in percent into a channel level.
pub fn percent_to_level(p: u32) -> (r: u32)
    ensures
        r == percent_level(p),
{
    let v: u64 = (p as u64) * (VOLUME_NORM as u64) / 100;
    if v > VOLUME_MAX as u64 {
        VOLUME_MAX
    } else {
        v as u32
    }
}

/// Per-channel volume of one device plus its mute flag.
#[derive(Debug)]
pub struct Volume {
    levels: Vec<u32>,
    muted: bool,
}

impl View for Volume {
    type V = VolumeView;

    closed spec fn view(&self) -> VolumeView {
        VolumeView { levels: self.levels@, muted: self.muted }
    }
}

proof fn lemma_sum_bounds(s: Seq<u32>)
    requires
        forall|i: int| 0 <= i < s.len() ==> s[i] <= VOLUME_MAX,
    ensures
        0 <= sum_of(s) <= s.len() * VOLUME_MAX,
    decreases s.len(),
{
    if s.len() > 0 {
        lemma_sum_bounds(s.drop_last());
    }
}

impl Volume {
    pub open spec fn wf(self) -> bool {
        self@.wf()
    }

    /// A volume with `channels` channels all at the clamped `value`, unmuted.
    pub fn new(channels: usize, value: u32) -> (r: Volume)
        requires
            channels <= CHANNELS_MAX,
        ensures
            r@ == (VolumeView { levels: Seq::new(channels as nat, |i: int| clamp_level(value)), muted: false }),
            r.wf(),
    {
        let mut v = Volume { levels: Vec::new(), muted: false };
        v.set(channels, value);
        proof {
            assert(v@ =~= (VolumeView {
                levels: Seq::new(channels as nat, |i: int| clamp_level(value)),
                muted: false,
            }));
        }
        v
    }

    /// Number of channels.
    pub fn len(&self) -> (r: usize)
        ensures
            r == self@.levels.len(),
    {
        self.levels.len()
    }

    pub fn is_muted(&self) -> (r: bool)
        ensures
            r == self@.muted,
    {
        self.muted
    }

    pub fn set_muted(&mut self, muted: bool)
        ensures
            final(self)@ == (VolumeView { levels: old(self)@.levels, muted }),
            old(self).wf() ==> final(self).wf(),
    {
        self.muted = muted;
        proof {
            assert(self@ =~= (VolumeView { levels: old(self)@.levels, muted }));
        }
    }

    /// Broadcast one value, clamped to the valid range, across `channels`
    /// channels, replacing the previous level vector.
    pub fn set(&mut self, channels: usize, value: u32)
        requires
            channels <= CHANNELS_MAX,
        ensures
            final(self)@ == old(self)@.set_to(channels as nat, value),
            final(self).wf(),
    {
        let level = if value > VOLUME_MAX {
            VOLUME_MAX
        } else {
            value
        };
        let mut levels: Vec<u32> = Vec::new();
        let mut i: usize = 0;
        while i < channels
            invariant
                i <= channels <= CHANNELS_MAX,
                levels@ =~= Seq::new(i as nat, |j: int| clamp_level(value)),
                level == clamp_level(value),
            decreases channels - i,
        {
            levels.push(level);
            i += 1;
        }
        self.levels = levels;
        proof {
            assert(self@ =~= old(self)@.set_to(channels as nat, value));
        }
    }

    /// A volume with the given per-channel levels, each clamped to the
    /// valid range, as the server reports them.
    pub fn from_levels(levels: Vec<u32>, muted: bool) -> (r: Volume)
        requires
            levels@.len() <= CHANNELS_MAX,
        ensures
            r@ == (VolumeView { levels: levels@.map_values(|v: u32| clamp_level(v)), muted }),
            r.wf(),
    {
        let mut clamped: Vec<u32> = Vec::new();
        let mut i: usize = 0;
        let n = levels.len();
        while i < n
            invariant
                i <= n == levels@.len(),
                clamped@ =~= levels@.take(i as int).map_values(|v: u32| clamp_level(v)),
            decreases n - i,
        {
            let v = levels[i];
            clamped.push(
                if v > VOLUME_MAX {
                    VOLUME_MAX
                } else {
                    v
                },
            );
            proof {
                assert(clamped@ =~= levels@.take(i as int + 1).map_values(
                    |v: u32| clamp_level(v),
                ));
            }
            i += 1;
        }
        let r = Volume { levels: clamped, muted };
        proof {
            assert(levels@.take(n as int) =~= levels@);
            assert(r@ =~= (VolumeView {
                levels: levels@.map_values(|v: u32| clamp_level(v)),
                muted,
            }));
        }
        r
    }

    /// Level of one channel.
    pub fn level(&self, i: usize) -> (r: u32)
        requires
            i < self@.levels.len(),
        ensures
            r == self@.levels[i as int],
    {
        self.levels[i]
    }

    /// Arithmetic mean of the channel levels.
    pub fn avg(&self) -> (r: u32)
        requires
            self.wf(),
        ensures
            r == self@.avg(),
    {
        let n = self.levels.len();
        if n == 0 {
            return 0;
        }
        let mut sum: u64 = 0;
        let mut i: usize = 0;
        while i < n
            invariant
                i <= n == self@.levels.len(),
                self.wf(),
                sum == sum_of(self@.levels.take(i as int)),
                sum <= i * (VOLUME_MAX as u64),
            decreases n - i,
        {
            proof {
                lemma_sum_bounds(self@.levels.take(i as int));
                assert(self@.levels.take(i as int + 1).drop_last() =~= self@.levels.take(i as int));
                assert(self@.levels.take(i as int + 1).last() == self@.levels[i as int]);
            }
            sum = sum + self.levels[i] as u64;
            i += 1;
        }
        proof {
            assert(self@.levels.take(n as int) =~= self@.levels);
            lemma_sum_bounds(self@.levels);
        }
        (sum / (n as u64)) as u32
    }

    /// Slider position in percent that the average level corresponds to.
    pub fn avg_percent(&self) -> (r: u32)
        requires
            self.wf(),
        ensures
            r == (self@.avg() as int) * 100 / (VOLUME_NORM as int),
    {
        let a = self.avg();
        ((a as u64) * 100 / (VOLUME_NORM as u64)) as u32
    }

    /// An independent copy with the same model.
    pub fn duplicate(&self) -> (r: Volume)
        ensures
            r@ == self@,
    {
        let mut levels: Vec<u32> = Vec::new();
        let mut i: usize = 0;
        let n = self.levels.len();
        while i < n
            invariant
                i <= n == self@.levels.len(),
                levels@ =~= self@.levels.take(i as int),
            decreases n - i,
        {
            levels.push(self.levels[i]);
            i += 1;
        }
        let r = Volume { levels, muted: self.muted };
        proof {
            assert(r@ =~= self@);
        }
        r
    }
}

} // verus!
