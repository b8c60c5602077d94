use vstd::prelude::*;

verus! {

/// The processing mode requested by the host.
#[derive(Clone, Copy, Debug, PartialEq, Eq, Hash)]
pub enum ProcessMode {
    /// Real-time processing.
    Realtime,
    /// Buffered processing.
    Buffered,
    /// Offline processing.
    Offline,
}

/// Where the samples of one channel slot of a buffer lie: nowhere yet, or in
/// a channel of one of the host's input or output busses.
#[derive(Clone, Copy, Debug, PartialEq, Eq, Structural)]
pub enum ChannelSource {
    /// The slot aliases no memory.
    Empty,
    /// The slot aliases channel `channel` of host input bus `bus`.
    Input { bus: usize, channel: usize },
    /// The slot aliases channel `channel` of host output bus `bus`.
    Output { bus: usize, channel: usize },
}

/// What a [`BufferView`] describes: a sample count and a source per channel.
pub struct BufferModel {
    pub samples: nat,
    pub channels: Seq<ChannelSource>,
}

/// A view of one logical buffer for one callback: each channel slot names
/// the memory it aliases, which holds `samples` samples. A slot that the host
/// supplies no channel for is [`ChannelSource::Empty`] and aliases nothing:
/// it has no samples to read or write.
pub struct BufferView {
    samples: usize,
    channels: Vec<ChannelSource>,
}

impl View for BufferView {
    type V = BufferModel;

    closed spec fn view(&self) -> BufferModel {
        BufferModel { samples: self.samples as nat, channels: self.channels@ }
    }
}

/// `slots` cut or extended to `n` entries; new entries alias nothing.
pub open spec fn resized(slots: Seq<ChannelSource>, n: nat) -> Seq<ChannelSource> {
    Seq::new(n, |j: int| if j < slots.len() { slots[j] } else { ChannelSource::Empty })
}

impl BufferView {
    /// Create a buffer view over the given channel slots.
    pub fn new(samples: usize, channels: Vec<ChannelSource>) -> (r: BufferView)
        ensures
            r@ == (BufferModel { samples: samples as nat, channels: channels@ }),
    {
        BufferView { samples, channels }
    }

    /// Create a view with no samples and no channels.
    pub fn empty() -> (r: BufferView)
        ensures
            r@ == (BufferModel { samples: 0, channels: Seq::empty() }),
    {
        BufferView { samples: 0, channels: Vec::new() }
    }

    /// Get the number of samples in each channel.
    pub fn samples(&self) -> (r: usize)
        ensures
            r == self@.samples,
    {
        self.samples
    }

    /// Get the number of channels.
    pub fn channels(&self) -> (r: usize)
        ensures
            r == self@.channels.len(),
    {
        self.channels.len()
    }

    /// Get where the channel at `index` lies.
    pub fn source(&self, index: usize) -> (r: ChannelSource)
        requires
            index < self@.channels.len(),
        ensures
            r == self@.channels[index as int],
    {
        self.channels[index]
    }

    /// Set the number of samples for a new callback; the slots stay.
    pub fn set_samples(&mut self, samples: usize)
        ensures
            final(self)@ == (BufferModel { samples: samples as nat, channels: old(self)@.channels }),
    {
        self.samples = samples;
    }

    /// Cut or extend the channel slots to `n`; new slots alias nothing.
    pub fn resize_channels(&mut self, n: usize)
        ensures
            final(self)@ == (BufferModel {
                samples: old(self)@.samples,
                channels: resized(old(self)@.channels, n as nat),
            }),
    {
        self.channels.truncate(n);
        while self.channels.len() < n
            invariant
                self.channels@.len() <= n,
                self.samples == old(self).samples,
                old(self)@.channels.len() <= self.channels@.len() || self.channels@.len() == n,
                forall|j: int|
                    0 <= j < self.channels@.len() ==> self.channels@[j] == resized(
                        old(self)@.channels,
                        n as nat,
                    )[j],
            decreases n - self.channels@.len(),
        {
            self.channels.push(ChannelSource::Empty);
        }
        assert(self.channels@ =~= resized(old(self)@.channels, n as nat));
    }

    /// Point the channel at `index` at other memory.
    pub fn set_channel(&mut self, index: usize, source: ChannelSource)
        requires
            index < old(self)@.channels.len(),
        ensures
            final(self)@ == (BufferModel {
                samples: old(self)@.samples,
                channels: old(self)@.channels.update(index as int, source),
            }),
    {
        self.channels.set(index, source);
    }

    /// Walk the view sample by sample: each step yields a walk over the
    /// channels at one sample position.
    pub fn iter_samples(&self) -> (r: SampleIter)
        ensures
            r@ == (CursorModel { position: 0, end: self@.samples, across: self@.channels.len() }),
    {
        SampleIter::new(self.samples, self.channels.len())
    }
}

/// The state of a walk: the next position, where it stops, and, for the walk
/// over samples, how many channels each position has.
pub struct CursorModel {
    pub position: nat,
    pub end: nat,
    pub across: nat,
}

/// A walk over the sample positions `0..samples` of a buffer, in order.
pub struct SampleIter {
    sample: usize,
    samples: usize,
    channels: usize,
}

impl View for SampleIter {
    type V = CursorModel;

    closed spec fn view(&self) -> CursorModel {
        CursorModel {
            position: self.sample as nat,
            end: self.samples as nat,
            across: self.channels as nat,
        }
    }
}

impl SampleIter {
    /// A walk over `samples` positions of `channels` channels each.
    pub fn new(samples: usize, channels: usize) -> (r: SampleIter)
        ensures
            r@ == (CursorModel { position: 0, end: samples as nat, across: channels as nat }),
    {
        SampleIter { sample: 0, samples, channels }
    }

    /// Step to the next sample position, yielding the walk over its channels.
    pub fn next(&mut self) -> (r: Option<ChannelIter>)
        ensures
            old(self)@.position < old(self)@.end ==> {
                &&& r matches Some(c)
                &&& c@ == (CursorModel { position: 0, end: old(self)@.across, across: 0 })
                &&& c.sample() == old(self)@.position
                &&& final(self)@ == (CursorModel { position: old(self)@.position + 1, ..old(self)@ })
            },
            old(self)@.position >= old(self)@.end ==> r is None && final(self)@ == old(self)@,
    {
        if self.sample >= self.samples {
            return None;
        }
        let channels = ChannelIter { sample: self.sample, channel: 0, channels: self.channels };
        self.sample = self.sample + 1;
        Some(channels)
    }

    /// The number of sample positions left.
    pub fn remaining(&self) -> (r: usize)
        ensures
            r == if self@.position <= self@.end {
                self@.end - self@.position
            } else {
                0
            },
    {
        if self.sample <= self.samples {
            self.samples - self.sample
        } else {
            0
        }
    }
}

/// A walk over the channels `0..channels` at one sample position, in order.
pub struct ChannelIter {
    sample: usize,
    channel: usize,
    channels: usize,
}

impl View for ChannelIter {
    type V = CursorModel;

    closed spec fn view(&self) -> CursorModel {
        CursorModel { position: self.channel as nat, end: self.channels as nat, across: 0 }
    }
}

impl ChannelIter {
    pub closed spec fn sample(&self) -> nat {
        self.sample as nat
    }

    /// The sample position this walk is at.
    pub fn sample_index(&self) -> (r: usize)
        ensures
            r == self.sample(),
    {
        self.sample
    }

    /// Step to the next channel, yielding its index.
    pub fn next(&mut self) -> (r: Option<usize>)
        ensures
            final(self).sample() == old(self).sample(),
            old(self)@.position < old(self)@.end ==> r == Some(old(self)@.position as usize)
                && final(self)@ == (CursorModel { position: old(self)@.position + 1, ..old(self)@ }),
            old(self)@.position >= old(self)@.end ==> r is None && final(self)@ == old(self)@,
    {
        if self.channel >= self.channels {
            return None;
        }
        let channel = self.channel;
        self.channel = self.channel + 1;
        Some(channel)
    }

    /// The number of channels left.
    pub fn remaining(&self) -> (r: usize)
        ensures
            r == if self@.position <= self@.end {
                self@.end - self@.position
            } else {
                0
            },
    {
        if self.channel <= self.channels {
            self.channels - self.channel
        } else {
            0
        }
    }
}

} // verus!
