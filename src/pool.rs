use vstd::prelude::*;

verus! {

use crate::audio_layout::{AudioLayout, AudioPort};
use crate::buffer::{resized, BufferModel, BufferView};
use crate::routing::{input_bus_for, output_bus_for, route_buffers, routed_copies, routed_view, ChannelCopy};

/// The channels a port contributes.
pub open spec fn port_channels(port: Option<AudioPort>) -> nat {
    match port {
        Some(p) => p.channels as nat,
        None => 0,
    }
}

/// The channel slots logical buffer `index` needs: as many as the wider of
/// its input and output bus.
pub open spec fn channel_capacity(layout: AudioLayout, index: nat) -> nat {
    let a = port_channels(layout.input_at(index));
    let b = port_channels(layout.output_at(index));
    if a >= b {
        a
    } else {
        b
    }
}

/// The pool after allocation for `layout`: one view per logical buffer, its
/// slots sized to that buffer's capacity, keeping the views and slots that
/// were there; new views have no samples.
pub open spec fn allocated(pool: Seq<BufferModel>, layout: AudioLayout) -> Seq<BufferModel> {
    Seq::new(
        layout.buffer_count(),
        |i: int|
            if i < pool.len() {
                BufferModel {
                    samples: pool[i].samples,
                    channels: resized(pool[i].channels, channel_capacity(layout, i as nat)),
                }
            } else {
                BufferModel {
                    samples: 0,
                    channels: resized(Seq::empty(), channel_capacity(layout, i as nat)),
                }
            },
    )
}

/// The pool's views set up for a callback of `samples` samples.
pub open spec fn with_samples(pool: Seq<BufferModel>, samples: nat) -> Seq<BufferModel> {
    Seq::new(pool.len(), |i: int| BufferModel { samples, channels: pool[i].channels })
}

/// The pool's views after routing a callback of `samples` samples onto the
/// host's busses.
pub open spec fn routed_pool(
    pool: Seq<BufferModel>,
    layout: AudioLayout,
    samples: nat,
    host_inputs: Seq<i32>,
    host_outputs: Seq<i32>,
) -> Seq<BufferModel> {
    Seq::new(
        pool.len(),
        |b: int|
            routed_view(
                with_samples(pool, samples)[b],
                input_bus_for(layout, b as nat, host_inputs),
                output_bus_for(layout, b as nat, host_outputs),
            ),
    )
}

/// Per logical buffer, the view that each callback re-points at host memory.
/// Views and their slots are sized when a layout is allocated and reused by
/// every callback after.
pub struct Buffers {
    views: Vec<BufferView>,
}

impl View for Buffers {
    type V = Seq<BufferModel>;

    closed spec fn view(&self) -> Seq<BufferModel> {
        Seq::new(self.views@.len(), |i: int| self.views@[i]@)
    }
}

/// Allocating twice for the same layout leaves the pool as allocating once.
pub proof fn lemma_allocate_idempotent(pool: Seq<BufferModel>, layout: AudioLayout)
    ensures
        allocated(allocated(pool, layout), layout) == allocated(pool, layout),
{
    let once = allocated(pool, layout);
    let twice = allocated(once, layout);
    assert forall|i: int| 0 <= i < twice.len() implies twice[i] == once[i] by {
        assert(twice[i].channels =~= once[i].channels);
    }
    assert(twice =~= once);
}

impl Buffers {
    /// Create an empty pool.
    pub fn new() -> (r: Buffers)
        ensures
            r@ == Seq::<BufferModel>::empty(),
    {
        let r = Buffers { views: Vec::new() };
        assert(r@ =~= Seq::<BufferModel>::empty());
        r
    }

    /// The number of logical buffers the pool holds views for.
    pub fn len(&self) -> (r: usize)
        ensures
            r == self@.len(),
    {
        self.views.len()
    }

    /// Size the pool for `layout`.
    pub fn allocate(&mut self, layout: &AudioLayout)
        requires
            layout.wf(),
        ensures
            final(self)@ == allocated(old(self)@, *layout),
    {
        let n = layout.buffers();
        let ghost target = allocated(old(self)@, *layout);
        self.views.truncate(n);
        while self.views.len() < n
            invariant
                self.views@.len() <= n,
                old(self)@.len() <= self.views@.len() || self.views@.len() == n,
                n == layout.buffer_count(),
                forall|j: int|
                    0 <= j < self.views@.len() ==> #[trigger] self.views@[j]@ == (if j < old(
                        self,
                    )@.len() {
                        old(self)@[j]
                    } else {
                        BufferModel { samples: 0, channels: Seq::empty() }
                    }),
            decreases n - self.views@.len(),
        {
            self.views.push(BufferView::empty());
        }
        let mut i: usize = 0;
        while i < n
            invariant
                i <= n,
                n == layout.buffer_count(),
                layout.wf(),
                self.views@.len() == n,
                target == allocated(old(self)@, *layout),
                forall|j: int| 0 <= j < i ==> #[trigger] self.views@[j]@ == target[j],
                forall|j: int|
                    i <= j < n ==> #[trigger] self.views@[j]@ == (if j < old(self)@.len() {
                        old(self)@[j]
                    } else {
                        BufferModel { samples: 0, channels: Seq::empty() }
                    }),
            decreases n - i,
        {
            let input = layout.input_port(i as u32);
            let output = layout.output_port(i as u32);
            let a: u32 = match input {
                Some(p) => p.channels,
                None => 0,
            };
            let b: u32 = match output {
                Some(p) => p.channels,
                None => 0,
            };
            let capacity = if a >= b {
                a
            } else {
                b
            } as usize;
            self.views[i].resize_channels(capacity);
            i = i + 1;
        }
        assert(self@ =~= target);
    }

    /// Get the views.
    pub fn views(&self) -> (r: &Vec<BufferView>)
        ensures
            r@.len() == self@.len(),
            forall|i: int| 0 <= i < r@.len() ==> #[trigger] r@[i]@ == self@[i],
    {
        &self.views
    }

    /// Set every view up for a callback of `samples` samples, keeping the
    /// slots. Allocates nothing.
    pub fn get(&mut self, samples: usize)
        ensures
            final(self)@ == with_samples(old(self)@, samples as nat),
    {
        let mut i: usize = 0;
        while i < self.views.len()
            invariant
                i <= self.views@.len(),
                self.views@.len() == old(self)@.len(),
                forall|j: int|
                    0 <= j < i ==> #[trigger] self.views@[j]@ == with_samples(
                        old(self)@,
                        samples as nat,
                    )[j],
                forall|j: int|
                    i <= j < self.views@.len() ==> #[trigger] self.views@[j]@ == old(self)@[j],
            decreases self.views@.len() - i,
        {
            self.views[i].set_samples(samples);
            i = i + 1;
        }
        assert(self@ =~= with_samples(old(self)@, samples as nat));
    }

    /// Set the views up for a callback of `samples` samples and route them
    /// onto the host's busses, appending the copies that in-place processing
    /// needs. Allocates nothing but what `copies` may need to grow.
    pub fn route(
        &mut self,
        layout: &AudioLayout,
        samples: usize,
        host_inputs: &[i32],
        host_outputs: &[i32],
        copies: &mut Vec<ChannelCopy>,
    )
        requires
            old(self)@.len() == layout.buffer_count(),
        ensures
            final(self)@ == routed_pool(old(self)@, *layout, samples as nat, host_inputs@, host_outputs@),
            final(copies)@ == old(copies)@ + routed_copies(
                *layout,
                with_samples(old(self)@, samples as nat),
                host_inputs@,
                host_outputs@,
                old(self)@.len(),
            ),
    {
        self.get(samples);
        let ghost prepared = self@;
        assert(crate::routing::models(self.views@) =~= prepared);
        route_buffers(layout, &mut self.views, host_inputs, host_outputs, copies);
        assert(self@ =~= routed_pool(old(self)@, *layout, samples as nat, host_inputs@, host_outputs@));
    }
}

} // verus!
