use vstd::prelude::*;

verus! {

use crate::audio_layout::AudioLayout;
use crate::buffer::{BufferModel, BufferView};
use crate::plugin::{Activate, Process};
use crate::pool::{allocated, routed_pool, with_samples, Buffers};
use crate::routing::{routed_copies, ChannelCopy};

/// What the state of a plugin instance holds.
pub struct StateModel<S> {
    /// The negotiated bus layout.
    pub layout: AudioLayout,
    /// The host's processing setup, once given.
    pub setup: Option<S>,
    /// The buffer pool's views, per logical buffer.
    pub pool: Seq<BufferModel>,
    /// The status the last process call returned.
    pub status: Process,
    /// The latency the last activation reported.
    pub latency: u32,
    /// Whether the host has switched processing on.
    pub processing: bool,
    /// How many times a reset was skipped because the plugin was busy.
    pub skipped_resets: u64,
}

/// What the host's request to switch activation asks of the plugin.
#[derive(Clone, Copy, Debug, PartialEq, Eq, Structural)]
pub enum ActiveStep {
    /// Run the plugin's deactivation hook.
    Deactivate,
    /// The pool is sized for the layout: run the plugin's activation hook
    /// with the layout and the setup, then report its result.
    Activate,
    /// Activation before setup: refused, nothing changed.
    Reject,
}

/// What one process call of the host amounts to.
#[derive(Clone, Copy, Debug, PartialEq, Eq, Structural)]
pub enum ProcessStep {
    /// No setup yet: the call is refused and no buffer is touched.
    NotReady,
    /// A parameter flush: no samples or no outputs; the plugin does not process.
    Flush,
    /// A real call over this many samples.
    Run(usize),
}

/// The step for a process call, given whether setup happened, the sample
/// count, the number of output busses and whether output memory is attached.
pub open spec fn step_for(
    has_setup: bool,
    num_samples: i32,
    num_outputs: i32,
    outputs_attached: bool,
) -> ProcessStep {
    if !has_setup {
        ProcessStep::NotReady
    } else if num_samples <= 0 || num_outputs <= 0 || !outputs_attached {
        ProcessStep::Flush
    } else {
        ProcessStep::Run(num_samples as usize)
    }
}

/// A process call without samples never reaches the plugin's process
/// callback, whatever else the host hands over.
pub proof fn lemma_flush_never_processes(has_setup: bool, num_outputs: i32, outputs_attached: bool)
    ensures
        !(step_for(has_setup, 0, num_outputs, outputs_attached) is Run),
        has_setup ==> step_for(has_setup, 0, num_outputs, outputs_attached) == ProcessStep::Flush,
{
}

/// A layout whose bus counts fit host indices.
struct FittedLayout {
    layout: AudioLayout,
}

impl FittedLayout {
    #[verifier::type_invariant]
    spec fn fits(&self) -> bool {
        self.layout.wf()
    }

    spec fn spec_layout(&self) -> AudioLayout {
        self.layout
    }

    fn new(layout: AudioLayout) -> (r: Self)
        requires
            layout.wf(),
        ensures
            r.spec_layout() == layout,
    {
        FittedLayout { layout }
    }

    fn get(&self) -> (r: &AudioLayout)
        ensures
            *r == self.spec_layout(),
            r.wf(),
    {
        proof {
            use_type_invariant(self);
        }
        &self.layout
    }
}

/// The state of one plugin instance: the single point of truth for the
/// layout, setup, buffer pool, status, latency and processing flag.
pub struct PluginState<S> {
    audio_layout: FittedLayout,
    buffer_layout: Option<S>,
    buffers: Buffers,
    status: Process,
    latency: u32,
    processing: bool,
    skipped_resets: u64,
}

impl<S> View for PluginState<S> {
    type V = StateModel<S>;

    closed spec fn view(&self) -> StateModel<S> {
        StateModel {
            layout: self.audio_layout.spec_layout(),
            setup: self.buffer_layout,
            pool: self.buffers@,
            status: self.status,
            latency: self.latency,
            processing: self.processing,
            skipped_resets: self.skipped_resets,
        }
    }
}

impl<S> PluginState<S> {
    /// A fresh instance: no ports, no setup, an empty pool, done, no latency,
    /// not processing.
    pub fn new() -> (r: Self)
        ensures
            r@.layout.wf(),
            r@.layout.input is None,
            r@.layout.output is None,
            r@.layout.aux_input@.len() == 0,
            r@.layout.aux_output@.len() == 0,
            r@.setup is None,
            r@.pool.len() == 0,
            r@.status == Process::Done,
            r@.latency == 0,
            !r@.processing,
            r@.skipped_resets == 0,
    {
        PluginState {
            audio_layout: FittedLayout::new(AudioLayout::new()),
            buffer_layout: None,
            buffers: Buffers::new(),
            status: Process::Done,
            latency: 0,
            processing: false,
            skipped_resets: 0,
        }
    }

    /// Get the negotiated layout.
    pub fn audio_layout(&self) -> (r: &AudioLayout)
        ensures
            *r == self@.layout,
    {
        self.audio_layout.get()
    }

    /// Replace the layout.
    pub fn set_audio_layout(&mut self, layout: AudioLayout)
        requires
            layout.wf(),
        ensures
            final(self)@ == (StateModel { layout, ..old(self)@ }),
    {
        self.audio_layout = FittedLayout::new(layout);
    }

    /// Get the host's processing setup, if given.
    pub fn buffer_layout(&self) -> (r: &Option<S>)
        ensures
            *r == self@.setup,
    {
        &self.buffer_layout
    }

    /// Store the host's processing setup.
    pub fn set_buffer_layout(&mut self, setup: Option<S>)
        ensures
            final(self)@ == (StateModel { setup, ..old(self)@ }),
    {
        self.buffer_layout = setup;
    }

    /// Get the status of the last process call.
    pub fn status(&self) -> (r: Process)
        ensures
            r == self@.status,
    {
        self.status
    }

    /// Store a process status.
    pub fn set_status(&mut self, status: Process)
        ensures
            final(self)@ == (StateModel { status, ..old(self)@ }),
    {
        self.status = status;
    }

    /// Get the reported latency.
    pub fn latency(&self) -> (r: u32)
        ensures
            r == self@.latency,
    {
        self.latency
    }

    /// Store the latency.
    pub fn set_latency(&mut self, latency: u32)
        ensures
            final(self)@ == (StateModel { latency, ..old(self)@ }),
    {
        self.latency = latency;
    }

    /// Whether processing is switched on.
    pub fn processing(&self) -> (r: bool)
        ensures
            r == self@.processing,
    {
        self.processing
    }

    /// Store the processing flag.
    pub fn set_processing(&mut self, processing: bool)
        ensures
            final(self)@ == (StateModel { processing, ..old(self)@ }),
    {
        self.processing = processing;
    }

    /// How many resets were skipped because the plugin was busy.
    pub fn skipped_resets(&self) -> (r: u64)
        ensures
            r == self@.skipped_resets,
    {
        self.skipped_resets
    }

    /// Size the buffer pool for `layout`.
    pub fn allocate_buffers(&mut self, layout: &AudioLayout)
        requires
            layout.wf(),
        ensures
            final(self)@ == (StateModel { pool: allocated(old(self)@.pool, *layout), ..old(self)@ }),
    {
        self.buffers.allocate(layout);
    }

    /// Take the layout the plugin accepted for a host proposal, if it
    /// accepted one. A refusal, or a layout with more busses than hosts can
    /// index, leaves the state as it was.
    pub fn negotiate(&mut self, accepted: Option<AudioLayout>) -> (r: bool)
        ensures
            r == (accepted matches Some(l) && l.wf()),
            r ==> final(self)@ == (StateModel { layout: accepted->Some_0, ..old(self)@ }),
            !r ==> final(self)@ == old(self)@,
    {
        match accepted {
            Some(layout) => {
                if layout.aux_input.len() < u32::MAX as usize && layout.aux_output.len()
                    < u32::MAX as usize {
                    self.audio_layout = FittedLayout::new(layout);
                    true
                } else {
                    false
                }
            },
            None => false,
        }
    }

    /// Switch activation. Activating needs the setup: the pool is then sized
    /// for the layout. Activating before setup is refused and changes
    /// nothing; deactivating changes nothing here and keeps the pool.
    pub fn set_active(&mut self, active: bool) -> (r: ActiveStep)
        ensures
            !active ==> r == ActiveStep::Deactivate && final(self)@ == old(self)@,
            active && old(self)@.setup is None ==> r == ActiveStep::Reject && final(self)@
                == old(self)@,
            active && old(self)@.setup is Some ==> r == ActiveStep::Activate && final(self)@ == (
            StateModel { pool: allocated(old(self)@.pool, old(self)@.layout), ..old(self)@ }),
    {
        if !active {
            return ActiveStep::Deactivate;
        }
        if self.buffer_layout.is_some() {
            self.buffers.allocate(self.audio_layout.get());
            ActiveStep::Activate
        } else {
            ActiveStep::Reject
        }
    }

    /// Record what the plugin's activation hook reported.
    pub fn activated(&mut self, config: &Activate)
        ensures
            final(self)@ == (StateModel { latency: config.latency, ..old(self)@ }),
    {
        self.latency = config.latency;
    }

    /// Switch processing on or off; returns whether the plugin should now be
    /// reset. The stored status stays until the next process call replaces it.
    pub fn start_processing(&mut self, processing: bool) -> (reset: bool)
        ensures
            reset == processing,
            final(self)@ == (StateModel { processing, ..old(self)@ }),
    {
        self.processing = processing;
        processing
    }

    /// Count a reset that was skipped because the plugin was busy.
    pub fn note_reset_skipped(&mut self)
        ensures
            final(self)@ == (StateModel {
                skipped_resets: if old(self)@.skipped_resets < u64::MAX {
                    (old(self)@.skipped_resets + 1) as u64
                } else {
                    u64::MAX
                },
                ..old(self)@
            }),
    {
        if self.skipped_resets < u64::MAX {
            self.skipped_resets = self.skipped_resets + 1;
        }
    }

    /// Decide what a process call is: refused before setup, a parameter
    /// flush when there are no samples or no outputs, else a real call.
    pub fn process_step(&self, num_samples: i32, num_outputs: i32, outputs_attached: bool) -> (r:
        ProcessStep)
        ensures
            r == step_for(self@.setup is Some, num_samples, num_outputs, outputs_attached),
    {
        if self.buffer_layout.is_none() {
            ProcessStep::NotReady
        } else if num_samples <= 0 || num_outputs <= 0 || !outputs_attached {
            ProcessStep::Flush
        } else {
            ProcessStep::Run(num_samples as usize)
        }
    }

    /// Set the pool's views up for a callback of `samples` samples and route
    /// them onto the host's busses, given each host bus's channel count; the
    /// copies to make before processing replace the contents of `copies`.
    /// Returns false, changing nothing, when the pool is not sized for the
    /// layout (no activation since the layout changed). Allocates nothing but
    /// what `copies` may need to grow.
    pub fn route(
        &mut self,
        samples: usize,
        host_inputs: &[i32],
        host_outputs: &[i32],
        copies: &mut Vec<ChannelCopy>,
    ) -> (r: bool)
        ensures
            r == (old(self)@.pool.len() == old(self)@.layout.buffer_count()),
            !r ==> final(self)@ == old(self)@ && final(copies)@ == old(copies)@,
            r ==> final(self)@ == (StateModel {
                pool: routed_pool(
                    old(self)@.pool,
                    old(self)@.layout,
                    samples as nat,
                    host_inputs@,
                    host_outputs@,
                ),
                ..old(self)@
            }),
            r ==> final(copies)@ == routed_copies(
                old(self)@.layout,
                with_samples(old(self)@.pool, samples as nat),
                host_inputs@,
                host_outputs@,
                old(self)@.pool.len(),
            ),
    {
        let layout = self.audio_layout.get();
        if self.buffers.len() != layout.buffers() {
            return false;
        }
        copies.clear();
        self.buffers.route(layout, samples, host_inputs, host_outputs, copies);
        assert(copies@ =~= routed_copies(
            old(self)@.layout,
            with_samples(old(self)@.pool, samples as nat),
            host_inputs@,
            host_outputs@,
            old(self)@.pool.len(),
        ));
        true
    }

    /// The pool's views, one per logical buffer: the main buffer's first when
    /// the layout has a main bus, then the auxiliary buffers' in order.
    pub fn buffer_views(&self) -> (r: &Vec<BufferView>)
        ensures
            r@.len() == self@.pool.len(),
            forall|i: int| 0 <= i < r@.len() ==> #[trigger] r@[i]@ == self@.pool[i],
    {
        self.buffers.views()
    }

    /// Record the status a process call returned.
    pub fn finish_process(&mut self, status: Process)
        ensures
            final(self)@ == (StateModel { status, ..old(self)@ }),
    {
        self.status = status;
    }

    /// The remaining tail length to report to the host.
    pub fn tail_samples(&self) -> (r: u32)
        ensures
            r == self@.status.tail(),
    {
        self.status.tail_samples()
    }
}

} // verus!
