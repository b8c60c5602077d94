use ori_vst::{
    ActiveStep, AudioLayout, AudioPort, BufferView, Buffers, ChannelCopy, ChannelSource,
    PluginState,
};

type Bus = Vec<Vec<f32>>;

fn active_state(layout: AudioLayout) -> PluginState<()> {
    let mut state = PluginState::new();
    assert!(state.negotiate(Some(layout)));
    state.set_buffer_layout(Some(()));
    assert_eq!(state.set_active(true), ActiveStep::Activate);
    state
}

fn apply_copies(copies: &[ChannelCopy], inputs: &[Bus], outputs: &mut [Bus]) {
    for c in copies {
        outputs[c.output_bus][c.channel] = inputs[c.input_bus][c.channel].clone();
    }
}

fn channel_mut<'a>(
    view: &BufferView,
    index: usize,
    inputs: &'a mut [Bus],
    outputs: &'a mut [Bus],
) -> &'a mut Vec<f32> {
    match view.source(index) {
        ChannelSource::Input { bus, channel } => &mut inputs[bus][channel],
        ChannelSource::Output { bus, channel } => &mut outputs[bus][channel],
        ChannelSource::Empty => panic!("channel {} is not bound", index),
    }
}

#[test]
fn stereo_in_place_aliasing() {
    let layout = AudioLayout::new()
        .with_input(AudioPort::new(2))
        .with_output(AudioPort::new(2));
    let state = active_state(layout);
    let mut inputs = vec![vec![vec![1.0, 2.0, 3.0], vec![4.0, 5.0, 6.0]]];
    let mut outputs = vec![vec![vec![0.0; 3], vec![0.0; 3]]];
    let mut state = state;
    let mut copies = Vec::new();
    assert!(state.route(3, &[2], &[2], &mut copies));
    assert_eq!(copies.len(), 2);
    apply_copies(&copies, &inputs, &mut outputs);
    let main = &state.buffer_views()[0];
    assert_eq!(main.samples(), 3);
    assert_eq!(main.channels(), 2);
    assert_eq!(main.source(0), ChannelSource::Output { bus: 0, channel: 0 });
    assert_eq!(main.source(1), ChannelSource::Output { bus: 0, channel: 1 });
    let ch0 = channel_mut(main, 0, &mut inputs, &mut outputs);
    assert_eq!(*ch0, vec![1.0, 2.0, 3.0]);
    ch0[1] = 9.0;
    assert_eq!(outputs[0][0], vec![1.0, 9.0, 3.0]);
    assert_eq!(inputs[0][0], vec![1.0, 2.0, 3.0]);
}

#[test]
fn mono_in_stereo_out_aliasing() {
    let layout = AudioLayout::new()
        .with_input(AudioPort::new(1))
        .with_output(AudioPort::new(2));
    let state = active_state(layout);
    let inputs = vec![vec![vec![0.5, 0.25]]];
    let mut outputs = vec![vec![vec![7.0, 7.0], vec![8.0, 8.0]]];
    let mut state = state;
    let mut copies = Vec::new();
    assert!(state.route(2, &[1], &[2], &mut copies));
    assert_eq!(copies.len(), 1);
    assert_eq!(copies[0].channel, 0);
    apply_copies(&copies, &inputs, &mut outputs);
    let main = &state.buffer_views()[0];
    assert_eq!(main.source(0), ChannelSource::Output { bus: 0, channel: 0 });
    assert_eq!(main.source(1), ChannelSource::Output { bus: 0, channel: 1 });
    assert_eq!(outputs[0][0], vec![0.5, 0.25]);
    assert_eq!(outputs[0][1], vec![8.0, 8.0]);
}

#[test]
fn stereo_in_mono_out_reads_extra_input() {
    let layout = AudioLayout::new()
        .with_input(AudioPort::new(2))
        .with_output(AudioPort::new(1));
    let state = active_state(layout);
    let mut state = state;
    let mut copies = Vec::new();
    assert!(state.route(4, &[2], &[1], &mut copies));
    assert_eq!(copies.len(), 1);
    let main = &state.buffer_views()[0];
    assert_eq!(main.source(0), ChannelSource::Output { bus: 0, channel: 0 });
    assert_eq!(main.source(1), ChannelSource::Input { bus: 0, channel: 1 });
}

#[test]
fn aux_buffers_follow_main() {
    let layout = AudioLayout::new()
        .with_input(AudioPort::new(2))
        .with_output(AudioPort::new(2))
        .with_aux_input(AudioPort::new(1));
    let state = active_state(layout);
    let mut state = state;
    let mut copies = Vec::new();
    assert!(state.route(8, &[2, 1], &[2], &mut copies));
    assert_eq!(state.buffer_views().len(), 2);
    let side = &state.buffer_views()[1];
    assert_eq!(side.samples(), 8);
    assert_eq!(side.channels(), 1);
    assert_eq!(side.source(0), ChannelSource::Input { bus: 1, channel: 0 });
    assert_eq!(copies.len(), 2);
}

#[test]
fn no_main_bus_gives_empty_main_view() {
    let layout = AudioLayout::new().with_aux_output(AudioPort::new(2));
    let state = active_state(layout);
    let mut state = state;
    let mut copies = vec![ChannelCopy { input_bus: 9, output_bus: 9, channel: 9 }];
    assert!(state.route(4, &[], &[2], &mut copies));
    assert!(!state.audio_layout().has_main_buffer());
    assert_eq!(state.buffer_views().len(), 1);
    assert_eq!(state.buffer_views()[0].source(1), ChannelSource::Output { bus: 0, channel: 1 });
    assert!(copies.is_empty());
}

#[test]
fn host_channels_beyond_slots_are_ignored() {
    let layout = AudioLayout::new().with_output(AudioPort::new(1));
    let state = active_state(layout);
    let mut state = state;
    let mut copies = Vec::new();
    assert!(state.route(2, &[], &[3], &mut copies));
    assert_eq!(state.buffer_views()[0].channels(), 1);
    assert_eq!(state.buffer_views()[0].source(0), ChannelSource::Output { bus: 0, channel: 0 });
}

#[test]
fn route_needs_a_sized_pool() {
    let mut state: PluginState<()> = PluginState::new();
    state.set_buffer_layout(Some(()));
    assert!(state.negotiate(Some(AudioLayout::new().with_output(AudioPort::new(2)))));
    let mut copies = Vec::new();
    assert!(!state.route(4, &[], &[2], &mut copies));
    assert_eq!(state.set_active(true), ActiveStep::Activate);
    assert!(state.route(4, &[], &[2], &mut copies));
}

#[test]
fn allocate_twice_matches_once() {
    let layout = AudioLayout::new()
        .with_input(AudioPort::new(1))
        .with_output(AudioPort::new(2))
        .with_aux_output(AudioPort::new(6));
    let mut once = Buffers::new();
    once.allocate(&layout);
    let mut twice = Buffers::new();
    twice.allocate(&layout);
    twice.allocate(&layout);
    once.get(16);
    twice.get(16);
    let a = once.views();
    let b = twice.views();
    assert_eq!(a.len(), 2);
    assert_eq!(a.len(), b.len());
    for (x, y) in a.iter().zip(b.iter()) {
        assert_eq!(x.samples(), y.samples());
        assert_eq!(x.channels(), y.channels());
        for i in 0..x.channels() {
            assert_eq!(x.source(i), y.source(i));
        }
    }
    assert_eq!(a[0].channels(), 2);
    assert_eq!(a[1].channels(), 6);
}

#[test]
fn allocate_shrinks_to_new_layout() {
    let mut pool = Buffers::new();
    pool.allocate(&AudioLayout::new().with_output(AudioPort::new(8)).with_aux_output(AudioPort::new(2)));
    pool.allocate(&AudioLayout::new().with_output(AudioPort::new(1)));
    pool.get(4);
    let views = pool.views();
    assert_eq!(views.len(), 1);
    assert_eq!(views[0].samples(), 4);
    assert_eq!(views[0].channels(), 1);
    assert_eq!(views[0].source(0), ChannelSource::Empty);
}

#[test]
fn view_set_channel_and_walk() {
    let mut view = BufferView::new(2, vec![ChannelSource::Empty; 3]);
    view.set_channel(1, ChannelSource::Input { bus: 0, channel: 1 });
    assert_eq!(view.source(1), ChannelSource::Input { bus: 0, channel: 1 });
    assert_eq!(view.source(0), ChannelSource::Empty);
    let mut seen = Vec::new();
    let mut samples = view.iter_samples();
    assert_eq!(samples.remaining(), 2);
    while let Some(mut channels) = samples.next() {
        assert_eq!(channels.remaining(), 3);
        while let Some(c) = channels.next() {
            seen.push((channels.sample_index(), c));
        }
    }
    assert_eq!(seen, vec![(0, 0), (0, 1), (0, 2), (1, 0), (1, 1), (1, 2)]);
    assert_eq!(samples.remaining(), 0);
}

#[test]
fn empty_view_has_nothing_to_walk() {
    let view = BufferView::empty();
    assert_eq!(view.samples(), 0);
    assert_eq!(view.channels(), 0);
    assert!(view.iter_samples().next().is_none());
}

#[test]
fn unsupplied_channels_alias_nothing() {
    let layout = AudioLayout::new()
        .with_input(AudioPort::new(2))
        .with_output(AudioPort::new(2));
    let mut state = active_state(layout);
    let mut copies = Vec::new();
    assert!(state.route(4, &[2], &[2], &mut copies));
    assert_eq!(state.buffer_views()[0].source(1), ChannelSource::Output { bus: 0, channel: 1 });
    assert!(state.route(4, &[1], &[1], &mut copies));
    assert_eq!(copies.len(), 1);
    assert_eq!(state.buffer_views()[0].source(1), ChannelSource::Empty);
}
