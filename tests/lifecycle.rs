use ori_vst::{
    Activate, ActiveStep, AudioLayout, AudioPort, PluginState, Process, ProcessStep,
};

fn stereo() -> AudioLayout {
    AudioLayout::new()
        .with_input(AudioPort::new(2))
        .with_output(AudioPort::new(2))
}

#[test]
fn fresh_state() {
    let state: PluginState<u32> = PluginState::new();
    assert!(state.buffer_layout().is_none());
    assert_eq!(state.status(), Process::Done);
    assert_eq!(state.latency(), 0);
    assert!(!state.processing());
    assert_eq!(state.tail_samples(), 0);
    assert_eq!(state.audio_layout().buffers(), 0);
}

#[test]
fn tail_mapping() {
    assert_eq!(Process::Done.tail_samples(), 0);
    assert_eq!(Process::Tail(37).tail_samples(), 37);
    assert_eq!(Process::KeepAlive.tail_samples(), u32::MAX);
    let mut state: PluginState<()> = PluginState::new();
    state.finish_process(Process::Tail(37));
    assert_eq!(state.tail_samples(), 37);
    state.finish_process(Process::KeepAlive);
    assert_eq!(state.tail_samples(), u32::MAX);
    state.finish_process(Process::Done);
    assert_eq!(state.tail_samples(), 0);
}

#[test]
fn activate_before_setup_is_rejected() {
    let mut state: PluginState<()> = PluginState::new();
    assert!(state.negotiate(Some(stereo())));
    assert_eq!(state.set_active(true), ActiveStep::Reject);
    let mut copies = Vec::new();
    assert!(!state.route(4, &[2], &[2], &mut copies));
    assert_eq!(state.latency(), 0);
}

#[test]
fn activate_after_setup_sizes_pool() {
    let mut state: PluginState<u32> = PluginState::new();
    assert!(state.negotiate(Some(stereo())));
    state.set_buffer_layout(Some(512));
    assert_eq!(state.buffer_layout(), &Some(512));
    assert_eq!(state.set_active(true), ActiveStep::Activate);
    state.activated(&Activate::new().with_latency(64));
    assert_eq!(state.latency(), 64);
    let mut copies = Vec::new();
    assert!(state.route(4, &[2], &[2], &mut copies));
    assert_eq!(state.buffer_views()[0].channels(), 2);
}

#[test]
fn deactivate_keeps_pool() {
    let mut state: PluginState<()> = PluginState::new();
    assert!(state.negotiate(Some(stereo())));
    state.set_buffer_layout(Some(()));
    assert_eq!(state.set_active(true), ActiveStep::Activate);
    assert_eq!(state.set_active(false), ActiveStep::Deactivate);
    let mut copies = Vec::new();
    assert!(state.route(4, &[2], &[2], &mut copies));
}

#[test]
fn rejected_negotiation_keeps_layout() {
    let mut state: PluginState<()> = PluginState::new();
    assert!(state.negotiate(Some(stereo())));
    assert!(!state.negotiate(None));
    assert_eq!(state.audio_layout().input_channels(), 2);
}

#[test]
fn zero_samples_is_a_flush() {
    let mut state: PluginState<()> = PluginState::new();
    state.set_buffer_layout(Some(()));
    state.finish_process(Process::Tail(5));
    assert_eq!(state.process_step(0, 1, true), ProcessStep::Flush);
    assert_eq!(state.status(), Process::Tail(5));
    assert_eq!(state.process_step(64, 0, true), ProcessStep::Flush);
    assert_eq!(state.process_step(64, 1, false), ProcessStep::Flush);
    assert_eq!(state.process_step(64, 1, true), ProcessStep::Run(64));
}

#[test]
fn process_before_setup_is_not_ready() {
    let state: PluginState<()> = PluginState::new();
    assert_eq!(state.process_step(64, 1, true), ProcessStep::NotReady);
    assert_eq!(state.process_step(0, 1, true), ProcessStep::NotReady);
}

#[test]
fn start_processing_keeps_status() {
    let mut state: PluginState<()> = PluginState::new();
    state.finish_process(Process::Tail(37));
    assert!(state.start_processing(true));
    assert!(state.processing());
    assert_eq!(state.status(), Process::Tail(37));
    assert_eq!(state.tail_samples(), 37);
    assert!(!state.start_processing(false));
    assert!(!state.processing());
    assert_eq!(state.status(), Process::Tail(37));
}

#[test]
fn skipped_resets_are_counted() {
    let mut state: PluginState<()> = PluginState::new();
    state.note_reset_skipped();
    state.note_reset_skipped();
    assert_eq!(state.skipped_resets(), 2);
}

#[test]
fn setters_store_values() {
    let mut state: PluginState<()> = PluginState::new();
    state.set_latency(12);
    state.set_status(Process::Tail(3));
    state.set_processing(true);
    state.set_audio_layout(stereo());
    state.allocate_buffers(&stereo());
    assert_eq!(state.latency(), 12);
    assert_eq!(state.status(), Process::Tail(3));
    assert!(state.processing());
    assert_eq!(state.audio_layout().output_channels(), 2);
}

#[test]
fn activate_defaults() {
    assert_eq!(Activate::new().latency, 0);
    assert_eq!(Activate::default().latency, 0);
    assert_eq!(Activate::new().with_latency(9).latency, 9);
}
