use ori_vst::{AudioLayout, AudioPort, BusDirection};

fn stereo_with_sidechain() -> AudioLayout {
    AudioLayout::new()
        .with_input(AudioPort::new(2))
        .with_output(AudioPort::new(2))
        .with_aux_input(AudioPort::new(1))
}

#[test]
fn new_layout_is_empty() {
    let layout = AudioLayout::new();
    assert!(layout.input.is_none());
    assert!(layout.output.is_none());
    assert!(layout.aux_input.is_empty());
    assert!(layout.aux_output.is_empty());
    assert!(!layout.has_main_buffer());
    assert_eq!(layout.buffers(), 0);
    assert_eq!(layout.input_busses(), 0);
    assert_eq!(layout.output_busses(), 0);
}

#[test]
fn buffer_count_pairs_aux_busses() {
    let layout = AudioLayout::new()
        .with_input(AudioPort::new(2))
        .with_aux_input(AudioPort::new(1))
        .with_aux_input(AudioPort::new(1))
        .with_aux_output(AudioPort::new(4));
    assert_eq!(layout.aux_buffers(), 2);
    assert_eq!(layout.buffers(), 3);
    assert!(layout.has_main_buffer());
}

#[test]
fn buffer_count_without_main() {
    let layout = AudioLayout::new()
        .with_aux_output(AudioPort::new(2))
        .with_aux_output(AudioPort::new(2))
        .with_aux_output(AudioPort::new(2));
    assert_eq!(layout.buffers(), 3);
    assert!(!layout.has_main_buffer());
}

#[test]
fn bus_counts_and_channels() {
    let layout = stereo_with_sidechain();
    assert_eq!(layout.input_busses(), 2);
    assert_eq!(layout.output_busses(), 1);
    assert_eq!(layout.input_channels(), 2);
    assert_eq!(layout.output_channels(), 2);
    assert_eq!(AudioLayout::new().input_channels(), 0);
}

#[test]
fn aux_only_input_is_bus_zero() {
    let layout = AudioLayout::new().with_aux_input(AudioPort::new(3));
    let port = layout.input_port(0).unwrap();
    assert_eq!(port.channels, 3);
    assert!(!layout.is_input_main(0));
    assert!(layout.input_port(1).is_none());
}

#[test]
fn main_then_aux_ports() {
    let layout = stereo_with_sidechain();
    assert_eq!(layout.input_port(0).unwrap().channels, 2);
    assert!(layout.is_input_main(0));
    assert_eq!(layout.input_port(1).unwrap().channels, 1);
    assert!(!layout.is_input_main(1));
    assert!(layout.input_port(2).is_none());
    assert!(layout.output_port(0).is_some());
    assert!(layout.is_output_main(0));
    assert!(layout.output_port(1).is_none());
}

#[test]
fn default_names() {
    let layout = stereo_with_sidechain();
    assert_eq!(layout.input_name(0), "Input");
    assert_eq!(layout.input_name(1), "Sidechain Input 0");
    assert_eq!(layout.output_name(0), "Output");
}

#[test]
fn explicit_names_win() {
    let layout = AudioLayout::new()
        .with_input(AudioPort::named(2, "Main In"))
        .with_aux_output(AudioPort::named(2, "Send"));
    assert_eq!(layout.input_name(0), "Main In");
    assert_eq!(layout.output_name(0), "Send");
}

#[test]
fn aux_output_names_count_from_zero_without_main() {
    let layout = AudioLayout::new()
        .with_aux_output(AudioPort::new(2))
        .with_aux_output(AudioPort::new(2));
    assert_eq!(layout.output_name(0), "Aux Output 0");
    assert_eq!(layout.output_name(1), "Aux Output 1");
}

#[test]
fn out_of_range_names_use_the_bus_index() {
    let layout = stereo_with_sidechain();
    assert_eq!(layout.input_name(7), "Sidechain Input 7");
    assert_eq!(layout.output_name(12), "Aux Output 12");
}

#[test]
fn port_constructors() {
    let p = AudioPort::new(6);
    assert_eq!(p.channels, 6);
    assert!(p.name.is_none());
    let q = AudioPort::named(1, "Key");
    assert_eq!(q.channels, 1);
    assert_eq!(q.name.as_deref(), Some("Key"));
}

#[test]
fn bus_info_describes_ports() {
    let layout = stereo_with_sidechain();
    assert_eq!(layout.bus_count(BusDirection::Input), 2);
    assert_eq!(layout.bus_count(BusDirection::Output), 1);
    let main = layout.bus_info(BusDirection::Input, 0).unwrap();
    assert!(main.main);
    assert_eq!(main.channels, 2);
    assert_eq!(main.name, "Input");
    let side = layout.bus_info(BusDirection::Input, 1).unwrap();
    assert!(!side.main);
    assert_eq!(side.channels, 1);
    assert_eq!(side.name, "Sidechain Input 0");
    assert!(layout.bus_info(BusDirection::Output, 1).is_none());
    assert_eq!(layout.bus_info(BusDirection::Output, 0).unwrap().name, "Output");
}

#[test]
fn only_main_busses_route_through() {
    let layout = stereo_with_sidechain();
    assert!(layout.routes_through(0));
    assert!(!layout.routes_through(1));
    let no_out = AudioLayout::new().with_input(AudioPort::new(2));
    assert!(!no_out.routes_through(0));
}
