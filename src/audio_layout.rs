use vstd::prelude::*;

verus! {

use crate::text::{decimal, decimal_string};

/// The layout of an audio port.
#[derive(Clone, Debug)]
pub struct AudioPort {
    /// The number of channels.
    pub channels: u32,
    /// The name of the port.
    pub name: Option<String>,
}

impl AudioPort {
    /// Create a new unnamed audio port.
    pub fn new(channels: u32) -> (r: AudioPort)
        ensures
            r.channels == channels,
            r.name is None,
    {
        AudioPort { channels, name: None }
    }

    /// Create a new named audio port.
    pub fn named(channels: u32, name: &str) -> (r: AudioPort)
        ensures
            r.channels == channels,
            r.name matches Some(n) && n@ == name@,
    {
        AudioPort { channels, name: Some(String::from_str(name)) }
    }
}

/// The direction of a bus.
#[derive(Clone, Copy, Debug, PartialEq, Eq, Structural)]
pub enum BusDirection {
    Input,
    Output,
}

/// What a host is told about one bus.
pub struct BusInfo {
    /// Whether the bus is the main bus of its direction.
    pub main: bool,
    /// The number of channels.
    pub channels: u32,
    /// The name of the bus.
    pub name: String,
}

/// The layout of the audio ports.
#[derive(Clone, Debug)]
pub struct AudioLayout {
    /// The main input port.
    pub input: Option<AudioPort>,
    /// The main output port.
    pub output: Option<AudioPort>,
    /// The auxiliary input ports.
    pub aux_input: Vec<AudioPort>,
    /// The auxiliary output ports.
    pub aux_output: Vec<AudioPort>,
}

/// The port at bus `index` of one direction: the main port, if present, is
/// at index 0 and the auxiliary ports follow.
pub open spec fn port_at(main: Option<AudioPort>, aux: Seq<AudioPort>, index: nat) -> Option<
    AudioPort,
> {
    if main is Some {
        if index == 0 {
            main
        } else if index - 1 < aux.len() {
            Some(aux[index - 1])
        } else {
            None
        }
    } else if index < aux.len() {
        Some(aux[index as int])
    } else {
        None
    }
}

/// A looked-up reference agrees with the port that the layout holds there.
pub open spec fn found_as(r: Option<&AudioPort>, port: Option<AudioPort>) -> bool {
    match r {
        Some(p) => port == Some(*p),
        None => port is None,
    }
}

/// The position among the auxiliary ports of bus `index`.
pub open spec fn aux_position(main: Option<AudioPort>, index: nat) -> nat {
    if main is Some && index > 0 {
        (index - 1) as nat
    } else {
        index
    }
}

/// The name reported for bus `index` of one direction.
pub open spec fn port_name(
    main: Option<AudioPort>,
    aux: Seq<AudioPort>,
    index: nat,
    main_label: Seq<char>,
    aux_label: Seq<char>,
) -> Seq<char> {
    match port_at(main, aux, index) {
        None => aux_label + decimal(index),
        Some(port) => match port.name {
            Some(name) => name@,
            None => if index == 0 && main is Some {
                main_label
            } else {
                aux_label + decimal(aux_position(main, index))
            },
        },
    }
}

impl AudioLayout {
    /// Whether a main bus exists on either side.
    pub open spec fn has_main(self) -> bool {
        self.input is Some || self.output is Some
    }

    /// The number of paired auxiliary buffers.
    pub open spec fn aux_count(self) -> nat {
        if self.aux_input@.len() >= self.aux_output@.len() {
            self.aux_input@.len()
        } else {
            self.aux_output@.len()
        }
    }

    /// The number of logical buffers: the paired auxiliary buffers and the main one.
    pub open spec fn buffer_count(self) -> nat {
        self.aux_count() + if self.has_main() {
            1nat
        } else {
            0nat
        }
    }

    pub open spec fn input_bus_count(self) -> nat {
        self.aux_input@.len() + if self.input is Some {
            1nat
        } else {
            0nat
        }
    }

    pub open spec fn output_bus_count(self) -> nat {
        self.aux_output@.len() + if self.output is Some {
            1nat
        } else {
            0nat
        }
    }

    /// Bus counts fit the `u32` indices that hosts use.
    pub open spec fn wf(self) -> bool {
        self.aux_input@.len() < u32::MAX && self.aux_output@.len() < u32::MAX
    }

    pub open spec fn input_at(self, index: nat) -> Option<AudioPort> {
        port_at(self.input, self.aux_input@, index)
    }

    pub open spec fn output_at(self, index: nat) -> Option<AudioPort> {
        port_at(self.output, self.aux_output@, index)
    }

    pub open spec fn input_label(self, index: nat) -> Seq<char> {
        port_name(self.input, self.aux_input@, index, "Input"@, "Sidechain Input "@)
    }

    pub open spec fn output_label(self, index: nat) -> Seq<char> {
        port_name(self.output, self.aux_output@, index, "Output"@, "Aux Output "@)
    }

    /// Create a new audio layout with no ports.
    pub fn new() -> (r: AudioLayout)
        ensures
            r.input is None,
            r.output is None,
            r.aux_input@.len() == 0,
            r.aux_output@.len() == 0,
    {
        AudioLayout { input: None, output: None, aux_input: Vec::new(), aux_output: Vec::new() }
    }

    /// Set the main input port.
    pub fn with_input(self, input: AudioPort) -> (r: AudioLayout)
        ensures
            r == (AudioLayout { input: Some(input), ..self }),
    {
        let mut layout = self;
        layout.input = Some(input);
        layout
    }

    /// Set the main output port.
    pub fn with_output(self, output: AudioPort) -> (r: AudioLayout)
        ensures
            r == (AudioLayout { output: Some(output), ..self }),
    {
        let mut layout = self;
        layout.output = Some(output);
        layout
    }

    /// Add an auxiliary input port.
    pub fn with_aux_input(self, aux_input: AudioPort) -> (r: AudioLayout)
        ensures
            r.input == self.input,
            r.output == self.output,
            r.aux_input@ == self.aux_input@.push(aux_input),
            r.aux_output@ == self.aux_output@,
    {
        let mut layout = self;
        layout.aux_input.push(aux_input);
        layout
    }

    /// Add an auxiliary output port.
    pub fn with_aux_output(self, aux_output: AudioPort) -> (r: AudioLayout)
        ensures
            r.input == self.input,
            r.output == self.output,
            r.aux_input@ == self.aux_input@,
            r.aux_output@ == self.aux_output@.push(aux_output),
    {
        let mut layout = self;
        layout.aux_output.push(aux_output);
        layout
    }

    /// Check if the layout has a main buffer.
    pub fn has_main_buffer(&self) -> (r: bool)
        ensures
            r == self.has_main(),
    {
        self.input.is_some() || self.output.is_some()
    }

    /// Get the number of auxiliary buffers.
    pub fn aux_buffers(&self) -> (r: usize)
        ensures
            r == self.aux_count(),
    {
        if self.aux_input.len() >= self.aux_output.len() {
            self.aux_input.len()
        } else {
            self.aux_output.len()
        }
    }

    /// Get the number of logical buffers.
    pub fn buffers(&self) -> (r: usize)
        requires
            self.wf(),
        ensures
            r == self.buffer_count(),
    {
        let aux = self.aux_buffers();
        if self.has_main_buffer() {
            aux + 1
        } else {
            aux
        }
    }

    /// Get the number of channels of the main input.
    pub fn input_channels(&self) -> (r: u32)
        ensures
            r == (match self.input {
                Some(port) => port.channels,
                None => 0,
            }),
    {
        match &self.input {
            Some(port) => port.channels,
            None => 0,
        }
    }

    /// Get the number of channels of the main output.
    pub fn output_channels(&self) -> (r: u32)
        ensures
            r == (match self.output {
                Some(port) => port.channels,
                None => 0,
            }),
    {
        match &self.output {
            Some(port) => port.channels,
            None => 0,
        }
    }

    /// Get the number of input busses.
    pub fn input_busses(&self) -> (r: u32)
        requires
            self.wf(),
        ensures
            r == self.input_bus_count(),
    {
        let main: u32 = if self.input.is_some() {
            1
        } else {
            0
        };
        main + self.aux_input.len() as u32
    }

    /// Get the number of output busses.
    pub fn output_busses(&self) -> (r: u32)
        requires
            self.wf(),
        ensures
            r == self.output_bus_count(),
    {
        let main: u32 = if self.output.is_some() {
            1
        } else {
            0
        };
        main + self.aux_output.len() as u32
    }

    /// Get the input port at the given index.
    ///
    /// The main input port, if present, is at index 0. The auxiliary input ports follow.
    pub fn input_port(&self, index: u32) -> (r: Option<&AudioPort>)
        ensures
            found_as(r, self.input_at(index as nat)),
    {
        lookup_port(&self.input, &self.aux_input, index)
    }

    /// Get the output port at the given index.
    ///
    /// The main output port, if present, is at index 0. The auxiliary output ports follow.
    pub fn output_port(&self, index: u32) -> (r: Option<&AudioPort>)
        ensures
            found_as(r, self.output_at(index as nat)),
    {
        lookup_port(&self.output, &self.aux_output, index)
    }

    /// Check if the input at the given index is the main input.
    pub fn is_input_main(&self, index: u32) -> (r: bool)
        ensures
            r == (index == 0 && self.input is Some),
    {
        index == 0 && self.input.is_some()
    }

    /// Check if the output at the given index is the main output.
    pub fn is_output_main(&self, index: u32) -> (r: bool)
        ensures
            r == (index == 0 && self.output is Some),
    {
        index == 0 && self.output.is_some()
    }

    /// Get the name of the input at the given index.
    pub fn input_name(&self, index: u32) -> (r: String)
        ensures
            r@ == self.input_label(index as nat),
    {
        name_port(&self.input, &self.aux_input, index, "Input", "Sidechain Input ")
    }

    /// The number of busses of a direction.
    pub fn bus_count(&self, direction: BusDirection) -> (r: u32)
        requires
            self.wf(),
        ensures
            r == match direction {
                BusDirection::Input => self.input_bus_count(),
                BusDirection::Output => self.output_bus_count(),
            },
    {
        match direction {
            BusDirection::Input => self.input_busses(),
            BusDirection::Output => self.output_busses(),
        }
    }

    /// Describe bus `index` of a direction: whether it is the main bus, its
    /// channels and its name; `None` when there is no such bus.
    pub fn bus_info(&self, direction: BusDirection, index: u32) -> (r: Option<BusInfo>)
        ensures
            ({
                let (port, main, label) = match direction {
                    BusDirection::Input => (
                        self.input_at(index as nat),
                        index == 0 && self.input is Some,
                        self.input_label(index as nat),
                    ),
                    BusDirection::Output => (
                        self.output_at(index as nat),
                        index == 0 && self.output is Some,
                        self.output_label(index as nat),
                    ),
                };
                match r {
                    None => port is None,
                    Some(info) => port matches Some(p) && info.channels == p.channels && info.main
                        == main && info.name@ == label,
                }
            }),
    {
        match direction {
            BusDirection::Input => match self.input_port(index) {
                Some(port) => Some(
                    BusInfo {
                        main: self.is_input_main(index),
                        channels: port.channels,
                        name: self.input_name(index),
                    },
                ),
                None => None,
            },
            BusDirection::Output => match self.output_port(index) {
                Some(port) => Some(
                    BusInfo {
                        main: self.is_output_main(index),
                        channels: port.channels,
                        name: self.output_name(index),
                    },
                ),
                None => None,
            },
        }
    }

    /// Whether channels of input bus `index` pass straight through to the
    /// same channels of output bus `index`: only the main busses do, and
    /// only when the layout has both.
    pub fn routes_through(&self, index: u32) -> (r: bool)
        ensures
            r == (index == 0 && self.input is Some && self.output is Some),
    {
        index == 0 && self.input.is_some() && self.output.is_some()
    }

    /// Get the name of the output at the given index.
    pub fn output_name(&self, index: u32) -> (r: String)
        ensures
            r@ == self.output_label(index as nat),
    {
        name_port(&self.output, &self.aux_output, index, "Output", "Aux Output ")
    }
}

fn lookup_port<'a>(main: &'a Option<AudioPort>, aux: &'a Vec<AudioPort>, index: u32) -> (r: Option<
    &'a AudioPort,
>)
    ensures
        found_as(r, port_at(*main, aux@, index as nat)),
{
    if index == 0 && main.is_some() {
        return main.as_ref();
    }
    let position = if main.is_some() {
        index - 1
    } else {
        index
    } as usize;
    if position < aux.len() {
        Some(&aux[position])
    } else {
        None
    }
}

fn name_port(
    main: &Option<AudioPort>,
    aux: &Vec<AudioPort>,
    index: u32,
    main_label: &str,
    aux_label: &str,
) -> (r: String)
    ensures
        r@ == port_name(*main, aux@, index as nat, main_label@, aux_label@),
{
    let port = lookup_port(main, aux, index);
    match port {
        None => String::from_str(aux_label).concat(decimal_string(index).as_str()),
        Some(port) => match &port.name {
            Some(name) => name.clone(),
            None => if index == 0 && main.is_some() {
                String::from_str(main_label)
            } else {
                let position = if main.is_some() {
                    index - 1
                } else {
                    index
                };
                String::from_str(aux_label).concat(decimal_string(position).as_str())
            },
        },
    }
}

} // verus!
