use vstd::prelude::*;

verus! {

use crate::audio_layout::AudioLayout;
use crate::buffer::{BufferModel, BufferView, ChannelSource};

/// One host bus handed to a callback: its position among the host's busses
/// of its direction, and the number of channels the host supplies on it.
#[derive(Clone, Copy, Debug, PartialEq, Eq, Structural)]
pub struct HostBus {
    pub index: usize,
    pub channels: i32,
}

/// A copy of one channel of a host input bus into the same channel of a host
/// output bus, made before the plugin processes in place.
#[derive(Clone, Copy, Debug, PartialEq, Eq, Structural)]
pub struct ChannelCopy {
    pub input_bus: usize,
    pub output_bus: usize,
    pub channel: usize,
}

/// The host supplies channel `i` on `bus`.
pub open spec fn has_channel(bus: HostBus, i: nat) -> bool {
    (i as int) < (bus.channels as int)
}

/// Where channel slot `i` of a buffer points once routed onto the given host
/// busses. A channel on both sides is processed in place in the output; a
/// channel on one side aliases that side; one on neither aliases nothing.
pub open spec fn routed(input: Option<HostBus>, output: Option<HostBus>, i: nat) -> ChannelSource {
    match output {
        Some(b) if has_channel(b, i) => ChannelSource::Output { bus: b.index, channel: i as usize },
        _ => match input {
            Some(a) if has_channel(a, i) => ChannelSource::Input {
                bus: a.index,
                channel: i as usize,
            },
            _ => ChannelSource::Empty,
        },
    }
}

/// The number of leading slots, out of `slots`, that `bus` supplies.
pub open spec fn span(bus: HostBus, slots: nat) -> nat {
    if bus.channels <= 0 {
        0
    } else if slots <= bus.channels as nat {
        slots
    } else {
        bus.channels as nat
    }
}

/// The number of leading slots, out of `slots`, that both busses supply.
pub open spec fn shared_span(a: HostBus, b: HostBus, slots: nat) -> nat {
    if span(a, slots) <= span(b, slots) {
        span(a, slots)
    } else {
        span(b, slots)
    }
}

/// The copies from input bus `a` to output bus `b` of their first `n` channels.
pub open spec fn channel_copies(a: HostBus, b: HostBus, n: nat) -> Seq<ChannelCopy> {
    Seq::new(n, |i: int| ChannelCopy { input_bus: a.index, output_bus: b.index, channel: i as usize })
}

/// The copies that routing a buffer of `slots` channels asks for: one for
/// each channel that both busses supply, in channel order.
pub open spec fn copies_for(input: Option<HostBus>, output: Option<HostBus>, slots: nat) -> Seq<
    ChannelCopy,
> {
    match (input, output) {
        (Some(a), Some(b)) => channel_copies(a, b, shared_span(a, b, slots)),
        _ => Seq::empty(),
    }
}

/// A buffer view after routing it onto the given host busses.
pub open spec fn routed_view(
    view: BufferModel,
    input: Option<HostBus>,
    output: Option<HostBus>,
) -> BufferModel {
    BufferModel {
        samples: view.samples,
        channels: Seq::new(view.channels.len(), |i: int| routed(input, output, i as nat)),
    }
}

/// Output memory after one copy: the output channel takes the input
/// channel's samples when both exist.
pub open spec fn copy_channel<T>(
    inputs: Seq<Seq<Seq<T>>>,
    outputs: Seq<Seq<Seq<T>>>,
    c: ChannelCopy,
) -> Seq<Seq<Seq<T>>> {
    if c.input_bus < inputs.len() && c.channel < inputs[c.input_bus as int].len() && c.output_bus
        < outputs.len() && c.channel < outputs[c.output_bus as int].len() {
        outputs.update(
            c.output_bus as int,
            outputs[c.output_bus as int].update(
                c.channel as int,
                inputs[c.input_bus as int][c.channel as int],
            ),
        )
    } else {
        outputs
    }
}

/// Output memory, per bus and channel, after making `copies` in order.
pub open spec fn copied<T>(
    inputs: Seq<Seq<Seq<T>>>,
    outputs: Seq<Seq<Seq<T>>>,
    copies: Seq<ChannelCopy>,
) -> Seq<Seq<Seq<T>>>
    decreases copies.len(),
{
    if copies.len() == 0 {
        outputs
    } else {
        copy_channel(inputs, copied(inputs, outputs, copies.drop_last()), copies.last())
    }
}

/// The samples a channel slot reads in the given host memory.
pub open spec fn read<T>(
    inputs: Seq<Seq<Seq<T>>>,
    outputs: Seq<Seq<Seq<T>>>,
    source: ChannelSource,
) -> Option<Seq<T>> {
    match source {
        ChannelSource::Empty => None,
        ChannelSource::Input { bus, channel } => Some(inputs[bus as int][channel as int]),
        ChannelSource::Output { bus, channel } => Some(outputs[bus as int][channel as int]),
    }
}

proof fn lemma_copied_prefix<T>(
    inputs: Seq<Seq<Seq<T>>>,
    outputs: Seq<Seq<Seq<T>>>,
    a: HostBus,
    b: HostBus,
    n: nat,
    m: nat,
)
    requires
        m <= n,
        n <= usize::MAX,
        a.index < inputs.len(),
        b.index < outputs.len(),
        n <= inputs[a.index as int].len(),
        n <= outputs[b.index as int].len(),
    ensures
        ({
            let after = copied(inputs, outputs, channel_copies(a, b, m));
            &&& after.len() == outputs.len()
            &&& forall|x: int| 0 <= x < outputs.len() && x != b.index ==> after[x] == outputs[x]
            &&& after[b.index as int].len() == outputs[b.index as int].len()
            &&& forall|k: int|
                0 <= k < outputs[b.index as int].len() ==> #[trigger] after[b.index as int][k] == if k
                    < m {
                    inputs[a.index as int][k]
                } else {
                    outputs[b.index as int][k]
                }
        }),
    decreases m,
{
    if m > 0 {
        let k = (m - 1) as nat;
        lemma_copied_prefix(inputs, outputs, a, b, n, k);
        let copies = channel_copies(a, b, m);
        assert(copies.drop_last() =~= channel_copies(a, b, k));
        let prev = copied(inputs, outputs, channel_copies(a, b, k));
        let c = copies.last();
        assert(c == ChannelCopy { input_bus: a.index, output_bus: b.index, channel: k as usize });
        assert(copied(inputs, outputs, copies) == copy_channel(inputs, prev, c));
        assert(prev[b.index as int].len() == outputs[b.index as int].len());
        let after = copy_channel(inputs, prev, c);
        assert(after == prev.update(
            b.index as int,
            prev[b.index as int].update(k as int, inputs[a.index as int][k as int]),
        ));
        assert forall|k2: int|
            0 <= k2 < outputs[b.index as int].len() implies #[trigger] after[b.index as int][k2]
                == if k2 < m {
                inputs[a.index as int][k2]
            } else {
                outputs[b.index as int][k2]
            } by {
            if k2 != k {
                assert(after[b.index as int][k2] == prev[b.index as int][k2]);
            }
        }
    } else {
        assert(channel_copies(a, b, 0) =~= Seq::<ChannelCopy>::empty());
    }
}

/// In-place aliasing over host memory. Route a buffer of `slots` channels
/// onto an input and an output bus whose memory holds the channels the host
/// reports, and make the copies routing asks for. A channel on both sides
/// then aliases the output channel, so writes through the view land in the
/// output, and reads the input's samples. A channel on the output side alone
/// aliases the output channel, whose samples nothing copied over. A channel on
/// the input side alone aliases the input channel; one on neither aliases
/// nothing.
pub proof fn lemma_in_place_aliasing<T>(
    inputs: Seq<Seq<Seq<T>>>,
    outputs: Seq<Seq<Seq<T>>>,
    input: HostBus,
    output: HostBus,
    slots: nat,
    i: nat,
)
    requires
        i < slots,
        slots <= usize::MAX,
        input.index < inputs.len(),
        output.index < outputs.len(),
        span(input, slots) <= inputs[input.index as int].len(),
        span(output, slots) <= outputs[output.index as int].len(),
    ensures
        ({
            let source = routed(Some(input), Some(output), i);
            let after = copied(inputs, outputs, copies_for(Some(input), Some(output), slots));
            &&& has_channel(input, i) && has_channel(output, i) ==> {
                &&& source == ChannelSource::Output { bus: output.index, channel: i as usize }
                &&& read(inputs, after, source) == Some(inputs[input.index as int][i as int])
            }
            &&& !has_channel(input, i) && has_channel(output, i) ==> {
                &&& source == ChannelSource::Output { bus: output.index, channel: i as usize }
                &&& read(inputs, after, source) == Some(outputs[output.index as int][i as int])
            }
            &&& has_channel(input, i) && !has_channel(output, i) ==> source
                == ChannelSource::Input { bus: input.index, channel: i as usize }
            &&& !has_channel(input, i) && !has_channel(output, i) ==> source
                == ChannelSource::Empty
        }),
{
    let n = shared_span(input, output, slots);
    lemma_copied_prefix(inputs, outputs, input, output, n, n);
}

/// Point every channel of `buffer` at a single host bus: the channels the
/// bus supplies alias it, the others nothing.
fn update_buffer_single(buffer: &mut BufferView, bus: HostBus, is_input: bool)
    ensures
        final(buffer)@ == routed_view(
            old(buffer)@,
            if is_input {
                Some(bus)
            } else {
                None
            },
            if is_input {
                None
            } else {
                Some(bus)
            },
        ),
{
    let ghost input = if is_input {
        Some(bus)
    } else {
        None
    };
    let ghost output = if is_input {
        None
    } else {
        Some(bus)
    };
    let supplied: u64 = if bus.channels <= 0 {
        0
    } else {
        bus.channels as u64
    };
    let n = buffer.channels();
    let mut i: usize = 0;
    while i < n
        invariant
            i <= n,
            n == old(buffer)@.channels.len(),
            supplied == (if bus.channels <= 0 {
                0
            } else {
                bus.channels as int
            }),
            input == (if is_input {
                Some(bus)
            } else {
                None
            }),
            output == (if is_input {
                None
            } else {
                Some(bus)
            }),
            buffer@.samples == old(buffer)@.samples,
            buffer@.channels.len() == n,
            forall|j: int|
                0 <= j < i ==> #[trigger] buffer@.channels[j] == routed(input, output, j as nat),
        decreases n - i,
    {
        let source = if (i as u64) >= supplied {
            ChannelSource::Empty
        } else if is_input {
            ChannelSource::Input { bus: bus.index, channel: i }
        } else {
            ChannelSource::Output { bus: bus.index, channel: i }
        };
        buffer.set_channel(i, source);
        i = i + 1;
    }
    assert(buffer@.channels =~= routed_view(old(buffer)@, input, output).channels);
}

/// Route `buffer` onto a host input and output bus at once, recording the
/// copies that in-place processing needs.
fn update_buffer_input_output(
    buffer: &mut BufferView,
    input: HostBus,
    output: HostBus,
    copies: &mut Vec<ChannelCopy>,
)
    ensures
        final(buffer)@ == routed_view(old(buffer)@, Some(input), Some(output)),
        final(copies)@ == old(copies)@ + copies_for(
            Some(input),
            Some(output),
            old(buffer)@.channels.len(),
        ),
{
    let ghost expected = copies_for(Some(input), Some(output), old(buffer)@.channels.len());
    let n = buffer.channels();
    let mut i: usize = 0;
    while i < n
        invariant
            i <= n,
            n == old(buffer)@.channels.len(),
            expected == copies_for(Some(input), Some(output), n as nat),
            buffer@.samples == old(buffer)@.samples,
            buffer@.channels.len() == n,
            forall|j: int|
                0 <= j < i ==> #[trigger] buffer@.channels[j] == routed(
                    Some(input),
                    Some(output),
                    j as nat,
                ),
            copies@ == old(copies)@ + expected.subrange(
                0,
                if (i as int) <= expected.len() {
                    i as int
                } else {
                    expected.len() as int
                },
            ),
        decreases n - i,
    {
        let in_input = (i as u64) < (if input.channels <= 0 {
            0
        } else {
            input.channels as u64
        });
        let in_output = (i as u64) < (if output.channels <= 0 {
            0
        } else {
            output.channels as u64
        });
        if in_output {
            if in_input {
                copies.push(ChannelCopy { input_bus: input.index, output_bus: output.index, channel: i });
            }
            buffer.set_channel(i, ChannelSource::Output { bus: output.index, channel: i });
        } else if in_input {
            buffer.set_channel(i, ChannelSource::Input { bus: input.index, channel: i });
        } else {
            buffer.set_channel(i, ChannelSource::Empty);
        }
        i = i + 1;
    }
    assert(buffer@.channels =~= routed_view(old(buffer)@, Some(input), Some(output)).channels);
    assert(copies@ =~= old(copies)@ + expected);
}

/// Point every channel of `buffer` at nothing.
fn clear_channels(buffer: &mut BufferView)
    ensures
        final(buffer)@ == routed_view(old(buffer)@, None, None),
{
    let n = buffer.channels();
    let mut i: usize = 0;
    while i < n
        invariant
            i <= n,
            n == old(buffer)@.channels.len(),
            buffer@.samples == old(buffer)@.samples,
            buffer@.channels.len() == n,
            forall|j: int| 0 <= j < i ==> #[trigger] buffer@.channels[j] == ChannelSource::Empty,
        decreases n - i,
    {
        buffer.set_channel(i, ChannelSource::Empty);
        i = i + 1;
    }
    assert(buffer@.channels =~= routed_view(old(buffer)@, None, None).channels);
}

/// Route `buffer` onto the host busses it pairs, if any.
fn update_buffer(
    buffer: &mut BufferView,
    input: Option<HostBus>,
    output: Option<HostBus>,
    copies: &mut Vec<ChannelCopy>,
)
    ensures
        final(buffer)@ == routed_view(old(buffer)@, input, output),
        final(copies)@ == old(copies)@ + copies_for(input, output, old(buffer)@.channels.len()),
{
    match (input, output) {
        (None, None) => {
            clear_channels(buffer);
            assert(copies@ =~= old(copies)@ + copies_for(input, output, old(buffer)@.channels.len()));
        },
        (None, Some(output)) => {
            update_buffer_single(buffer, output, false);
            assert(copies@ =~= old(copies)@ + copies_for(input, Some(output), old(buffer)@.channels.len()));
        },
        (Some(input), None) => {
            update_buffer_single(buffer, input, true);
            assert(copies@ =~= old(copies)@ + copies_for(Some(input), None, old(buffer)@.channels.len()));
        },
        (Some(input), Some(output)) => update_buffer_input_output(buffer, input, output, copies),
    }
}

/// The host bus of one direction that logical buffer `b` takes, out of `n`
/// host busses: the main buffer takes bus 0 when the layout has that main
/// port; the auxiliary buffers take the following busses in order, while
/// the host has any left.
pub open spec fn bus_of(has_main_buffer: bool, main_port: bool, b: nat, n: nat) -> Option<nat> {
    let taken: nat = if has_main_buffer && main_port && n > 0 {
        1
    } else {
        0
    };
    if has_main_buffer && b == 0 {
        if taken == 1 {
            Some(0)
        } else {
            None
        }
    } else {
        let k = taken + b - (if has_main_buffer {
            1nat
        } else {
            0nat
        });
        if k < n {
            Some(k as nat)
        } else {
            None
        }
    }
}

pub open spec fn host_bus(index: Option<nat>, host: Seq<i32>) -> Option<HostBus> {
    match index {
        Some(k) => Some(HostBus { index: k as usize, channels: host[k as int] }),
        None => None,
    }
}

/// The host input bus that logical buffer `b` is routed from.
pub open spec fn input_bus_for(layout: AudioLayout, b: nat, host_inputs: Seq<i32>) -> Option<
    HostBus,
> {
    host_bus(bus_of(layout.has_main(), layout.input is Some, b, host_inputs.len()), host_inputs)
}

/// The host output bus that logical buffer `b` is routed to.
pub open spec fn output_bus_for(layout: AudioLayout, b: nat, host_outputs: Seq<i32>) -> Option<
    HostBus,
> {
    host_bus(bus_of(layout.has_main(), layout.output is Some, b, host_outputs.len()), host_outputs)
}

pub open spec fn models(views: Seq<BufferView>) -> Seq<BufferModel> {
    Seq::new(views.len(), |i: int| views[i]@)
}

/// The copies that routing the first `upto` logical buffers asks for, buffer
/// by buffer.
pub open spec fn routed_copies(
    layout: AudioLayout,
    views: Seq<BufferModel>,
    host_inputs: Seq<i32>,
    host_outputs: Seq<i32>,
    upto: nat,
) -> Seq<ChannelCopy>
    decreases upto,
{
    if upto == 0 {
        Seq::empty()
    } else {
        let b = (upto - 1) as nat;
        routed_copies(layout, views, host_inputs, host_outputs, b) + copies_for(
            input_bus_for(layout, b, host_inputs),
            output_bus_for(layout, b, host_outputs),
            views[b as int].channels.len(),
        )
    }
}

/// Route every logical buffer's view onto the host busses of this callback:
/// the main buffer first, then the auxiliary buffers in order. Appends to
/// `copies` the input-to-output copies that must be made before processing.
pub fn route_buffers(
    layout: &AudioLayout,
    views: &mut Vec<BufferView>,
    host_inputs: &[i32],
    host_outputs: &[i32],
    copies: &mut Vec<ChannelCopy>,
)
    requires
        old(views)@.len() == layout.buffer_count(),
    ensures
        final(views)@.len() == old(views)@.len(),
        forall|b: int|
            0 <= b < final(views)@.len() ==> #[trigger] final(views)@[b]@ == routed_view(
                old(views)@[b]@,
                input_bus_for(*layout, b as nat, host_inputs@),
                output_bus_for(*layout, b as nat, host_outputs@),
            ),
        final(copies)@ == old(copies)@ + routed_copies(
            *layout,
            models(old(views)@),
            host_inputs@,
            host_outputs@,
            old(views)@.len(),
        ),
{
    let ghost before = models(old(views)@);
    let has_main = layout.has_main_buffer();
    let mut input_index: usize = 0;
    let mut output_index: usize = 0;
    let mut b: usize = 0;
    if has_main {
        let input = if layout.input.is_some() && host_inputs.len() > 0 {
            input_index = 1;
            Some(HostBus { index: 0, channels: host_inputs[0] })
        } else {
            None
        };
        let output = if layout.output.is_some() && host_outputs.len() > 0 {
            output_index = 1;
            Some(HostBus { index: 0, channels: host_outputs[0] })
        } else {
            None
        };
        assert(input == input_bus_for(*layout, 0, host_inputs@));
        assert(output == output_bus_for(*layout, 0, host_outputs@));
        assert(before[0] == old(views)@[0]@);
        assert(routed_copies(*layout, before, host_inputs@, host_outputs@, 0) =~= Seq::empty());
        update_buffer(&mut views[0], input, output, copies);
        b = 1;
        assert(copies@ =~= old(copies)@ + routed_copies(*layout, before, host_inputs@, host_outputs@, 1));
    }
    let ghost offset: nat = b as nat;
    let ghost taken_in: nat = input_index as nat;
    let ghost taken_out: nat = output_index as nat;
    while b < views.len()
        invariant
            before == models(old(views)@),
            views@.len() == old(views)@.len(),
            views@.len() == layout.buffer_count(),
            offset <= b <= views@.len(),
            offset == (if layout.has_main() {
                1nat
            } else {
                0nat
            }),
            taken_in == (if layout.has_main() && layout.input is Some && host_inputs@.len() > 0 {
                1nat
            } else {
                0nat
            }),
            taken_out == (if layout.has_main() && layout.output is Some && host_outputs@.len()
                > 0 {
                1nat
            } else {
                0nat
            }),
            taken_in <= host_inputs@.len(),
            taken_out <= host_outputs@.len(),
            input_index == (if taken_in + (b - offset) <= host_inputs@.len() {
                taken_in + (b - offset)
            } else {
                host_inputs@.len() as int
            }),
            output_index == (if taken_out + (b - offset) <= host_outputs@.len() {
                taken_out + (b - offset)
            } else {
                host_outputs@.len() as int
            }),
            forall|j: int|
                0 <= j < b ==> #[trigger] views@[j]@ == routed_view(
                    old(views)@[j]@,
                    input_bus_for(*layout, j as nat, host_inputs@),
                    output_bus_for(*layout, j as nat, host_outputs@),
                ),
            forall|j: int| b <= j < views@.len() ==> #[trigger] views@[j] == old(views)@[j],
            copies@ == old(copies)@ + routed_copies(*layout, before, host_inputs@, host_outputs@, b as nat),
        decreases views@.len() - b,
    {
        let input = if input_index < host_inputs.len() {
            let bus = HostBus { index: input_index, channels: host_inputs[input_index] };
            input_index = input_index + 1;
            Some(bus)
        } else {
            None
        };
        let output = if output_index < host_outputs.len() {
            let bus = HostBus { index: output_index, channels: host_outputs[output_index] };
            output_index = output_index + 1;
            Some(bus)
        } else {
            None
        };
        assert(input == input_bus_for(*layout, b as nat, host_inputs@));
        assert(output == output_bus_for(*layout, b as nat, host_outputs@));
        update_buffer(&mut views[b], input, output, copies);
        b = b + 1;
        assert(copies@ =~= old(copies)@ + routed_copies(*layout, before, host_inputs@, host_outputs@, b as nat));
    }
}

} // verus!
