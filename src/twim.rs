use vstd::prelude::*;

verus! {

/// Seven-bit address of the device on the shared two-wire bus.
pub const BUS_ADDRESS: u8 = 0x30;

/// A two-byte instruction for the bus device: a channel and the level to put on it.
#[derive(Clone, Copy, Debug, PartialEq, Eq, Structural)]
pub struct TwinCommand {
    pub channel: u8,
    pub value: u8,
}

impl TwinCommand {
    pub fn new(channel: u8, value: u8) -> (r: TwinCommand)
        ensures
            r.channel == channel,
            r.value == value,
    {
        TwinCommand { channel, value }
    }

    pub fn channel(&self) -> (r: u8)
        ensures
            r == self.channel,
    {
        self.channel
    }

    pub fn value(&self) -> (r: u8)
        ensures
            r == self.value,
    {
        self.value
    }

    /// The bytes of the single write that carries this command: `[channel, value]`.
    pub fn payload(&self) -> (r: [u8; 2])
        ensures
            r@ == seq![self.channel, self.value],
    {
        [self.channel, self.value]
    }
}

/// The bytes that reach the bus when the bus owner drains `cmds` in order,
/// one complete write per command.
pub open spec fn bus_trace(cmds: Seq<TwinCommand>) -> Seq<u8>
    decreases cmds.len(),
{
    if cmds.len() == 0 {
        seq![]
    } else {
        bus_trace(cmds.drop_last()).add(seq![cmds.last().channel, cmds.last().value])
    }
}

/// The bus sees whole two-byte units, never interleaved: byte `2i` is the
/// channel and byte `2i + 1` the value of the `i`-th command taken from the queue.
pub proof fn lemma_bus_trace_units(cmds: Seq<TwinCommand>)
    ensures
        bus_trace(cmds).len() == 2 * cmds.len(),
        forall|i: int|
            0 <= i < cmds.len() ==> {
                &&& #[trigger] bus_trace(cmds)[2 * i] == cmds[i].channel
                &&& bus_trace(cmds)[2 * i + 1] == cmds[i].value
            },
    decreases cmds.len(),
{
    if cmds.len() > 0 {
        let prefix = cmds.drop_last();
        lemma_bus_trace_units(prefix);
        assert forall|i: int| 0 <= i < cmds.len() implies {
            &&& #[trigger] bus_trace(cmds)[2 * i] == cmds[i].channel
            &&& bus_trace(cmds)[2 * i + 1] == cmds[i].value
        } by {
            if i < prefix.len() {
                assert(prefix[i] == cmds[i]);
                assert(bus_trace(prefix)[2 * i] == cmds[i].channel);
            }
        }
    }
}

} // verus!
