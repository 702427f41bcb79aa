//! Transport protocol engine: plans the framed transfers the controller
//! expects. Operations are recorded in order; an unverified shell performs
//! them on the serial bus and the reset/busy pins.
use vstd::prelude::*;

verus! {

/// One framed transfer or pin action, as the bus shell must perform it.
#[derive(Debug)]
pub enum TransportOp {
    /// Drive the reset line low, wait, drive it high, wait again.
    Reset,
    /// One opcode byte, command-framed.
    Command(u8),
    /// A payload, data-framed.
    Data(Vec<u8>),
    /// The same data byte repeated: floods controller RAM without a buffer.
    DataRepeated(u8, u32),
    /// Poll the busy line until the controller is idle.
    WaitUntilIdle,
}

/// Mathematical image of one transport operation.
#[verifier::ext_equal]
pub ghost enum OpSpec {
    /// Reset pulse.
    Reset,
    /// One command-framed opcode byte.
    Command(u8),
    /// A data-framed payload.
    Data(Seq<u8>),
    /// One data byte repeated a number of times.
    DataRepeated(u8, u32),
    /// Busy-poll until idle.
    WaitUntilIdle,
}

impl View for TransportOp {
    type V = OpSpec;

    open spec fn view(&self) -> OpSpec {
        match self {
            TransportOp::Reset => OpSpec::Reset,
            TransportOp::Command(c) => OpSpec::Command(*c),
            TransportOp::Data(d) => OpSpec::Data(d@),
            TransportOp::DataRepeated(v, n) => OpSpec::DataRepeated(*v, *n),
            TransportOp::WaitUntilIdle => OpSpec::WaitUntilIdle,
        }
    }
}

/// The sequence of operation images a recorded operation list stands for.
pub open spec fn ops_view(s: Seq<TransportOp>) -> Seq<OpSpec>
    decreases s.len(),
{
    if s.len() == 0 {
        Seq::empty()
    } else {
        ops_view(s.drop_last()).push(s.last()@)
    }
}

/// Appending one operation appends its image.
pub proof fn lemma_ops_view_push(s: Seq<TransportOp>, op: TransportOp)
    ensures
        ops_view(s.push(op)) == ops_view(s).push(op@),
{
    assert(s.push(op).drop_last() =~= s);
}

/// Records command and data transfers in the order the controller must
/// receive them.
pub struct DisplayInterface {
    ops: Vec<TransportOp>,
}

impl DisplayInterface {
    /// Operations recorded so far, oldest first.
    pub closed spec fn log(&self) -> Seq<OpSpec> {
        ops_view(self.ops@)
    }

    /// Create an interface with an empty record.
    pub fn new() -> (r: DisplayInterface)
        ensures
            r.log() == Seq::<OpSpec>::empty(),
    {
        DisplayInterface { ops: Vec::new() }
    }

    /// Record one opcode byte as a command-framed transfer.
    pub fn cmd(&mut self, command: u8)
        ensures
            final(self).log() == old(self).log().push(OpSpec::Command(command)),
    {
        let ghost s0 = self.ops@;
        let op = TransportOp::Command(command);
        proof {
            lemma_ops_view_push(s0, op);
        }
        self.ops.push(op);
    }

    /// Record a payload as a data-framed transfer.
    pub fn data(&mut self, data: &[u8])
        ensures
            final(self).log() == old(self).log().push(OpSpec::Data(data@)),
    {
        let ghost s0 = self.ops@;
        let op = TransportOp::Data(vstd::slice::slice_to_vec(data));
        proof {
            lemma_ops_view_push(s0, op);
        }
        self.ops.push(op);
    }

    /// Record a command followed immediately by its data payload. A zero
    /// length payload is the degenerate case of a bare command with an
    /// empty data frame.
    pub fn cmd_with_data(&mut self, command: u8, data: &[u8])
        ensures
            final(self).log() == old(self).log().push(OpSpec::Command(command)).push(
                OpSpec::Data(data@),
            ),
    {
        self.cmd(command);
        self.data(data);
    }

    /// Record the same byte sent `repetitions` times as data.
    pub fn data_x_times(&mut self, val: u8, repetitions: u32)
        ensures
            final(self).log() == old(self).log().push(OpSpec::DataRepeated(val, repetitions)),
    {
        let ghost s0 = self.ops@;
        let op = TransportOp::DataRepeated(val, repetitions);
        proof {
            lemma_ops_view_push(s0, op);
        }
        self.ops.push(op);
    }

    /// Record a busy-poll: the shell spins until the busy line reads low.
    pub fn wait_until_idle(&mut self)
        ensures
            final(self).log() == old(self).log().push(OpSpec::WaitUntilIdle),
    {
        let ghost s0 = self.ops@;
        let op = TransportOp::WaitUntilIdle;
        proof {
            lemma_ops_view_push(s0, op);
        }
        self.ops.push(op);
    }

    /// Record a reset pulse on the reset line.
    pub fn reset(&mut self)
        ensures
            final(self).log() == old(self).log().push(OpSpec::Reset),
    {
        let ghost s0 = self.ops@;
        let op = TransportOp::Reset;
        proof {
            lemma_ops_view_push(s0, op);
        }
        self.ops.push(op);
    }

    /// Hand the recorded operations out for the bus shell to perform,
    /// leaving the record empty.
    pub fn take_ops(&mut self) -> (r: Vec<TransportOp>)
        ensures
            ops_view(r@) == old(self).log(),
            final(self).log() == Seq::<OpSpec>::empty(),
    {
        let mut r: Vec<TransportOp> = Vec::new();
        core::mem::swap(&mut r, &mut self.ops);
        r
    }
}

} // verus!
