//! Bus operations and the framing of commands and data on the serial channel.
//!
//! A controller is addressed over a byte-exchange channel gated by a
//! chip-select line; a second line tells the controller whether the bytes are
//! a command or data. A [`Program`] is the ordered list of what has to happen
//! on those lines.

use vstd::prelude::*;
use vstd::slice::slice_to_vec;

verus! {

/// Electrical level of a digital line.
#[derive(Clone, Copy, Debug, PartialEq, Eq, Structural)]
pub enum Level {
    Low,
    High,
}

/// One thing to do on the lines of a panel.
#[derive(Clone, Debug, PartialEq, Eq)]
pub enum Operation {
    /// Drive the reset line.
    Reset(Level),
    /// Drive the chip-select line; low selects the panel.
    ChipSelect(Level),
    /// Drive the data/command line; low announces a command, high data.
    DataCommand(Level),
    /// Exchange these bytes over the serial channel.
    Transfer(Vec<u8>),
    /// Let this many milliseconds pass.
    Delay(u64),
    /// Poll the busy line until the controller is idle.
    AwaitIdle,
    /// Poll the busy line until the controller is idle after a power-on
    /// command; the time this takes tells whether a panel is attached.
    AwaitPowerOn,
}

/// Mathematical value of an [`Operation`].
pub enum OperationView {
    Reset(Level),
    ChipSelect(Level),
    DataCommand(Level),
    Transfer(Seq<u8>),
    Delay(u64),
    AwaitIdle,
    AwaitPowerOn,
}

impl View for Operation {
    type V = OperationView;

    open spec fn view(&self) -> OperationView {
        match *self {
            Operation::Reset(level) => OperationView::Reset(level),
            Operation::ChipSelect(level) => OperationView::ChipSelect(level),
            Operation::DataCommand(level) => OperationView::DataCommand(level),
            Operation::Transfer(bytes) => OperationView::Transfer(bytes@),
            Operation::Delay(ms) => OperationView::Delay(ms),
            Operation::AwaitIdle => OperationView::AwaitIdle,
            Operation::AwaitPowerOn => OperationView::AwaitPowerOn,
        }
    }
}

/// Milliseconds the reset line is held at each level of a reset pulse.
pub const RESET_HOLD_MS: u64 = 10;

/// A command on the wire: select, announce a command, exchange, release.
pub open spec fn command_frame(command: Seq<u8>) -> Seq<OperationView> {
    seq![
        OperationView::ChipSelect(Level::Low),
        OperationView::DataCommand(Level::Low),
        OperationView::Transfer(command),
        OperationView::ChipSelect(Level::High),
    ]
}

/// Data on the wire: select, announce data, exchange, release.
pub open spec fn data_frame(data: Seq<u8>) -> Seq<OperationView> {
    seq![
        OperationView::ChipSelect(Level::Low),
        OperationView::DataCommand(Level::High),
        OperationView::Transfer(data),
        OperationView::ChipSelect(Level::High),
    ]
}

/// A command and its data under a single selection of the panel.
pub open spec fn fused_frame(command: Seq<u8>, data: Seq<u8>) -> Seq<OperationView> {
    seq![
        OperationView::ChipSelect(Level::Low),
        OperationView::DataCommand(Level::Low),
        OperationView::Transfer(command),
        OperationView::DataCommand(Level::High),
        OperationView::Transfer(data),
        OperationView::ChipSelect(Level::High),
    ]
}

/// Waiting for the controller to become idle.
pub open spec fn await_idle() -> Seq<OperationView> {
    seq![OperationView::AwaitIdle]
}

/// Waiting for the controller to become idle after a power-on command.
pub open spec fn await_power_on() -> Seq<OperationView> {
    seq![OperationView::AwaitPowerOn]
}

/// Letting `ms` milliseconds pass.
pub open spec fn pause(ms: u64) -> Seq<OperationView> {
    seq![OperationView::Delay(ms)]
}

/// Releasing the chip-select line.
pub open spec fn release() -> Seq<OperationView> {
    seq![OperationView::ChipSelect(Level::High)]
}

/// One reset pulse: the line low, then high, holding each level.
pub open spec fn reset_pulse() -> Seq<OperationView> {
    seq![
        OperationView::Reset(Level::Low),
        OperationView::Delay(RESET_HOLD_MS),
        OperationView::Reset(Level::High),
        OperationView::Delay(RESET_HOLD_MS),
    ]
}

/// `pulses` reset pulses in a row.
pub open spec fn reset_pulses(pulses: nat) -> Seq<OperationView>
    decreases pulses,
{
    if pulses == 0 {
        Seq::empty()
    } else {
        reset_pulses((pulses - 1) as nat) + reset_pulse()
    }
}

/// `frame` written `count` times in a row.
pub open spec fn repeated(frame: Seq<OperationView>, count: nat) -> Seq<OperationView>
    decreases count,
{
    if count == 0 {
        Seq::empty()
    } else {
        repeated(frame, (count - 1) as nat) + frame
    }
}

/// An ordered list of bus operations.
#[derive(Clone, Debug, PartialEq, Eq)]
pub struct Program {
    pub ops: Vec<Operation>,
}

impl View for Program {
    type V = Seq<OperationView>;

    open spec fn view(&self) -> Seq<OperationView> {
        Seq::new(self.ops@.len(), |i: int| self.ops@[i]@)
    }
}

impl Program {
    /// The program that does nothing.
    pub fn new() -> (program: Program)
        ensures
            program@ == Seq::<OperationView>::empty(),
    {
        let program = Program { ops: Vec::new() };
        assert(program@ =~= Seq::<OperationView>::empty());
        program
    }

    /// Number of operations.
    pub fn len(&self) -> (n: usize)
        ensures
            n == self@.len(),
    {
        self.ops.len()
    }

    /// The operation at `index`, if there is one.
    pub fn get(&self, index: usize) -> (op: Option<&Operation>)
        ensures
            index < self@.len() ==> op.is_some() && op.unwrap()@ == self@[index as int],
            index >= self@.len() ==> op.is_none(),
    {
        if index < self.ops.len() {
            Some(&self.ops[index])
        } else {
            None
        }
    }

    /// Appends one operation.
    pub fn push(&mut self, op: Operation)
        ensures
            final(self)@ == old(self)@.push(op@),
    {
        self.ops.push(op);
        assert(self@ =~= old(self)@.push(op@));
    }

    /// Appends a pause of `ms` milliseconds.
    pub fn delay(&mut self, ms: u64)
        ensures
            final(self)@ == old(self)@ + pause(ms),
    {
        self.push(Operation::Delay(ms));
        assert(self@ =~= old(self)@ + pause(ms));
    }

    /// Appends a wait for the controller to become idle.
    pub fn wait_for_idle(&mut self)
        ensures
            final(self)@ == old(self)@ + await_idle(),
    {
        self.push(Operation::AwaitIdle);
        assert(self@ =~= old(self)@ + await_idle());
    }

    /// Appends the wait that follows a power-on command.
    pub fn wait_for_power_on(&mut self)
        ensures
            final(self)@ == old(self)@ + await_power_on(),
    {
        self.push(Operation::AwaitPowerOn);
        assert(self@ =~= old(self)@ + await_power_on());
    }

    /// Appends the release of the chip-select line.
    pub fn deselect(&mut self)
        ensures
            final(self)@ == old(self)@ + release(),
    {
        self.push(Operation::ChipSelect(Level::High));
        assert(self@ =~= old(self)@ + release());
    }

    /// Appends `pulses` pulses of the hardware reset line.
    pub fn reset_ic(&mut self, pulses: u8)
        ensures
            final(self)@ == old(self)@ + reset_pulses(pulses as nat),
    {
        let mut done: u8 = 0;
        assert(self@ =~= old(self)@ + reset_pulses(0));
        while done < pulses
            invariant
                done <= pulses,
                self@ == old(self)@ + reset_pulses(done as nat),
            decreases pulses - done,
        {
            let ghost before = self@;
            self.push(Operation::Reset(Level::Low));
            self.push(Operation::Delay(RESET_HOLD_MS));
            self.push(Operation::Reset(Level::High));
            self.push(Operation::Delay(RESET_HOLD_MS));
            done = done + 1;
            assert(self@ =~= before + reset_pulse());
            assert(self@ =~= old(self)@ + reset_pulses(done as nat));
        }
    }

    /// Appends a command: the panel is selected, the bytes go out in command
    /// mode, the panel is released.
    pub fn write_command(&mut self, command: &[u8])
        ensures
            final(self)@ == old(self)@ + command_frame(command@),
    {
        self.push(Operation::ChipSelect(Level::Low));
        self.push(Operation::DataCommand(Level::Low));
        self.push(Operation::Transfer(slice_to_vec(command)));
        self.push(Operation::ChipSelect(Level::High));
        assert(self@ =~= old(self)@ + command_frame(command@));
    }

    /// Appends data: the panel is selected, the bytes go out in data mode, the
    /// panel is released.
    pub fn write_data(&mut self, data: &[u8])
        ensures
            final(self)@ == old(self)@ + data_frame(data@),
    {
        self.push(Operation::ChipSelect(Level::Low));
        self.push(Operation::DataCommand(Level::High));
        self.push(Operation::Transfer(slice_to_vec(data)));
        self.push(Operation::ChipSelect(Level::High));
        assert(self@ =~= old(self)@ + data_frame(data@));
    }

    /// Appends a command followed by its data under one selection of the
    /// panel, which saves a release and a second selection.
    pub fn write_command_with_data(&mut self, command: &[u8], data: &[u8])
        ensures
            final(self)@ == old(self)@ + fused_frame(command@, data@),
    {
        self.push(Operation::ChipSelect(Level::Low));
        self.push(Operation::DataCommand(Level::Low));
        self.push(Operation::Transfer(slice_to_vec(command)));
        self.push(Operation::DataCommand(Level::High));
        self.push(Operation::Transfer(slice_to_vec(data)));
        self.push(Operation::ChipSelect(Level::High));
        assert(self@ =~= old(self)@ + fused_frame(command@, data@));
    }

    /// Appends a one-byte command.
    pub fn command(&mut self, opcode: u8)
        ensures
            final(self)@ == old(self)@ + command_frame(seq![opcode]),
    {
        let bytes = [opcode];
        assert(bytes@ =~= seq![opcode]);
        self.write_command(&bytes);
    }

    /// Appends one byte of data.
    pub fn data(&mut self, value: u8)
        ensures
            final(self)@ == old(self)@ + data_frame(seq![value]),
    {
        let bytes = [value];
        assert(bytes@ =~= seq![value]);
        self.write_data(&bytes);
    }

    /// Appends a one-byte command and one byte of data under one selection.
    pub fn command_with_data(&mut self, opcode: u8, value: u8)
        ensures
            final(self)@ == old(self)@ + fused_frame(seq![opcode], seq![value]),
    {
        let command = [opcode];
        let data = [value];
        assert(command@ =~= seq![opcode]);
        assert(data@ =~= seq![value]);
        self.write_command_with_data(&command, &data);
    }

    /// Appends `count` separate writes of the one data byte `value`.
    pub fn write_data_repeated(&mut self, value: u8, count: usize)
        ensures
            final(self)@ == old(self)@ + repeated(data_frame(seq![value]), count as nat),
    {
        let mut done: usize = 0;
        assert(self@ =~= old(self)@ + repeated(data_frame(seq![value]), 0));
        while done < count
            invariant
                done <= count,
                self@ == old(self)@ + repeated(data_frame(seq![value]), done as nat),
            decreases count - done,
        {
            self.data(value);
            done = done + 1;
            assert(self@ =~= old(self)@ + repeated(data_frame(seq![value]), done as nat));
        }
    }
}

/// The byte strings that `ops` exchanges over the serial channel, in order.
pub open spec fn transfers(ops: Seq<OperationView>) -> Seq<Seq<u8>>
    decreases ops.len(),
{
    if ops.len() == 0 {
        Seq::empty()
    } else {
        match ops.last() {
            OperationView::Transfer(bytes) => transfers(ops.drop_last()).push(bytes),
            _ => transfers(ops.drop_last()),
        }
    }
}

/// `ops` with the chip-select operations left out.
pub open spec fn without_chip_select(ops: Seq<OperationView>) -> Seq<OperationView>
    decreases ops.len(),
{
    if ops.len() == 0 {
        Seq::empty()
    } else if ops.last() is ChipSelect {
        without_chip_select(ops.drop_last())
    } else {
        without_chip_select(ops.drop_last()).push(ops.last())
    }
}

/// How many times `ops` drives the chip-select line.
pub open spec fn chip_select_transitions(ops: Seq<OperationView>) -> nat
    decreases ops.len(),
{
    if ops.len() == 0 {
        0
    } else if ops.last() is ChipSelect {
        chip_select_transitions(ops.drop_last()) + 1
    } else {
        chip_select_transitions(ops.drop_last())
    }
}

/// The exchanges of two programs in a row are those of the first followed by
/// those of the second.
pub broadcast proof fn lemma_transfers_concat(a: Seq<OperationView>, b: Seq<OperationView>)
    ensures
        #[trigger] transfers(a + b) == transfers(a) + transfers(b),
    decreases b.len(),
{
    if b.len() == 0 {
        assert(a + b =~= a);
        assert(transfers(a) + transfers(b) =~= transfers(a));
    } else {
        lemma_transfers_concat(a, b.drop_last());
        assert((a + b).drop_last() =~= a + b.drop_last());
        assert((a + b).last() == b.last());
        assert(transfers(a + b) =~= transfers(a) + transfers(b));
    }
}

/// A command frame exchanges its command bytes.
pub broadcast proof fn lemma_transfers_of_command(command: Seq<u8>)
    ensures
        #[trigger] transfers(command_frame(command)) == seq![command],
{
    reveal_with_fuel(transfers, 6);
    assert(transfers(command_frame(command)) =~= seq![command]);
}

/// A data frame exchanges its data bytes.
pub broadcast proof fn lemma_transfers_of_data(data: Seq<u8>)
    ensures
        #[trigger] transfers(data_frame(data)) == seq![data],
{
    reveal_with_fuel(transfers, 6);
    assert(transfers(data_frame(data)) =~= seq![data]);
}

/// A fused frame exchanges its command bytes and then its data bytes.
pub broadcast proof fn lemma_transfers_of_fused(command: Seq<u8>, data: Seq<u8>)
    ensures
        #[trigger] transfers(fused_frame(command, data)) == seq![command, data],
{
    reveal_with_fuel(transfers, 8);
    assert(transfers(fused_frame(command, data)) =~= seq![command, data]);
}

/// Reset pulses exchange nothing.
pub broadcast proof fn lemma_transfers_of_reset(pulses: nat)
    ensures
        #[trigger] transfers(reset_pulses(pulses)) == Seq::<Seq<u8>>::empty(),
    decreases pulses,
{
    reveal_with_fuel(transfers, 6);
    if pulses > 0 {
        lemma_transfers_of_reset((pulses - 1) as nat);
        lemma_transfers_concat(reset_pulses((pulses - 1) as nat), reset_pulse());
        assert(transfers(reset_pulse()) =~= Seq::<Seq<u8>>::empty());
    }
}

/// Waits, pauses and the release of the panel exchange nothing.
pub proof fn lemma_transfers_of_idle_steps(ms: u64)
    ensures
        transfers(await_idle()) == Seq::<Seq<u8>>::empty(),
        transfers(await_power_on()) == Seq::<Seq<u8>>::empty(),
        transfers(pause(ms)) == Seq::<Seq<u8>>::empty(),
        transfers(release()) == Seq::<Seq<u8>>::empty(),
{
    reveal_with_fuel(transfers, 3);
}

/// Sending a command and its data under one selection of the panel puts the
/// same bytes on the wire, in the same order and under the same levels of the
/// data/command line, as sending the command and then the data: the two
/// differ in the chip-select line alone, which the fused form releases and
/// asserts one time less.
pub proof fn lemma_fusion_equivalence(command: Seq<u8>, data: Seq<u8>)
    ensures
        without_chip_select(fused_frame(command, data)) == without_chip_select(
            command_frame(command) + data_frame(data),
        ),
        transfers(fused_frame(command, data)) == transfers(
            command_frame(command) + data_frame(data),
        ),
        transfers(fused_frame(command, data)) == seq![command, data],
        chip_select_transitions(fused_frame(command, data)) + 2 == chip_select_transitions(
            command_frame(command) + data_frame(data),
        ),
{
    let fused = fused_frame(command, data);
    let apart = command_frame(command) + data_frame(data);
    let core = seq![
        OperationView::DataCommand(Level::Low),
        OperationView::Transfer(command),
        OperationView::DataCommand(Level::High),
        OperationView::Transfer(data),
    ];
    assert(apart =~= seq![
        OperationView::ChipSelect(Level::Low),
        OperationView::DataCommand(Level::Low),
        OperationView::Transfer(command),
        OperationView::ChipSelect(Level::High),
        OperationView::ChipSelect(Level::Low),
        OperationView::DataCommand(Level::High),
        OperationView::Transfer(data),
        OperationView::ChipSelect(Level::High),
    ]);
    reveal_with_fuel(without_chip_select, 10);
    reveal_with_fuel(chip_select_transitions, 10);
    reveal_with_fuel(transfers, 10);
    assert(without_chip_select(fused) =~= core);
    assert(without_chip_select(apart) =~= core);
    assert(transfers(fused) =~= seq![command, data]);
    assert(transfers(apart) =~= seq![command, data]);
    assert(chip_select_transitions(fused) == 2);
    assert(chip_select_transitions(apart) == 4);
}

/// No operation of `ops` is the wait that follows a power-on command.
pub open spec fn checks_nothing(ops: Seq<OperationView>) -> bool {
    forall|i: int| 0 <= i < ops.len() ==> !(#[trigger] ops[i] is AwaitPowerOn)
}

/// Two programs without a power-on wait have none when put in a row.
pub broadcast proof fn lemma_checks_nothing_concat(a: Seq<OperationView>, b: Seq<OperationView>)
    requires
        checks_nothing(a),
        checks_nothing(b),
    ensures
        #[trigger] checks_nothing(a + b),
{
    assert forall|i: int| 0 <= i < (a + b).len() implies !(#[trigger] (a + b)[i]
        is AwaitPowerOn) by {
        if i < a.len() {
            assert((a + b)[i] == a[i]);
        } else {
            assert((a + b)[i] == b[i - a.len()]);
        }
    }
}

/// A command frame holds no power-on wait.
pub broadcast proof fn lemma_command_checks_nothing(command: Seq<u8>)
    ensures
        #[trigger] checks_nothing(command_frame(command)),
{
}

/// A data frame holds no power-on wait.
pub broadcast proof fn lemma_data_checks_nothing(data: Seq<u8>)
    ensures
        #[trigger] checks_nothing(data_frame(data)),
{
}

/// A fused frame holds no power-on wait.
pub broadcast proof fn lemma_fused_checks_nothing(command: Seq<u8>, data: Seq<u8>)
    ensures
        #[trigger] checks_nothing(fused_frame(command, data)),
{
}

/// Reset pulses hold no power-on wait.
pub broadcast proof fn lemma_reset_checks_nothing(pulses: nat)
    ensures
        #[trigger] checks_nothing(reset_pulses(pulses)),
    decreases pulses,
{
    if pulses > 0 {
        lemma_reset_checks_nothing((pulses - 1) as nat);
        lemma_checks_nothing_concat(reset_pulses((pulses - 1) as nat), reset_pulse());
    }
}

/// An ordinary wait holds no power-on wait.
pub proof fn lemma_idle_checks_nothing()
    ensures
        checks_nothing(await_idle()),
{
}

} // verus!
