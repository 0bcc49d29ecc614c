//! The state machine that drives the dongle.
//!
//! The driver itself performs no input or output. Its caller opens the
//! serial port, reads lines, receives commands, and hands each of these to
//! the driver as an input; the driver answers with what to do next: send a
//! command to the dongle, wait for the next input, or stop.
//!
//! The bootstrap sends three commands, each after the one before it was
//! confirmed: echo off, verbose on, and the scan filter. Commands of the
//! caller are sent when they arrive, so they leave in the order in which
//! they came.

use vstd::prelude::*;
use vstd::string::*;
use vstd::utf8::encode_utf8;

use crate::codec::{decode_hex_spec, DecodeError};
use crate::reading::{HibouAir, FULL_BEACON};
use crate::registry::{RegistryView, SensorRegistry};
use crate::response::{
    classification_view, classify, classify_spec, line_fields, strip_line_end, trim_line_end,
    ParseError, ProtocolResponse, ResponseView,
};

verus! {

/// Speed of the serial connection, in baud.
pub const BAUD_RATE: u32 = 115200;

/// How long one read waits for a line, in seconds.
pub const READ_TIMEOUT_SECS: u64 = 5;

/// Scan data of at most this many bytes is too short to hold a reading.
pub const MIN_SCAN_DATA_LEN: usize = 60;

/// The command that switches the echo off.
pub const ATE0: &'static str = "ATE0\r\n";

/// The command that switches verbose answers on.
pub const ATV1: &'static str = "ATV1\r\n";

/// The command that starts the scan for the sensor family.
pub const AT_FINDSCANDATA: &'static str = "AT+FINDSCANDATA=FF5B07\r\n";

/// The command that asks for attention.
pub const AT: &'static str = "AT\r\n";

/// The command that asks for device information.
pub const ATI: &'static str = "ATI\r\n";

/// The command that selects the central role.
pub const AT_CENTRAL: &'static str = "AT+CENTRAL\r\n";

/// The plain line that confirms that the echo is off.
pub const ECHO_OFF: &'static str = "ECHO OFF";

/// The plain line that confirms that verbose answers are on.
pub const VERBOSE_ON: &'static str = "VERBOSE ON";

/// Where the driver stands in its bootstrap.
#[derive(Debug, Clone, Copy, PartialEq, Eq, Structural)]
pub enum BootstrapState {
    /// The serial port is not open yet.
    Opening,
    /// Echo off was sent and awaits confirmation.
    EchoOff,
    /// Verbose on was sent and awaits confirmation.
    VerboseOn,
    /// The scan filter was sent; scan results come in.
    Scanning,
    /// The connection or the command channel closed.
    Closed,
    /// The port did not open, or a read failed.
    Failed,
}

/// A command that a caller asks the driver to send.
#[derive(Debug, Clone, Copy, PartialEq, Eq, Structural)]
pub enum BleuIOCommand {
    At,
    AtI,
    AtCentral,
    AtFindscandata,
}

impl BleuIOCommand {
    /// The text that goes to the dongle for this command.
    pub open spec fn spec_wire_text(self) -> Seq<char> {
        match self {
            BleuIOCommand::At => AT@,
            BleuIOCommand::AtI => ATI@,
            BleuIOCommand::AtCentral => AT_CENTRAL@,
            BleuIOCommand::AtFindscandata => AT_FINDSCANDATA@,
        }
    }

    /// The text that goes to the dongle for this command.
    pub fn wire_text(&self) -> (r: &'static str)
        ensures
            r@ == self.spec_wire_text(),
    {
        match self {
            BleuIOCommand::At => AT,
            BleuIOCommand::AtI => ATI,
            BleuIOCommand::AtCentral => AT_CENTRAL,
            BleuIOCommand::AtFindscandata => AT_FINDSCANDATA,
        }
    }
}

/// What the caller hands to the driver.
#[derive(Debug, PartialEq, Eq)]
pub enum DriverInput {
    /// The serial port opened.
    PortOpened,
    /// The serial port did not open.
    OpenFailed,
    /// A line arrived at the time `now` and was classified.
    Response { response: Result<ProtocolResponse, ParseError>, now: i64 },
    /// No line arrived within the read timeout.
    ReadTimeout,
    /// The serial connection ended.
    EndOfStream,
    /// A read failed.
    ReadFailed,
    /// A caller asks for a command to be sent.
    Command(BleuIOCommand),
    /// No caller can send commands any more.
    CommandsClosed,
}

/// The mathematical value of a `DriverInput`.
pub enum InputView {
    PortOpened,
    OpenFailed,
    Response { response: Result<ResponseView, Seq<char>>, now: i64 },
    ReadTimeout,
    EndOfStream,
    ReadFailed,
    Command(BleuIOCommand),
    CommandsClosed,
}

impl View for DriverInput {
    type V = InputView;

    open spec fn view(&self) -> InputView {
        match *self {
            DriverInput::PortOpened => InputView::PortOpened,
            DriverInput::OpenFailed => InputView::OpenFailed,
            DriverInput::Response { response, now } => InputView::Response {
                response: classification_view(response),
                now,
            },
            DriverInput::ReadTimeout => InputView::ReadTimeout,
            DriverInput::EndOfStream => InputView::EndOfStream,
            DriverInput::ReadFailed => InputView::ReadFailed,
            DriverInput::Command(command) => InputView::Command(command),
            DriverInput::CommandsClosed => InputView::CommandsClosed,
        }
    }
}

/// What the driver asks its caller to do.
#[derive(Debug, Clone, Copy, PartialEq, Eq)]
pub enum DriverAction {
    /// Nothing; go on with the next input.
    Wait,
    /// Write this text to the dongle, then go on with the next input.
    Send(&'static str),
    /// Leave the loop; the driver is closed or has failed.
    Stop,
}

/// The mathematical value of a `DriverAction`.
pub enum ActionView {
    Wait,
    Send(Seq<char>),
    Stop,
}

impl View for DriverAction {
    type V = ActionView;

    open spec fn view(&self) -> ActionView {
        match *self {
            DriverAction::Wait => ActionView::Wait,
            DriverAction::Send(text) => ActionView::Send(text@),
            DriverAction::Stop => ActionView::Stop,
        }
    }
}

/// Why scan data was not taken in.
#[derive(Debug, Clone, Copy, PartialEq, Eq, Structural)]
pub enum ScanRejection {
    /// The data has at most `MIN_SCAN_DATA_LEN` bytes.
    BelowMinimumLength,
    /// The data does not decode to a reading.
    Undecodable(DecodeError),
    /// The reading is not of the full beacon kind.
    UnknownBeaconKind,
}

/// What screening the scan data `data` gives: the reading it carries,
/// where it is long enough, decodes, and is of the full beacon kind.
pub open spec fn screen_spec(data: Seq<u8>) -> Result<HibouAir, ScanRejection> {
    if data.len() <= MIN_SCAN_DATA_LEN {
        Err(ScanRejection::BelowMinimumLength)
    } else {
        match decode_hex_spec(data) {
            Err(e) => Err(ScanRejection::Undecodable(e)),
            Ok(bytes) => if bytes[2] == FULL_BEACON {
                Ok(HibouAir::spec_from_bytes(bytes))
            } else {
                Err(ScanRejection::UnknownBeaconKind)
            },
        }
    }
}

/// Screens the data of a scan result: decodes the reading it carries and
/// keeps it where it is of the full beacon kind.
pub fn screen_scan_data(data: &str) -> (r: Result<HibouAir, ScanRejection>)
    ensures
        r == screen_spec(data.spec_bytes()),
{
    if data.as_bytes().len() <= MIN_SCAN_DATA_LEN {
        return Err(ScanRejection::BelowMinimumLength);
    }
    match HibouAir::from_hex(data) {
        Ok(reading) => {
            proof {
                reading.lemma_from_view();
            }
            if reading.get_beacon_nr() == FULL_BEACON {
                Ok(reading)
            } else {
                Err(ScanRejection::UnknownBeaconKind)
            }
        },
        Err(e) => Err(ScanRejection::Undecodable(e)),
    }
}

/// The state of the driver: where it stands in the bootstrap, and the
/// error code of the last acknowledgement.
#[derive(Debug, Clone, Copy, PartialEq, Eq, Structural)]
pub struct Driver {
    pub state: BootstrapState,
    pub last_error_code: i64,
}

/// Whether the driver talks to the dongle in `state`.
pub open spec fn is_live(state: BootstrapState) -> bool {
    state is EchoOff || state is VerboseOn || state is Scanning
}

/// The state that follows `state` once its command is confirmed.
pub open spec fn following(state: BootstrapState) -> BootstrapState {
    match state {
        BootstrapState::Opening => BootstrapState::EchoOff,
        BootstrapState::EchoOff => BootstrapState::VerboseOn,
        BootstrapState::VerboseOn => BootstrapState::Scanning,
        other => other,
    }
}

/// The command that the driver sends when it enters `state`.
pub open spec fn entry_command(state: BootstrapState) -> Seq<char> {
    match state {
        BootstrapState::EchoOff => ATE0@,
        BootstrapState::VerboseOn => ATV1@,
        _ => AT_FINDSCANDATA@,
    }
}

/// Whether `response` confirms the command that the driver `d` waits on:
/// an end of response after an acknowledgement without error, or the
/// plain line that belongs to the command.
pub open spec fn confirms(d: Driver, response: Result<ResponseView, Seq<char>>) -> bool {
    match response {
        Ok(ResponseView::EndOfResponse) => d.last_error_code == 0 && (d.state is EchoOff
            || d.state is VerboseOn),
        Err(line) => (d.state is EchoOff && line == ECHO_OFF@) || (d.state is VerboseOn && line
            == VERBOSE_ON@),
        _ => false,
    }
}

/// The driver `d` after the input `input`.
pub open spec fn next_driver(d: Driver, input: InputView) -> Driver {
    match d.state {
        BootstrapState::Closed | BootstrapState::Failed => d,
        BootstrapState::Opening => match input {
            InputView::PortOpened => Driver { state: BootstrapState::EchoOff, last_error_code: 0 },
            InputView::OpenFailed => Driver { state: BootstrapState::Failed, ..d },
            InputView::CommandsClosed => Driver { state: BootstrapState::Closed, ..d },
            _ => d,
        },
        _ => match input {
            InputView::Response { response, now } => if confirms(d, response) {
                Driver { state: following(d.state), ..d }
            } else {
                match response {
                    Ok(ResponseView::Acknowledgement { error_code }) => Driver {
                        last_error_code: error_code,
                        ..d
                    },
                    _ => d,
                }
            },
            InputView::EndOfStream | InputView::CommandsClosed => Driver {
                state: BootstrapState::Closed,
                ..d
            },
            InputView::ReadFailed => Driver { state: BootstrapState::Failed, ..d },
            _ => d,
        },
    }
}

/// What the driver `d` asks for on the input `input`.
pub open spec fn action_for(d: Driver, input: InputView) -> ActionView {
    match d.state {
        BootstrapState::Closed | BootstrapState::Failed => ActionView::Stop,
        BootstrapState::Opening => match input {
            InputView::PortOpened => ActionView::Send(ATE0@),
            InputView::OpenFailed | InputView::CommandsClosed => ActionView::Stop,
            _ => ActionView::Wait,
        },
        _ => match input {
            InputView::Response { response, now } => if confirms(d, response) {
                ActionView::Send(entry_command(following(d.state)))
            } else {
                ActionView::Wait
            },
            InputView::EndOfStream | InputView::CommandsClosed | InputView::ReadFailed =>
                ActionView::Stop,
            InputView::Command(command) => ActionView::Send(command.spec_wire_text()),
            _ => ActionView::Wait,
        },
    }
}

/// The reading that the driver `d` takes in on the input `input`: that of
/// a scan result that passes the screening, while the driver is live.
pub open spec fn accepted_reading(d: Driver, input: InputView) -> Option<HibouAir> {
    match input {
        InputView::Response { response: Ok(ResponseView::ScanResult { address, data }), now } =>
            if is_live(d.state) {
                match screen_spec(encode_utf8(data)) {
                    Ok(reading) => Some(reading),
                    Err(_) => None,
                }
            } else {
                None
            },
        _ => None,
    }
}

/// The registry `registry` after the driver `d` handled `input`.
pub open spec fn next_registry(d: Driver, input: InputView, registry: RegistryView) -> RegistryView {
    match input {
        InputView::Response { response, now } => match accepted_reading(d, input) {
            Some(reading) => registry.upsert(reading, now),
            None => registry,
        },
        _ => registry,
    }
}

/// The input that the line `raw`, read at the time `now`, amounts to: the
/// classification of the line without its line end.
pub open spec fn line_input(raw: Seq<char>, now: i64) -> InputView {
    InputView::Response {
        response: classify_spec(strip_line_end(raw), line_fields(strip_line_end(raw))),
        now,
    }
}

impl Driver {
    /// The driver before anything happened.
    pub open spec fn initial() -> Driver {
        Driver { state: BootstrapState::Opening, last_error_code: 0 }
    }

    /// A driver that waits for the serial port to open.
    pub fn new() -> (d: Driver)
        ensures
            d == Driver::initial(),
    {
        Driver { state: BootstrapState::Opening, last_error_code: 0 }
    }

    /// Moves on to the state that follows, and asks for its command.
    fn advance(&mut self) -> (action: DriverAction)
        requires
            old(self).state is EchoOff || old(self).state is VerboseOn,
        ensures
            *final(self) == (Driver { state: following(old(self).state), ..*old(self) }),
            action@ == ActionView::Send(entry_command(following(old(self).state))),
    {
        match self.state {
            BootstrapState::EchoOff => {
                self.state = BootstrapState::VerboseOn;
                DriverAction::Send(ATV1)
            },
            _ => {
                self.state = BootstrapState::Scanning;
                DriverAction::Send(AT_FINDSCANDATA)
            },
        }
    }

    /// Handles a classified line while the driver is live.
    fn handle_response(
        &mut self,
        registry: &mut SensorRegistry,
        response: Result<ProtocolResponse, ParseError>,
        now: i64,
    ) -> (action: DriverAction)
        requires
            is_live(old(self).state),
        ensures
            *final(self) == next_driver(
                *old(self),
                InputView::Response { response: classification_view(response), now },
            ),
            action@ == action_for(
                *old(self),
                InputView::Response { response: classification_view(response), now },
            ),
            final(registry)@ == next_registry(
                *old(self),
                InputView::Response { response: classification_view(response), now },
                old(registry)@,
            ),
    {
        match response {
            Ok(ProtocolResponse::Acknowledgement { error_code }) => {
                self.last_error_code = error_code;
                DriverAction::Wait
            },
            Ok(ProtocolResponse::EndOfResponse) => {
                if self.last_error_code == 0 && (self.state == BootstrapState::EchoOff
                    || self.state == BootstrapState::VerboseOn) {
                    self.advance()
                } else {
                    DriverAction::Wait
                }
            },
            Ok(ProtocolResponse::ScanResult { address, data }) => {
                match screen_scan_data(data.as_str()) {
                    Ok(reading) => {
                        registry.upsert(reading, now);
                    },
                    Err(_) => {},
                }
                DriverAction::Wait
            },
            Ok(ProtocolResponse::Unrecognized { raw_line }) => DriverAction::Wait,
            Err(e) => {
                if (self.state == BootstrapState::EchoOff && e.raw_line == ECHO_OFF.to_owned())
                    || (self.state == BootstrapState::VerboseOn && e.raw_line
                    == VERBOSE_ON.to_owned()) {
                    self.advance()
                } else {
                    DriverAction::Wait
                }
            },
        }
    }

    /// Handles the line `raw`, read at the time `now`: takes off its line
    /// end, classifies it, and handles the outcome.
    pub fn on_line(&mut self, registry: &mut SensorRegistry, raw: &str, now: i64) -> (action:
        DriverAction)
        ensures
            *final(self) == next_driver(*old(self), line_input(raw@, now)),
            action@ == action_for(*old(self), line_input(raw@, now)),
            final(registry)@ == next_registry(
                *old(self),
                line_input(raw@, now),
                old(registry)@,
            ),
    {
        let response = classify(trim_line_end(raw));
        self.handle(registry, DriverInput::Response { response, now })
    }

    /// Handles one input: moves the driver on, takes a reading into
    /// `registry` where the input carries one, and says what to do next.
    pub fn handle(&mut self, registry: &mut SensorRegistry, input: DriverInput) -> (action:
        DriverAction)
        ensures
            *final(self) == next_driver(*old(self), input@),
            action@ == action_for(*old(self), input@),
            final(registry)@ == next_registry(*old(self), input@, old(registry)@),
    {
        match self.state {
            BootstrapState::Closed | BootstrapState::Failed => DriverAction::Stop,
            BootstrapState::Opening => match input {
                DriverInput::PortOpened => {
                    self.state = BootstrapState::EchoOff;
                    self.last_error_code = 0;
                    DriverAction::Send(ATE0)
                },
                DriverInput::OpenFailed => {
                    self.state = BootstrapState::Failed;
                    DriverAction::Stop
                },
                DriverInput::CommandsClosed => {
                    self.state = BootstrapState::Closed;
                    DriverAction::Stop
                },
                _ => DriverAction::Wait,
            },
            _ => match input {
                DriverInput::Response { response, now } => self.handle_response(
                    registry,
                    response,
                    now,
                ),
                DriverInput::EndOfStream | DriverInput::CommandsClosed => {
                    self.state = BootstrapState::Closed;
                    DriverAction::Stop
                },
                DriverInput::ReadFailed => {
                    self.state = BootstrapState::Failed;
                    DriverAction::Stop
                },
                DriverInput::Command(command) => DriverAction::Send(command.wire_text()),
                _ => DriverAction::Wait,
            },
        }
    }
}

/// How many bootstrap commands were sent when the driver stands in
/// `state`, for the states before the end.
pub open spec fn progress(state: BootstrapState) -> nat {
    match state {
        BootstrapState::Opening => 0,
        BootstrapState::EchoOff => 1,
        BootstrapState::VerboseOn => 2,
        _ => 3,
    }
}

/// Whether the driver has come to its end in `state`.
pub open spec fn is_terminal(state: BootstrapState) -> bool {
    state is Closed || state is Failed
}

/// The three commands of the bootstrap, in the order in which they go out.
pub open spec fn bootstrap_commands() -> Seq<Seq<char>> {
    seq![ATE0@, ATV1@, AT_FINDSCANDATA@]
}

/// Whether the input `input` moves the driver `d` one step on in its
/// bootstrap: the port opens, or the command it waits on is confirmed.
pub open spec fn advances(d: Driver, input: InputView) -> bool {
    match d.state {
        BootstrapState::Opening => input is PortOpened,
        BootstrapState::EchoOff | BootstrapState::VerboseOn => input matches InputView::Response {
            response,
            ..
        } && confirms(d, response),
        _ => false,
    }
}

/// The driver `d` after the inputs `inputs`, in order.
pub open spec fn run(d: Driver, inputs: Seq<InputView>) -> Driver
    decreases inputs.len(),
{
    if inputs.len() == 0 {
        d
    } else {
        run(next_driver(d, inputs[0]), inputs.drop_first())
    }
}

/// What the driver `d` asks for, input by input, on the inputs `inputs`.
pub open spec fn actions(d: Driver, inputs: Seq<InputView>) -> Seq<ActionView>
    decreases inputs.len(),
{
    if inputs.len() == 0 {
        Seq::empty()
    } else {
        seq![action_for(d, inputs[0])] + actions(next_driver(d, inputs[0]), inputs.drop_first())
    }
}

/// The commands that the driver `d` sends on the inputs `inputs` because
/// its bootstrap moved on, in order.
pub open spec fn bootstrap_sends(d: Driver, inputs: Seq<InputView>) -> Seq<Seq<char>>
    decreases inputs.len(),
{
    if inputs.len() == 0 {
        Seq::empty()
    } else if advances(d, inputs[0]) {
        seq![entry_command(following(d.state))] + bootstrap_sends(
            next_driver(d, inputs[0]),
            inputs.drop_first(),
        )
    } else {
        bootstrap_sends(next_driver(d, inputs[0]), inputs.drop_first())
    }
}

/// One input moves the bootstrap on by one state or not at all. It moves
/// on exactly where the input advances the driver, and the driver then
/// asks for the command of the state it enters.
pub proof fn lemma_one_step(d: Driver, input: InputView)
    requires
        !is_terminal(d.state),
    ensures
        advances(d, input) ==> next_driver(d, input).state == following(d.state) && progress(
            next_driver(d, input).state,
        ) == progress(d.state) + 1 && action_for(d, input) == ActionView::Send(
            entry_command(following(d.state)),
        ),
        !advances(d, input) ==> next_driver(d, input).state == d.state || is_terminal(
            next_driver(d, input).state,
        ),
        is_terminal(next_driver(d, input).state) <==> action_for(d, input) is Stop,
{
}

/// A driver that has come to its end stays there and asks to stop.
pub proof fn lemma_terminal_stays(d: Driver, input: InputView)
    requires
        is_terminal(d.state),
    ensures
        next_driver(d, input) == d,
        action_for(d, input) is Stop,
{
}

/// Along any run that has not come to its end, the bootstrap commands
/// went out in their order, each once: what was sent between two states is
/// the stretch of the three commands between them.
pub proof fn lemma_bootstrap_order(d: Driver, inputs: Seq<InputView>)
    requires
        !is_terminal(d.state),
        !is_terminal(run(d, inputs).state),
    ensures
        progress(d.state) <= progress(run(d, inputs).state),
        bootstrap_sends(d, inputs) == bootstrap_commands().subrange(
            progress(d.state) as int,
            progress(run(d, inputs).state) as int,
        ),
    decreases inputs.len(),
{
    if inputs.len() == 0 {
        assert(bootstrap_sends(d, inputs) =~= bootstrap_commands().subrange(
            progress(d.state) as int,
            progress(d.state) as int,
        ));
    } else {
        let next = next_driver(d, inputs[0]);
        let rest = inputs.drop_first();
        if is_terminal(next.state) {
            lemma_run_terminal(next, rest);
        } else {
            lemma_one_step(d, inputs[0]);
            lemma_bootstrap_order(next, rest);
            let from = progress(d.state) as int;
            let to = progress(run(d, inputs).state) as int;
            if advances(d, inputs[0]) {
                assert(seq![entry_command(following(d.state))]
                    + bootstrap_commands().subrange(from + 1, to)
                    =~= bootstrap_commands().subrange(from, to));
            }
        }
    }
}

/// The action on the input at `index` of a run is the one that the
/// driver asks for in the state it has reached by then.
pub proof fn lemma_action_at(d: Driver, inputs: Seq<InputView>, index: int)
    requires
        0 <= index < inputs.len(),
    ensures
        actions(d, inputs).len() == inputs.len(),
        actions(d, inputs)[index] == action_for(run(d, inputs.take(index)), inputs[index]),
    decreases inputs.len(),
{
    lemma_actions_len(d, inputs);
    let rest = inputs.drop_first();
    if index == 0 {
        assert(inputs.take(0) =~= Seq::<InputView>::empty());
    } else {
        lemma_action_at(next_driver(d, inputs[0]), rest, index - 1);
        assert(inputs.take(index).drop_first() =~= rest.take(index - 1));
        assert(inputs.take(index)[0] == inputs[0]);
    }
}

/// A run gives one action for each input.
pub proof fn lemma_actions_len(d: Driver, inputs: Seq<InputView>)
    ensures
        actions(d, inputs).len() == inputs.len(),
    decreases inputs.len(),
{
    if inputs.len() > 0 {
        lemma_actions_len(next_driver(d, inputs[0]), inputs.drop_first());
    }
}

/// A command that reaches a live driver is sent at once, and leaves the
/// driver as it was; so commands go out in the order in which they come.
/// In a run, the action on every command that finds the driver live is to
/// send that command.
pub proof fn lemma_commands_in_order(d: Driver, inputs: Seq<InputView>, index: int)
    requires
        0 <= index < inputs.len(),
        inputs[index] is Command,
        is_live(run(d, inputs.take(index)).state),
    ensures
        actions(d, inputs)[index] == ActionView::Send(inputs[index]->Command_0.spec_wire_text()),
        run(d, inputs.take(index + 1)) == run(d, inputs.take(index)),
{
    lemma_action_at(d, inputs, index);
    lemma_run_push(d, inputs.take(index), inputs[index]);
    assert(inputs.take(index + 1) =~= inputs.take(index).push(inputs[index]));
}

/// Running one more input is one more step from where the run ended.
pub proof fn lemma_run_push(d: Driver, inputs: Seq<InputView>, last: InputView)
    ensures
        run(d, inputs.push(last)) == next_driver(run(d, inputs), last),
    decreases inputs.len(),
{
    let longer = inputs.push(last);
    if inputs.len() == 0 {
        assert(longer.drop_first() =~= inputs);
        assert(longer[0] == last);
        assert(run(next_driver(d, last), longer.drop_first()) == next_driver(d, last));
    } else {
        lemma_run_push(next_driver(d, inputs[0]), inputs.drop_first(), last);
        assert(longer.drop_first() =~= inputs.drop_first().push(last));
        assert(longer[0] == inputs[0]);
    }
}

/// A run that starts at the end stays at the end.
pub proof fn lemma_run_terminal(d: Driver, inputs: Seq<InputView>)
    requires
        is_terminal(d.state),
    ensures
        run(d, inputs) == d,
    decreases inputs.len(),
{
    if inputs.len() > 0 {
        lemma_run_terminal(next_driver(d, inputs[0]), inputs.drop_first());
    }
}

/// A driver whose port opens and whose first two commands are confirmed,
/// each by an end of response without error or by its plain line, scans
/// after these three inputs, and has asked for exactly the three bootstrap
/// commands, in order.
pub proof fn lemma_bootstrap_reaches_scanning(first: InputView, second: InputView)
    requires
        advances(next_driver(Driver::initial(), InputView::PortOpened), first),
        advances(
            next_driver(next_driver(Driver::initial(), InputView::PortOpened), first),
            second,
        ),
    ensures
        run(Driver::initial(), seq![InputView::PortOpened, first, second]).state
            == BootstrapState::Scanning,
        actions(Driver::initial(), seq![InputView::PortOpened, first, second]) == seq![
            ActionView::Send(ATE0@),
            ActionView::Send(ATV1@),
            ActionView::Send(AT_FINDSCANDATA@),
        ],
{
    let inputs = seq![InputView::PortOpened, first, second];
    let d0 = Driver::initial();
    let d1 = next_driver(d0, InputView::PortOpened);
    let d2 = next_driver(d1, first);
    let d3 = next_driver(d2, second);
    let tail1 = inputs.drop_first();
    let tail2 = tail1.drop_first();
    let tail3 = tail2.drop_first();
    assert(tail1[0] == first);
    assert(tail2[0] == second);
    assert(tail3.len() == 0);
    assert(run(d3, tail3) == d3);
    assert(run(d2, tail2) == d3);
    assert(run(d1, tail1) == d3);
    assert(actions(d3, tail3) =~= Seq::<ActionView>::empty());
    assert(actions(d2, tail2) =~= seq![ActionView::Send(AT_FINDSCANDATA@)]);
    assert(actions(d1, tail1) =~= seq![
        ActionView::Send(ATV1@),
        ActionView::Send(AT_FINDSCANDATA@),
    ]);
    assert(actions(d0, inputs) =~= seq![
        ActionView::Send(ATE0@),
        ActionView::Send(ATV1@),
        ActionView::Send(AT_FINDSCANDATA@),
    ]);
}

} // verus!
