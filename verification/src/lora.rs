//! The decisions of a driver for a LoRa modem that is spoken to with AT
//! commands over a UART: what a response of the modem means for the request
//! that waits for it, and which commands a new configuration needs.

use crate::uart::Error;
use drogue_rak811::DriverError;
use vstd::prelude::*;

verus! {

/// How long the driver waits before it looks for a response again, in
/// milliseconds.
pub const RESPONSE_POLL_MILLIS: u32 = 100;

/// What ends every command line that is sent to the modem.
pub const COMMAND_END: &'static str = "\r\n";

/// Why a request to the modem failed.
#[derive(Clone, Copy, Debug, PartialEq, Eq, Structural)]
pub enum LoraError {
    WriteError,
    ReadError,
    NotInitialized,
    OtherError,
}

/// The frequency plan of a region.
#[derive(Clone, Copy, Debug, PartialEq, Eq, Structural)]
pub enum LoraRegion {
    EU868,
    US915,
    AU915,
    KR920,
    AS923,
    IN865,
    UNKNOWN,
}

/// Whether the modem joins a network or talks to a peer.
#[derive(Clone, Copy, Debug, PartialEq, Eq, Structural)]
pub enum LoraMode {
    WAN,
    P2P,
}

/// What the modem reports of an event.
#[derive(Clone, Copy, Debug, PartialEq, Eq, Structural)]
pub enum EventCode {
    RecvData,
    TxConfirmed,
    TxUnconfirmed,
    JoinedSuccess,
    JoinedFailed,
    TxTimeout,
    Rx2Timeout,
    DownlinkRepeated,
    WakeUp,
    P2PTxComplete,
    Unknown,
}

/// What the modem said, as far as the driver's decisions read it.
#[derive(Clone, Copy, Debug, PartialEq, Eq, Structural)]
pub enum Response {
    /// Nothing complete has arrived.
    Empty,
    /// The modem accepted the command.
    Okay,
    Error(i8),
    /// The modem has started, in this region.
    Initialized(LoraRegion),
    /// The modem reports an event.
    Recv(EventCode),
    /// Any other answer.
    Other,
}

/// The configuration of the modem. A field that is `None` is not known, or,
/// in a request, not to be changed.
#[derive(Clone, Copy, Debug, PartialEq, Eq)]
pub struct LoraConfig {
    pub band: Option<LoraRegion>,
    pub lora_mode: Option<LoraMode>,
    pub device_address: Option<[u8; 4]>,
    pub device_eui: Option<[u8; 8]>,
    pub app_eui: Option<[u8; 8]>,
    pub app_key: Option<[u8; 16]>,
}

/// A command that changes one field of the modem's configuration.
#[derive(Clone, Copy, Debug, PartialEq, Eq)]
pub enum ConfigCommand {
    SetBand(LoraRegion),
    SetMode(LoraMode),
    DevAddr([u8; 4]),
    DevEui([u8; 8]),
    AppEui([u8; 8]),
    AppKey([u8; 16]),
}

/// The kinds of failure of the modem's own driver.
#[derive(Clone, Copy, Debug, PartialEq, Eq, Structural)]
pub enum DriverFault {
    WriteError,
    ReadError,
    NotInitialized,
    UnexpectedResponse,
}

/// `drogue_rak811::DriverError`, carried as an opaque value.
#[verifier::external_type_specification]
#[verifier::external_body]
pub struct ExDriverError(DriverError);

/// Tells the variants of `drogue_rak811::DriverError` apart. Nothing is
/// claimed of which is which.
#[verifier::external_body]
fn driver_fault(error: DriverError) -> DriverFault {
    match error {
        DriverError::WriteError => DriverFault::WriteError,
        DriverError::ReadError => DriverFault::ReadError,
        DriverError::NotInitialized => DriverFault::NotInitialized,
        DriverError::UnexpectedResponse(_) => DriverFault::UnexpectedResponse,
    }
}

/// The error of a request that failed on the UART: a failed transmission is
/// a write error, a failed reception a read error.
pub open spec fn uart_failure(error: Error) -> LoraError {
    match error {
        Error::TxInProgress | Error::TxBufferTooSmall | Error::TxBufferTooLong | Error::Transmit =>
            LoraError::WriteError,
        Error::RxInProgress | Error::RxBufferTooSmall | Error::RxBufferTooLong | Error::Receive =>
            LoraError::ReadError,
    }
}

/// The error of a request that failed in the modem's driver.
pub open spec fn driver_failure(fault: DriverFault) -> LoraError {
    match fault {
        DriverFault::NotInitialized => LoraError::NotInitialized,
        DriverFault::WriteError => LoraError::WriteError,
        DriverFault::ReadError => LoraError::ReadError,
        DriverFault::UnexpectedResponse => LoraError::OtherError,
    }
}

impl LoraError {
    /// The error of a request that failed on the UART.
    pub fn from(error: Error) -> (r: LoraError)
        ensures
            r == uart_failure(error),
    {
        match error {
            Error::TxInProgress
            | Error::TxBufferTooSmall
            | Error::TxBufferTooLong
            | Error::Transmit => LoraError::WriteError,
            Error::RxInProgress
            | Error::RxBufferTooSmall
            | Error::RxBufferTooLong
            | Error::Receive => LoraError::ReadError,
        }
    }

    /// The error of a request that failed in the modem's driver with a
    /// failure of kind `fault`.
    pub fn from_fault(fault: DriverFault) -> (r: LoraError)
        ensures
            r == driver_failure(fault),
    {
        match fault {
            DriverFault::NotInitialized => LoraError::NotInitialized,
            DriverFault::WriteError => LoraError::WriteError,
            DriverFault::ReadError => LoraError::ReadError,
            DriverFault::UnexpectedResponse => LoraError::OtherError,
        }
    }

    /// The error of a request that failed in the modem's driver. Which kind
    /// of failure `error` is the driver says; the result is one of the four
    /// errors in any case.
    pub fn from_driver(error: DriverError) -> (r: LoraError)
        ensures
            exists|fault: DriverFault| r == driver_failure(fault),
    {
        let fault = driver_fault(error);
        LoraError::from_fault(fault)
    }
}

/// What a request gets that only wants the modem's `OK`: success on `OK`,
/// `OtherError` on any other answer, and the error itself if there was one.
pub open spec fn command_ok(response: Result<Response, LoraError>) -> Result<(), LoraError> {
    match response {
        Ok(Response::Okay) => Ok(()),
        Ok(_) => Err(LoraError::OtherError),
        Err(e) => Err(e),
    }
}

/// The region in which the modem says it has started, if it says so.
pub open spec fn started_in(response: Result<Response, LoraError>) -> Option<LoraRegion> {
    match response {
        Ok(Response::Initialized(band)) => Some(band),
        _ => None,
    }
}

/// What a join request gets: success if the command was accepted and the
/// modem then reports that it has joined, `OtherError` in every other case.
pub open spec fn joined(
    accepted: Result<(), LoraError>,
    response: Result<Response, LoraError>,
) -> Result<(), LoraError> {
    match (accepted, response) {
        (Ok(_), Ok(Response::Recv(EventCode::JoinedSuccess))) => Ok(()),
        _ => Err(LoraError::OtherError),
    }
}

/// The response that is queued for the request that waits: the one that was
/// parsed, unless parsing failed or nothing complete has arrived.
pub open spec fn digested(parsed: Result<Response, ()>) -> Option<Response> {
    match parsed {
        Ok(Response::Empty) => None,
        Ok(response) => Some(response),
        Err(_) => None,
    }
}

/// The command that sets the band, if one is needed: the request gives a
/// band and the modem has another or none.
pub open spec fn band_step(current: LoraConfig, requested: LoraConfig) -> Seq<ConfigCommand> {
    if requested.band is Some && current.band != requested.band {
        seq![ConfigCommand::SetBand(requested.band->Some_0)]
    } else {
        seq![]
    }
}

/// The command that sets the mode, if one is needed: the request gives a
/// mode and the modem has another or none.
pub open spec fn mode_step(current: LoraConfig, requested: LoraConfig) -> Seq<ConfigCommand> {
    if requested.lora_mode is Some && current.lora_mode != requested.lora_mode {
        seq![ConfigCommand::SetMode(requested.lora_mode->Some_0)]
    } else {
        seq![]
    }
}

/// The commands that set the address, the two identifiers and the key, each
/// if the request gives it.
pub open spec fn device_address_step(requested: LoraConfig) -> Seq<ConfigCommand> {
    match requested.device_address {
        Some(a) => seq![ConfigCommand::DevAddr(a)],
        None => seq![],
    }
}

pub open spec fn device_eui_step(requested: LoraConfig) -> Seq<ConfigCommand> {
    match requested.device_eui {
        Some(e) => seq![ConfigCommand::DevEui(e)],
        None => seq![],
    }
}

pub open spec fn app_eui_step(requested: LoraConfig) -> Seq<ConfigCommand> {
    match requested.app_eui {
        Some(e) => seq![ConfigCommand::AppEui(e)],
        None => seq![],
    }
}

pub open spec fn app_key_step(requested: LoraConfig) -> Seq<ConfigCommand> {
    match requested.app_key {
        Some(k) => seq![ConfigCommand::AppKey(k)],
        None => seq![],
    }
}

/// The commands that bring a modem with configuration `current` to what
/// `requested` asks for, in the order in which they are sent: the band and the
/// mode only if they differ from what the modem has, the address, the two
/// identifiers and the key whenever they are given.
pub open spec fn config_plan(current: LoraConfig, requested: LoraConfig) -> Seq<ConfigCommand> {
    band_step(current, requested) + mode_step(current, requested) + device_address_step(requested)
        + device_eui_step(requested) + app_eui_step(requested) + app_key_step(requested)
}

/// The configuration after the modem has accepted `command`.
pub open spec fn config_after(config: LoraConfig, command: ConfigCommand) -> LoraConfig {
    match command {
        ConfigCommand::SetBand(band) => LoraConfig { band: Some(band), ..config },
        ConfigCommand::SetMode(mode) => LoraConfig { lora_mode: Some(mode), ..config },
        ConfigCommand::DevAddr(a) => LoraConfig { device_address: Some(a), ..config },
        ConfigCommand::DevEui(e) => LoraConfig { device_eui: Some(e), ..config },
        ConfigCommand::AppEui(e) => LoraConfig { app_eui: Some(e), ..config },
        ConfigCommand::AppKey(k) => LoraConfig { app_key: Some(k), ..config },
    }
}

/// The configuration after the modem has accepted the commands of
/// `commands`, one after the other.
pub open spec fn config_after_all(
    config: LoraConfig,
    commands: Seq<ConfigCommand>,
) -> LoraConfig
    decreases commands.len(),
{
    if commands.len() == 0 {
        config
    } else {
        config_after(config_after_all(config, commands.drop_last()), commands.last())
    }
}

/// The configuration in which every field that `requested` gives replaces
/// that of `current`.
pub open spec fn merged(current: LoraConfig, requested: LoraConfig) -> LoraConfig {
    LoraConfig {
        band: if requested.band is Some {
            requested.band
        } else {
            current.band
        },
        lora_mode: if requested.lora_mode is Some {
            requested.lora_mode
        } else {
            current.lora_mode
        },
        device_address: if requested.device_address is Some {
            requested.device_address
        } else {
            current.device_address
        },
        device_eui: if requested.device_eui is Some {
            requested.device_eui
        } else {
            current.device_eui
        },
        app_eui: if requested.app_eui is Some {
            requested.app_eui
        } else {
            current.app_eui
        },
        app_key: if requested.app_key is Some {
            requested.app_key
        } else {
            current.app_key
        },
    }
}

fn same_band(a: Option<LoraRegion>, b: Option<LoraRegion>) -> (same: bool)
    ensures
        same == (a == b),
{
    match (a, b) {
        (Some(x), Some(y)) => x == y,
        (None, None) => true,
        _ => false,
    }
}

fn same_mode(a: Option<LoraMode>, b: Option<LoraMode>) -> (same: bool)
    ensures
        same == (a == b),
{
    match (a, b) {
        (Some(x), Some(y)) => x == y,
        (None, None) => true,
        _ => false,
    }
}

/// The configuration of which nothing is known.
pub open spec fn unknown_config() -> LoraConfig {
    LoraConfig {
        band: None,
        lora_mode: None,
        device_address: None,
        device_eui: None,
        app_eui: None,
        app_key: None,
    }
}

/// The side of the driver that sends commands and waits for responses.
pub struct Rak811Actor {
    config: LoraConfig,
}

impl Rak811Actor {
    /// What the driver knows of the modem's configuration.
    pub closed spec fn config(&self) -> LoraConfig {
        self.config
    }

    /// A driver that knows nothing of the modem's configuration yet.
    pub fn new() -> (actor: Self)
        ensures
            actor.config() == unknown_config(),
    {
        Self {
            config: LoraConfig {
                band: None,
                lora_mode: None,
                device_address: None,
                device_eui: None,
                app_eui: None,
                app_key: None,
            },
        }
    }

    pub fn current(&self) -> (config: LoraConfig)
        ensures
            config == self.config(),
    {
        self.config
    }

    /// What a request gets that only wants the modem's `OK`.
    pub fn send_command_ok(&self, response: Result<Response, LoraError>) -> (r: Result<
        (),
        LoraError,
    >)
        ensures
            r == command_ok(response),
    {
        match response {
            Ok(Response::Okay) => Ok(()),
            Ok(_) => Err(LoraError::OtherError),
            Err(e) => Err(e),
        }
    }

    /// Whether the driver has its response or looks again later: with a
    /// response there is nothing to wait for; without one it looks again
    /// after [`RESPONSE_POLL_MILLIS`].
    pub fn recv_response(&self, dequeued: Option<Response>) -> (r: Result<Response, u32>)
        ensures
            r == match dequeued {
                Some(response) => Ok::<Response, u32>(response),
                None => Err::<Response, u32>(RESPONSE_POLL_MILLIS),
            },
    {
        match dequeued {
            Some(response) => Ok(response),
            None => Err(RESPONSE_POLL_MILLIS),
        }
    }

    /// Takes in the modem's answer after a hardware reset: if it says that it
    /// has started, its region is noted; anything else means that it is not
    /// initialized.
    pub fn on_initialize(&mut self, response: Result<Response, LoraError>) -> (r: Result<
        (),
        LoraError,
    >)
        ensures
            match started_in(response) {
                Some(band) => r == Ok::<(), LoraError>(()) && final(self).config() == config_after(
                    old(self).config(),
                    ConfigCommand::SetBand(band),
                ),
                None => r == Err::<(), LoraError>(LoraError::NotInitialized) && final(
                    self).config() == old(self).config(),
            },
    {
        match response {
            Ok(Response::Initialized(band)) => {
                self.config.band = Some(band);
                Ok(())
            },
            _ => Err(LoraError::NotInitialized),
        }
    }

    /// Whether a reset command was accepted, so that the driver now waits for
    /// the modem to start.
    pub fn on_reset(&self, response: Result<Response, LoraError>) -> (r: Result<(), LoraError>)
        ensures
            r == command_ok(response),
    {
        self.send_command_ok(response)
    }

    /// What a join request gets, from the answer to the command and the event
    /// that the modem reports afterwards.
    pub fn on_join(
        &self,
        accepted: Result<(), LoraError>,
        response: Result<Response, LoraError>,
    ) -> (r: Result<(), LoraError>)
        ensures
            r == joined(accepted, response),
    {
        match accepted {
            Ok(_) => match response {
                Ok(Response::Recv(EventCode::JoinedSuccess)) => Ok(()),
                _ => Err(LoraError::OtherError),
            },
            _ => Err(LoraError::OtherError),
        }
    }

    /// The commands that the configuration `config` needs, in the order in
    /// which they are sent.
    pub fn apply_config(&self, config: &LoraConfig) -> (commands: Vec<ConfigCommand>)
        ensures
            commands@ == config_plan(self.config(), *config),
    {
        let mut commands: Vec<ConfigCommand> = Vec::new();
        if let Some(band) = config.band {
            if !same_band(self.config.band, config.band) {
                commands.push(ConfigCommand::SetBand(band));
            }
        }
        if let Some(lora_mode) = config.lora_mode {
            if !same_mode(self.config.lora_mode, config.lora_mode) {
                commands.push(ConfigCommand::SetMode(lora_mode));
            }
        }
        if let Some(device_address) = config.device_address {
            commands.push(ConfigCommand::DevAddr(device_address));
        }
        if let Some(device_eui) = config.device_eui {
            commands.push(ConfigCommand::DevEui(device_eui));
        }
        if let Some(app_eui) = config.app_eui {
            commands.push(ConfigCommand::AppEui(app_eui));
        }
        if let Some(app_key) = config.app_key {
            commands.push(ConfigCommand::AppKey(app_key));
        }
        assert(commands@ =~= config_plan(self.config(), *config));
        commands
    }

    /// Notes that the modem has accepted `command`.
    pub fn applied(&mut self, command: ConfigCommand)
        ensures
            final(self).config() == config_after(old(self).config(), command),
    {
        match command {
            ConfigCommand::SetBand(band) => {
                self.config.band = Some(band);
            },
            ConfigCommand::SetMode(mode) => {
                self.config.lora_mode = Some(mode);
            },
            ConfigCommand::DevAddr(a) => {
                self.config.device_address = Some(a);
            },
            ConfigCommand::DevEui(e) => {
                self.config.device_eui = Some(e);
            },
            ConfigCommand::AppEui(e) => {
                self.config.app_eui = Some(e);
            },
            ConfigCommand::AppKey(k) => {
                self.config.app_key = Some(k);
            },
        }
    }
}

/// The side of the driver that reads what the modem sends.
pub struct Rak811Ingress {}

impl Rak811Ingress {
    pub fn new() -> (ingress: Self) {
        Self {  }
    }

    /// The response to queue for the request that waits, from what parsing
    /// the received bytes gave.
    pub fn digest(&self, parsed: Result<Response, ()>) -> (queue: Option<Response>)
        ensures
            queue == digested(parsed),
    {
        match parsed {
            Ok(Response::Empty) => None,
            Ok(response) => Some(response),
            Err(_) => None,
        }
    }

    /// What follows when the response could not be queued because the queue
    /// was full: a read error.
    pub fn on_enqueue(&self, enqueued: Result<(), Response>) -> (r: Result<(), LoraError>)
        ensures
            r == match enqueued {
                Ok(_) => Ok::<(), LoraError>(()),
                Err(_) => Err::<(), LoraError>(LoraError::ReadError),
            },
    {
        match enqueued {
            Ok(_) => Ok(()),
            Err(_) => Err(LoraError::ReadError),
        }
    }
}

/// The driver: the side that sends commands and the side that reads what the
/// modem sends.
pub struct Rak811 {
    pub actor: Rak811Actor,
    pub ingress: Rak811Ingress,
}

impl Rak811 {
    /// A driver that knows nothing of the modem's configuration yet.
    pub fn new() -> (driver: Self)
        ensures
            driver.actor.config() == unknown_config(),
    {
        Self { actor: Rak811Actor::new(), ingress: Rak811Ingress::new() }
    }
}

/// Accepting the commands of two lists in a row is accepting those of the
/// first and then those of the second.
pub proof fn lemma_config_after_concat(
    config: LoraConfig,
    first: Seq<ConfigCommand>,
    second: Seq<ConfigCommand>,
)
    ensures
        config_after_all(config, first + second) == config_after_all(
            config_after_all(config, first),
            second,
        ),
    decreases second.len(),
{
    if second.len() == 0 {
        assert(first + second =~= first);
    } else {
        lemma_config_after_concat(config, first, second.drop_last());
        assert((first + second).drop_last() =~= first + second.drop_last());
    }
}

proof fn lemma_config_after_step(config: LoraConfig, step: Seq<ConfigCommand>)
    requires
        step.len() <= 1,
    ensures
        config_after_all(config, step) == if step.len() == 0 {
            config
        } else {
            config_after(config, step[0])
        },
{
    if step.len() == 1 {
        assert(step.drop_last().len() == 0);
        assert(config_after_all(config, step.drop_last()) == config);
        assert(step.last() == step[0]);
    }
}

/// When every command of the plan has been accepted, the modem has the
/// configuration that was asked for: each field that the request gives has
/// the requested value, and every other field is as it was.
pub proof fn lemma_plan_reaches_request(current: LoraConfig, requested: LoraConfig)
    ensures
        config_after_all(current, config_plan(current, requested)) == merged(current, requested),
{
    let s1 = band_step(current, requested);
    let s2 = mode_step(current, requested);
    let s3 = device_address_step(requested);
    let s4 = device_eui_step(requested);
    let s5 = app_eui_step(requested);
    let s6 = app_key_step(requested);
    let c1 = config_after_all(current, s1);
    let c2 = config_after_all(c1, s2);
    let c3 = config_after_all(c2, s3);
    let c4 = config_after_all(c3, s4);
    let c5 = config_after_all(c4, s5);
    let c6 = config_after_all(c5, s6);
    lemma_config_after_concat(current, s1, s2);
    lemma_config_after_concat(current, s1 + s2, s3);
    lemma_config_after_concat(current, s1 + s2 + s3, s4);
    lemma_config_after_concat(current, s1 + s2 + s3 + s4, s5);
    lemma_config_after_concat(current, s1 + s2 + s3 + s4 + s5, s6);
    lemma_config_after_step(current, s1);
    lemma_config_after_step(c1, s2);
    lemma_config_after_step(c2, s3);
    lemma_config_after_step(c3, s4);
    lemma_config_after_step(c4, s5);
    lemma_config_after_step(c5, s6);
    assert(c1.band == merged(current, requested).band);
    assert(c2.lora_mode == merged(current, requested).lora_mode);
    assert(c6 == merged(current, requested));
}

} // verus!
