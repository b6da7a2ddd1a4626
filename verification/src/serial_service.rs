//! What is exchanged with the port actor: the configuration of a port, the
//! commands it takes, the events it reports, and the ports that can be opened.

use crate::line_ending::LineEnding;
use vstd::prelude::*;

verus! {

/// Number of data bits per character.
#[derive(Debug, Clone, Copy, PartialEq, Eq, Structural)]
pub enum DataBits {
    Five,
    Six,
    Seven,
    Eight,
}

/// Parity checking mode.
#[derive(Debug, Clone, Copy, PartialEq, Eq, Structural)]
pub enum Parity {
    NoParity,
    Odd,
    Even,
}

/// Number of stop bits.
#[derive(Debug, Clone, Copy, PartialEq, Eq, Structural)]
pub enum StopBits {
    One,
    Two,
}

/// Flow control mode.
#[derive(Debug, Clone, Copy, PartialEq, Eq, Structural)]
pub enum FlowControl {
    NoFlowControl,
    Software,
    Hardware,
}

/// How a port is to be opened. It is handed to the operating system as it
/// is, without validation.
#[derive(Debug, Clone)]
pub struct SerialConfig {
    pub port_name: String,
    pub baud_rate: u32,
    pub data_bits: DataBits,
    pub parity: Parity,
    pub stop_bits: StopBits,
    pub flow_control: FlowControl,
    pub line_ending: LineEnding,
}

impl Default for SerialConfig {
    /// No port, 115200 baud, eight data bits, no parity, one stop bit, no
    /// flow control, lines ended by a line feed.
    fn default() -> (config: Self)
        ensures
            config.port_name@ == Seq::<char>::empty(),
            config.baud_rate == 115_200,
            config.data_bits == DataBits::Eight,
            config.parity == Parity::NoParity,
            config.stop_bits == StopBits::One,
            config.flow_control == FlowControl::NoFlowControl,
            config.line_ending == LineEnding::LF,
    {
        SerialConfig {
            port_name: String::new(),
            baud_rate: 115_200,
            data_bits: DataBits::Eight,
            parity: Parity::NoParity,
            stop_bits: StopBits::One,
            flow_control: FlowControl::NoFlowControl,
            line_ending: LineEnding::LF,
        }
    }
}

/// The states of the four modem-control input lines.
#[derive(Debug, Clone, Copy, PartialEq, Eq, Structural)]
pub struct PinStates {
    pub cts: bool,
    pub dsr: bool,
    pub dcd: bool,
    pub ri: bool,
}

/// What a caller asks of the actor.
#[derive(Debug, Clone)]
pub enum Command {
    Send(Vec<u8>),
    Close,
    SetDtr(bool),
    SetRts(bool),
    GetPinStates,
}

/// What a command holds.
pub enum CommandModel {
    Send(Seq<u8>),
    Close,
    SetDtr(bool),
    SetRts(bool),
    GetPinStates,
}

impl View for Command {
    type V = CommandModel;

    open spec fn view(&self) -> CommandModel {
        match *self {
            Command::Send(data) => CommandModel::Send(data@),
            Command::Close => CommandModel::Close,
            Command::SetDtr(state) => CommandModel::SetDtr(state),
            Command::SetRts(state) => CommandModel::SetRts(state),
            Command::GetPinStates => CommandModel::GetPinStates,
        }
    }
}

/// What the actor reports.
#[derive(Debug, Clone)]
pub enum SerialEvent {
    Rx(Vec<u8>),
    Tx(usize),
    Opened(String),
    Closed,
    Error(String),
    PinStates(PinStates),
}

/// What an event holds.
pub enum EventModel {
    Rx(Seq<u8>),
    Tx(usize),
    Opened(Seq<char>),
    Closed,
    Error(Seq<char>),
    PinStates(PinStates),
}

impl View for SerialEvent {
    type V = EventModel;

    open spec fn view(&self) -> EventModel {
        match *self {
            SerialEvent::Rx(data) => EventModel::Rx(data@),
            SerialEvent::Tx(count) => EventModel::Tx(count),
            SerialEvent::Opened(name) => EventModel::Opened(name@),
            SerialEvent::Closed => EventModel::Closed,
            SerialEvent::Error(message) => EventModel::Error(message@),
            SerialEvent::PinStates(pins) => EventModel::PinStates(pins),
        }
    }
}

impl DeepView for SerialEvent {
    type V = EventModel;

    open spec fn deep_view(&self) -> EventModel {
        self@
    }
}

/// How a port is attached, as port discovery reports it.
#[derive(Debug, Clone)]
pub enum PortKind {
    Usb(UsbDetails),
    Pci,
    Bluetooth,
    Unknown,
}

/// What discovery tells of a USB device.
#[derive(Debug, Clone)]
pub struct UsbDetails {
    pub vid: u16,
    pub pid: u16,
    pub serial_number: Option<String>,
    pub manufacturer: Option<String>,
    pub product: Option<String>,
}

/// A port as port discovery reports it.
#[derive(Debug, Clone)]
pub struct DiscoveredPort {
    pub port_name: String,
    pub kind: PortKind,
}

/// A port that can be opened, described for display.
#[derive(Debug, Clone)]
pub struct PortInfo {
    pub port_name: String,
    pub port_type: String,
    pub vid: Option<u16>,
    pub pid: Option<u16>,
    pub serial_number: Option<String>,
    pub manufacturer: Option<String>,
    pub product: Option<String>,
}

/// What a `PortInfo` holds.
pub struct PortInfoModel {
    pub port_name: Seq<char>,
    pub port_type: Seq<char>,
    pub vid: Option<u16>,
    pub pid: Option<u16>,
    pub serial_number: Option<Seq<char>>,
    pub manufacturer: Option<Seq<char>>,
    pub product: Option<Seq<char>>,
}

/// The text of an optional string.
pub open spec fn text_of(value: Option<String>) -> Option<Seq<char>> {
    match value {
        Some(text) => Some(text@),
        None => None,
    }
}

impl View for PortInfo {
    type V = PortInfoModel;

    open spec fn view(&self) -> PortInfoModel {
        PortInfoModel {
            port_name: self.port_name@,
            port_type: self.port_type@,
            vid: self.vid,
            pid: self.pid,
            serial_number: text_of(self.serial_number),
            manufacturer: text_of(self.manufacturer),
            product: text_of(self.product),
        }
    }
}

/// The description of a discovered port: its name, the name of its bus, and
/// for a USB device what discovery told of it.
pub open spec fn described(port: DiscoveredPort) -> PortInfoModel {
    match port.kind {
        PortKind::Usb(usb) => PortInfoModel {
            port_name: port.port_name@,
            port_type: "USB"@,
            vid: Some(usb.vid),
            pid: Some(usb.pid),
            serial_number: text_of(usb.serial_number),
            manufacturer: text_of(usb.manufacturer),
            product: text_of(usb.product),
        },
        PortKind::Pci => PortInfoModel {
            port_name: port.port_name@,
            port_type: "PCI"@,
            vid: None,
            pid: None,
            serial_number: None,
            manufacturer: None,
            product: None,
        },
        PortKind::Bluetooth => PortInfoModel {
            port_name: port.port_name@,
            port_type: "Bluetooth"@,
            vid: None,
            pid: None,
            serial_number: None,
            manufacturer: None,
            product: None,
        },
        PortKind::Unknown => PortInfoModel {
            port_name: port.port_name@,
            port_type: "Unknown"@,
            vid: None,
            pid: None,
            serial_number: None,
            manufacturer: None,
            product: None,
        },
    }
}

impl PortInfo {
    /// Describes a discovered port.
    pub fn from(port: DiscoveredPort) -> (info: PortInfo)
        ensures
            info@ == described(port),
    {
        let DiscoveredPort { port_name, kind } = port;
        match kind {
            PortKind::Usb(usb) => PortInfo {
                port_name,
                port_type: "USB".to_owned(),
                vid: Some(usb.vid),
                pid: Some(usb.pid),
                serial_number: usb.serial_number,
                manufacturer: usb.manufacturer,
                product: usb.product,
            },
            PortKind::Pci => PortInfo {
                port_name,
                port_type: "PCI".to_owned(),
                vid: None,
                pid: None,
                serial_number: None,
                manufacturer: None,
                product: None,
            },
            PortKind::Bluetooth => PortInfo {
                port_name,
                port_type: "Bluetooth".to_owned(),
                vid: None,
                pid: None,
                serial_number: None,
                manufacturer: None,
                product: None,
            },
            PortKind::Unknown => PortInfo {
                port_name,
                port_type: "Unknown".to_owned(),
                vid: None,
                pid: None,
                serial_number: None,
                manufacturer: None,
                product: None,
            },
        }
    }
}

/// Describes every discovered port, in the order of discovery.
pub fn describe_ports(ports: Vec<DiscoveredPort>) -> (infos: Vec<PortInfo>)
    ensures
        infos@.len() == ports@.len(),
        forall|i: int| 0 <= i < ports@.len() ==> (#[trigger] infos@[i])@ == described(ports@[i]),
{
    let mut infos: Vec<PortInfo> = Vec::new();
    let ghost all = ports@;
    for port in it: ports
        invariant
            it.seq() == all,
            infos@.len() == it.index(),
            forall|j: int| 0 <= j < it.index() ==> (#[trigger] infos@[j])@ == described(all[j]),
    {
        infos.push(PortInfo::from(port));
    }
    infos
}

} // verus!
