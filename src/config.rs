use vstd::prelude::*;

verus! {

/// How a sink is reached: a command line to spawn, or an address to listen
/// on for TCP or WebSocket clients. Channels that name equal links share one sink.
#[derive(Debug, Clone, Eq, Hash)]
pub enum LinkKind {
    Command(String),
    Tcp(String),
    WebSocket(String),
}

/// Whether two links name the same sink.
pub open spec fn same_link(a: LinkKind, b: LinkKind) -> bool {
    match (a, b) {
        (LinkKind::Command(x), LinkKind::Command(y)) => x@ == y@,
        (LinkKind::Tcp(x), LinkKind::Tcp(y)) => x@ == y@,
        (LinkKind::WebSocket(x), LinkKind::WebSocket(y)) => x@ == y@,
        _ => false,
    }
}

impl PartialEq for LinkKind {
    fn eq(&self, other: &LinkKind) -> (r: bool) {
        match (self, other) {
            (LinkKind::Command(x), LinkKind::Command(y)) => *x == *y,
            (LinkKind::Tcp(x), LinkKind::Tcp(y)) => *x == *y,
            (LinkKind::WebSocket(x), LinkKind::WebSocket(y)) => *x == *y,
            _ => false,
        }
    }
}

impl vstd::std_specs::cmp::PartialEqSpecImpl for LinkKind {
    open spec fn obeys_eq_spec() -> bool {
        true
    }

    open spec fn eq_spec(&self, other: &LinkKind) -> bool {
        same_link(*self, *other)
    }
}

/// How the bytes of an RTT up-channel are turned into values.
#[derive(Debug, Clone, Copy, PartialEq, Eq, Structural)]
pub enum RttMode {
    Raw,
    String { timestamps: bool },
    StringJson,
    Defmt,
    DefmtJson,
}

/// How ITM data is turned into values.
#[derive(Debug, Clone, Copy, PartialEq, Eq, Structural)]
pub enum ItmMode {
    Raw,
    String { timestamps: bool },
    DecodedJson,
}

/// One source of telemetry on the target.
#[derive(Debug, Clone, Copy, PartialEq, Eq, Structural)]
pub enum ChannelKind {
    Rtt { up: usize, down: usize, mode: RttMode },
    Itm { mode: ItmMode },
}

/// A logical telemetry channel: what to read, and the sink it goes to.
#[derive(Debug, Clone)]
pub struct Channel {
    pub kinds: Vec<ChannelKind>,
    pub link: LinkKind,
}

impl Channel {
    /// The sources of this channel.
    pub fn kinds(&self) -> (r: &Vec<ChannelKind>)
        ensures
            r@ == self.kinds@,
    {
        &self.kinds
    }

    /// The sink this channel goes to.
    pub fn link(&self) -> (r: &LinkKind)
        ensures
            *r == self.link,
    {
        &self.link
    }
}

/// Flashing options.
#[derive(Debug, Clone)]
pub struct Flashing {
    pub enabled: Option<bool>,
    pub restore_unwritten_bytes: Option<bool>,
    pub flash_layout_output_path: Option<String>,
    pub do_chip_erase: Option<bool>,
}

impl Flashing {
    /// Flashing is on when asked for, or, when not said, as soon as any
    /// flashing option is given.
    pub fn enabled(&self) -> (r: bool)
        ensures
            r == match self.enabled {
                Some(e) => e,
                None => self.restore_unwritten_bytes is Some
                    || self.flash_layout_output_path is Some || self.do_chip_erase is Some,
            },
    {
        match self.enabled {
            Some(enabled) => enabled,
            None => self.restore_unwritten_bytes.is_some()
                || self.flash_layout_output_path.is_some() || self.do_chip_erase.is_some(),
        }
    }

    /// Whether bytes of a flash sector that the image leaves out are kept; off unless set.
    pub fn restore_unwritten_bytes(&self) -> (r: bool)
        ensures
            r == (self.restore_unwritten_bytes == Some(true)),
    {
        match self.restore_unwritten_bytes {
            Some(b) => b,
            None => false,
        }
    }

    /// Where to write the flash layout, if anywhere.
    pub fn flash_layout_output_path(&self) -> (r: &Option<String>)
        ensures
            *r == self.flash_layout_output_path,
    {
        &self.flash_layout_output_path
    }

    /// Whether the whole chip is erased before flashing; off unless set.
    pub fn do_chip_erase(&self) -> (r: bool)
        ensures
            r == (self.do_chip_erase == Some(true)),
    {
        match self.do_chip_erase {
            Some(b) => b,
            None => false,
        }
    }
}

/// Reset options.
#[derive(Debug, Clone, Copy)]
pub struct Reset {
    pub enabled: Option<bool>,
    pub halt_afterwards: Option<bool>,
}

impl Reset {
    /// Reset is on when asked for, or, when not said, as soon as
    /// `halt_afterwards` is given.
    pub fn enabled(&self) -> (r: bool)
        ensures
            r == match self.enabled {
                Some(e) => e,
                None => self.halt_afterwards is Some,
            },
    {
        match self.enabled {
            Some(enabled) => enabled,
            None => self.halt_afterwards.is_some(),
        }
    }

    /// Whether the core is halted after the reset; off unless set.
    pub fn halt_afterwards(&self) -> (r: bool)
        ensures
            r == (self.halt_afterwards == Some(true)),
    {
        match self.halt_afterwards {
            Some(b) => b,
            None => false,
        }
    }
}

/// GDB stub options.
#[derive(Debug, Clone)]
pub struct Gdb {
    pub enabled: Option<bool>,
    pub socket: Option<String>,
}

impl Gdb {
    /// The stub runs when asked for, or, when not said, as soon as a socket is given.
    pub fn enabled(&self) -> (r: bool)
        ensures
            r == match self.enabled {
                Some(e) => e,
                None => self.socket is Some,
            },
    {
        match self.enabled {
            Some(enabled) => enabled,
            None => self.socket.is_some(),
        }
    }

    /// The address the stub listens on, if one is given.
    pub fn socket(&self) -> (r: &Option<String>)
        ensures
            *r == self.socket,
    {
        &self.socket
    }
}

/// The address the GDB stub listens on unless another is given.
pub const DEFAULT_GDB_LINK: &'static str = "127.0.0.1:1337";

/// The address for the GDB stub: the configured socket, else the default one.
pub fn gdb_link(socket: &Option<String>) -> (r: String)
    ensures
        r@ == match socket {
            Some(s) => s@,
            None => DEFAULT_GDB_LINK@,
        },
{
    match socket {
        Some(s) => s.clone(),
        None => DEFAULT_GDB_LINK.to_owned(),
    }
}

/// Telemetry options: which channels to stream, and where.
#[derive(Debug, Clone)]
pub struct Logging {
    pub enabled: Option<bool>,
    pub channels: Vec<Channel>,
}

impl Logging {
    /// Telemetry runs when asked for, or, when not said, as soon as a channel is configured.
    pub fn enabled(&self) -> (r: bool)
        ensures
            r == match self.enabled {
                Some(e) => e,
                None => self.channels@.len() > 0,
            },
    {
        match self.enabled {
            Some(enabled) => enabled,
            None => self.channels.len() > 0,
        }
    }

    /// The configured channels.
    pub fn channels(&self) -> (r: &Vec<Channel>)
        ensures
            r@ == self.channels@,
    {
        &self.channels
    }
}

/// `log::Level`, the log level, carried through unopened.
#[verifier::external_type_specification]
#[verifier::external_body]
pub struct ExLevel(log::Level);

/// Relies on `log::Level`'s `Clone`, which copies the level.
pub assume_specification[ <log::Level as Clone>::clone ](level: &log::Level) -> (r: log::Level)
    ensures
        r == *level,
;

/// Where the contents of a plain binary image go.
#[derive(Debug, Clone, Copy, PartialEq, Eq, Structural)]
pub struct BinOptions {
    /// The address in flash of the first byte kept.
    pub base_address: Option<u32>,
    /// How many bytes at the start of the file are left out.
    pub skip: u32,
}

/// The format of an image to flash.
#[derive(Debug, Clone, Copy, PartialEq, Eq, Structural)]
pub enum Format {
    Bin(BinOptions),
    Hex,
    Elf,
}

/// The wire protocol between probe and target.
#[derive(Debug, Clone, Copy, PartialEq, Eq, Structural)]
pub enum WireProtocol {
    Swd,
    Jtag,
}

/// Names one debug probe by its USB identity.
#[derive(Debug, Clone)]
pub struct DebugProbeSelector {
    pub vendor_id: u16,
    pub product_id: u16,
    pub serial_number: Option<String>,
}

/// Probe options.
#[derive(Debug, Clone)]
pub struct Probe {
    pub selector: Option<DebugProbeSelector>,
    pub usb_vid: Option<String>,
    pub usb_pid: Option<String>,
    pub serial: Option<String>,
    pub protocol: Option<WireProtocol>,
    pub speed: Option<u32>,
}

impl Probe {
    /// The USB vendor id, as hexadecimal text.
    pub fn usb_vid(&self) -> (r: &Option<String>)
        ensures
            *r == self.usb_vid,
    {
        &self.usb_vid
    }

    /// The USB product id, as hexadecimal text.
    pub fn usb_pid(&self) -> (r: &Option<String>)
        ensures
            *r == self.usb_pid,
    {
        &self.usb_pid
    }

    /// The probe's serial number.
    pub fn serial(&self) -> (r: &Option<String>)
        ensures
            *r == self.serial,
    {
        &self.serial
    }

    /// The wire protocol; SWD unless set.
    pub fn protocol(&self) -> (r: WireProtocol)
        ensures
            r == match self.protocol {
                Some(p) => p,
                None => WireProtocol::Swd,
            },
    {
        match self.protocol {
            Some(p) => p,
            None => WireProtocol::Swd,
        }
    }

    /// The protocol speed in kHz, if set.
    pub fn speed(&self) -> (r: Option<u32>)
        ensures
            r == self.speed,
    {
        self.speed
    }

    /// The probe selector, if set.
    pub fn selector(&self) -> (r: &Option<DebugProbeSelector>)
        ensures
            *r == self.selector,
    {
        &self.selector
    }
}

/// General options.
#[derive(Debug, Clone)]
pub struct General {
    pub chip: Option<String>,
    pub chip_descriptions: Vec<String>,
    pub log_level: log::Level,
    pub derives: Option<String>,
    /// Whether reset is asserted while attaching to the chip.
    pub connect_under_reset: bool,
    pub file: Option<String>,
    pub format: Format,
    pub format_base_address: Option<u32>,
    pub format_skip: Option<u32>,
    pub work_dir: Option<String>,
}

impl General {
    /// The chip to use, if set.
    pub fn chip(&self) -> (r: &Option<String>)
        ensures
            *r == self.chip,
    {
        &self.chip
    }

    /// Paths of extra chip descriptions to load.
    pub fn chip_descriptions(&self) -> (r: &Vec<String>)
        ensures
            r@ == self.chip_descriptions@,
    {
        &self.chip_descriptions
    }

    /// The log level.
    pub fn log_level(&self) -> (r: log::Level)
        ensures
            r == self.log_level,
    {
        self.log_level
    }

    /// Whether reset is asserted while attaching.
    pub fn connect_under_reset(&self) -> (r: bool)
        ensures
            r == self.connect_under_reset,
    {
        self.connect_under_reset
    }

    /// The image to flash, if given instead of a build artifact.
    pub fn file(&self) -> (r: &Option<String>)
        ensures
            *r == self.file,
    {
        &self.file
    }

    /// The format of the image given by `file`.
    pub fn format(&self) -> (r: Format)
        ensures
            r == self.format,
    {
        self.format
    }

    /// Where a plain binary image goes in flash.
    pub fn format_base_address(&self) -> (r: Option<u32>)
        ensures
            r == self.format_base_address,
    {
        self.format_base_address
    }

    /// How many leading bytes of a plain binary image are left out.
    pub fn format_skip(&self) -> (r: Option<u32>)
        ensures
            r == self.format_skip,
    {
        self.format_skip
    }

    /// The directory to work from, if set.
    pub fn work_dir(&self) -> (r: &Option<String>)
        ensures
            *r == self.work_dir,
    {
        &self.work_dir
    }

    /// The format of the image to flash: a given file in its configured
    /// format, a plain binary one placed by the base address and skip
    /// options (skipping nothing unless set); a build artifact is an ELF image.
    pub fn image_format(&self) -> (r: Format)
        ensures
            r == match self.file {
                Some(_) => match self.format {
                    Format::Bin(_) => Format::Bin(
                        BinOptions {
                            base_address: self.format_base_address,
                            skip: match self.format_skip {
                                Some(s) => s,
                                None => 0,
                            },
                        },
                    ),
                    f => f,
                },
                None => Format::Elf,
            },
    {
        match self.file {
            Some(_) => match self.format {
                Format::Bin(_) => Format::Bin(
                    BinOptions {
                        base_address: self.format_base_address,
                        skip: match self.format_skip {
                            Some(s) => s,
                            None => 0,
                        },
                    },
                ),
                f => f,
            },
            None => Format::Elf,
        }
    }
}

/// All the options of one run.
#[derive(Debug, Clone)]
pub struct Config {
    pub general: General,
    pub flashing: Flashing,
    pub reset: Reset,
    pub probe: Probe,
    pub gdb: Gdb,
    pub logging: Logging,
    pub version: bool,
    pub list_chips: bool,
    pub list_probes: bool,
    pub disable_progressbars: bool,
    pub dry_run: bool,
    pub bin: Option<String>,
    pub example: Option<String>,
    pub package: Option<String>,
    pub release: bool,
    pub target: Option<String>,
    pub manifest_path: Option<String>,
    pub no_default_features: bool,
    pub all_features: bool,
    pub features: Vec<String>,
}

impl Config {
    /// The general options.
    pub fn general(&self) -> (r: &General)
        ensures
            *r == self.general,
    {
        &self.general
    }

    /// The flashing options.
    pub fn flashing(&self) -> (r: &Flashing)
        ensures
            *r == self.flashing,
    {
        &self.flashing
    }

    /// The reset options.
    pub fn reset(&self) -> (r: &Reset)
        ensures
            *r == self.reset,
    {
        &self.reset
    }

    /// The probe options.
    pub fn probe(&self) -> (r: &Probe)
        ensures
            *r == self.probe,
    {
        &self.probe
    }

    /// The GDB stub options.
    pub fn gdb(&self) -> (r: &Gdb)
        ensures
            *r == self.gdb,
    {
        &self.gdb
    }

    /// The telemetry options.
    pub fn logging(&self) -> (r: &Logging)
        ensures
            *r == self.logging,
    {
        &self.logging
    }

    /// Whether only the version is shown.
    pub fn version(&self) -> (r: bool)
        ensures
            r == self.version,
    {
        self.version
    }

    /// Whether only the known chips are listed.
    pub fn list_chips(&self) -> (r: bool)
        ensures
            r == self.list_chips,
    {
        self.list_chips
    }

    /// Whether only the connected probes are listed.
    pub fn list_probes(&self) -> (r: bool)
        ensures
            r == self.list_probes,
    {
        self.list_probes
    }

    /// Whether progress bars are hidden.
    pub fn disable_progressbars(&self) -> (r: bool)
        ensures
            r == self.disable_progressbars,
    {
        self.disable_progressbars
    }

    /// Whether a simulated probe stands in for a real one.
    pub fn dry_run(&self) -> (r: bool)
        ensures
            r == self.dry_run,
    {
        self.dry_run
    }
}

} // verus!
