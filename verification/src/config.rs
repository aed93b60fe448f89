//! Settings of the trace daemon, as its configuration file gives them.

use ini::configparser::ini::Ini;
use vstd::prelude::*;
use vstd::utf8::{decode_utf8, encode_utf8, is_char_boundary};
use crate::error::DltError;
use crate::ini_file::{ini_get, ini_parse, ini_read, ini_values, is_readable, readable};
use crate::text::{
    chars_contain, parse_u32, parse_u64, str_chars, text_of, u32_numeral, u64_numeral,
};

verus! {

broadcast use vstd::string::group_string_axioms;

/// Where the configuration file of the daemon is found.
pub const CONFIG_PATH: &'static str = "/etc/daemon.conf";

/// What the daemon sends along when it announces a registered context.
#[derive(Debug, Clone, Copy, PartialEq, Eq, Structural)]
pub enum SendContextRegistrationOption {
    Apid,
    Loglevel,
    Tracestatus,
    Ll,
    Description,
}

impl SendContextRegistrationOption {
    pub const CTID: SendContextRegistrationOption = SendContextRegistrationOption::Apid;

    pub const TS: SendContextRegistrationOption = SendContextRegistrationOption::Ll;

    /// The number that the configuration file uses for this option.
    pub open spec fn code(self) -> u32 {
        match self {
            SendContextRegistrationOption::Apid => 3,
            SendContextRegistrationOption::Loglevel => 4,
            SendContextRegistrationOption::Tracestatus => 5,
            SendContextRegistrationOption::Ll => 6,
            SendContextRegistrationOption::Description => 7,
        }
    }

    /// The option that a number of the configuration file selects; numbers
    /// that name no option select `Description`.
    pub open spec fn of_code(code: u32) -> SendContextRegistrationOption {
        if code == 3 {
            SendContextRegistrationOption::Apid
        } else if code == 4 {
            SendContextRegistrationOption::Loglevel
        } else if code == 5 {
            SendContextRegistrationOption::Tracestatus
        } else if code == 6 {
            SendContextRegistrationOption::Ll
        } else {
            SendContextRegistrationOption::Description
        }
    }

    pub fn value(&self) -> (code: u32)
        ensures
            code == self.code(),
    {
        match self {
            SendContextRegistrationOption::Apid => 3,
            SendContextRegistrationOption::Loglevel => 4,
            SendContextRegistrationOption::Tracestatus => 5,
            SendContextRegistrationOption::Ll => 6,
            SendContextRegistrationOption::Description => 7,
        }
    }

    pub fn from_value(code: u32) -> (option: SendContextRegistrationOption)
        ensures
            option == Self::of_code(code),
    {
        match code {
            3 => SendContextRegistrationOption::Apid,
            4 => SendContextRegistrationOption::Loglevel,
            5 => SendContextRegistrationOption::Tracestatus,
            6 => SendContextRegistrationOption::TS,
            _ => SendContextRegistrationOption::Description,
        }
    }
}

/// Severity threshold of the daemon's own log output.
#[derive(Debug, Clone, Copy, PartialEq, Eq, Structural)]
pub enum LogLevel {
    Emergency,
    Alert,
    Critical,
    Error,
    Warning,
    Notice,
    Info,
    Debug,
}

impl LogLevel {
    /// The level that a number of the configuration file selects; numbers
    /// above 7 select `Info`.
    pub open spec fn of_code(code: u32) -> LogLevel {
        if code == 0 {
            LogLevel::Emergency
        } else if code == 1 {
            LogLevel::Alert
        } else if code == 2 {
            LogLevel::Critical
        } else if code == 3 {
            LogLevel::Error
        } else if code == 4 {
            LogLevel::Warning
        } else if code == 5 {
            LogLevel::Notice
        } else if code == 6 {
            LogLevel::Info
        } else if code == 7 {
            LogLevel::Debug
        } else {
            LogLevel::Info
        }
    }

    pub fn from_value(code: u32) -> (level: LogLevel)
        ensures
            level == Self::of_code(code),
    {
        match code {
            0 => LogLevel::Emergency,
            1 => LogLevel::Alert,
            2 => LogLevel::Critical,
            3 => LogLevel::Error,
            4 => LogLevel::Warning,
            5 => LogLevel::Notice,
            6 => LogLevel::Info,
            7 => LogLevel::Debug,
            _ => LogLevel::Info,
        }
    }
}

/// Where the daemon writes its own log output.
#[derive(Debug, PartialEq)]
pub enum DaemonLoggingMode {
    Stdout,
    Syslog,
    StdError,
    File(String),
}

impl DaemonLoggingMode {
    /// True when `self` is the mode that a number of the configuration file
    /// selects: 1 the system log, 2 standard error, 3 the file
    /// `/tmp/dlt.log`, and standard output for every other number.
    pub open spec fn selected_by(self, code: u32) -> bool {
        if code == 1 {
            self is Syslog
        } else if code == 2 {
            self is StdError
        } else if code == 3 {
            self matches DaemonLoggingMode::File(path) && path@ == "/tmp/dlt.log"@
        } else {
            self is Stdout
        }
    }

    pub fn from_value(code: u32) -> (mode: DaemonLoggingMode)
        ensures
            mode.selected_by(code),
    {
        match code {
            0 => DaemonLoggingMode::Stdout,
            1 => DaemonLoggingMode::Syslog,
            2 => DaemonLoggingMode::StdError,
            3 => DaemonLoggingMode::File("/tmp/dlt.log".to_owned()),
            _ => DaemonLoggingMode::Stdout,
        }
    }
}

/// Log level that contexts start with.
#[derive(Debug, Clone, Copy, PartialEq, Eq, Structural)]
pub enum DltLogLevel {
    DltLogOff,
    DltLogFatal,
    DltLogError,
    DltLogWarn,
    DltLogInfo,
    DltLogDebug,
    DltLogVerbose,
}

impl DltLogLevel {
    /// The level that a number of the configuration file selects; numbers
    /// above 6 select `DltLogInfo`.
    pub open spec fn of_code(code: u32) -> DltLogLevel {
        if code == 0 {
            DltLogLevel::DltLogOff
        } else if code == 1 {
            DltLogLevel::DltLogFatal
        } else if code == 2 {
            DltLogLevel::DltLogError
        } else if code == 3 {
            DltLogLevel::DltLogWarn
        } else if code == 4 {
            DltLogLevel::DltLogInfo
        } else if code == 5 {
            DltLogLevel::DltLogDebug
        } else if code == 6 {
            DltLogLevel::DltLogVerbose
        } else {
            DltLogLevel::DltLogInfo
        }
    }

    pub fn from_value(code: u32) -> (level: DltLogLevel)
        ensures
            level == Self::of_code(code),
    {
        match code {
            0 => DltLogLevel::DltLogOff,
            1 => DltLogLevel::DltLogFatal,
            2 => DltLogLevel::DltLogError,
            3 => DltLogLevel::DltLogWarn,
            4 => DltLogLevel::DltLogInfo,
            5 => DltLogLevel::DltLogDebug,
            6 => DltLogLevel::DltLogVerbose,
            _ => DltLogLevel::DltLogInfo,
        }
    }
}

/// How offline trace files are named.
#[derive(Debug, Clone, Copy, PartialEq, Eq, Structural)]
pub enum OfflineTraceFileName {
    OfflineTraceFileNameIndexBased,
    OfflineTraceFileNameTimeStampBased,
}

impl OfflineTraceFileName {
    /// The naming that a number of the configuration file selects: 0 by
    /// index, every other number by time stamp.
    pub open spec fn of_code(code: u32) -> OfflineTraceFileName {
        if code == 0 {
            OfflineTraceFileName::OfflineTraceFileNameIndexBased
        } else {
            OfflineTraceFileName::OfflineTraceFileNameTimeStampBased
        }
    }

    pub fn from_value(code: u32) -> (naming: OfflineTraceFileName)
        ensures
            naming == Self::of_code(code),
    {
        match code {
            0 => OfflineTraceFileName::OfflineTraceFileNameIndexBased,
            _ => OfflineTraceFileName::OfflineTraceFileNameTimeStampBased,
        }
    }
}

/// The daemon's settings. Paths and network addresses are held as text,
/// `timeout_on_send` in seconds.
pub struct DaemonConfig {
    pub verbose: bool,
    pub daemonize: bool,
    pub send_serial_header: bool,
    pub send_context_registration: bool,
    pub send_context_registration_option: SendContextRegistrationOption,
    pub send_message_time: bool,
    pub ecu_id: String,
    pub shared_memory_size: u32,
    pub persistance_storage_path: String,
    pub logging_mode: DaemonLoggingMode,
    pub logging_level: LogLevel,
    pub logging_filename: String,
    pub timeout_on_send: u64,
    pub ring_buffer_min_size: u32,
    pub ring_buffer_max_size: u32,
    pub ring_buffer_step_size: u32,
    pub daemon_fifo_size: u32,
    pub context_log_level: DltLogLevel,
    pub context_trace_status: bool,
    pub force_context_loglevel_and_tracestatus: bool,
    pub injection_mode: bool,
    pub gateway_mode: bool,
    pub gateway_config_file: String,
    pub daemon_fifo_group: String,
    pub control_socket_path: String,
    pub offline_trace_directory: Option<String>,
    pub offline_trace_file_size: u32,
    pub offline_trace_max_size: u32,
    pub offline_trace_file_name: OfflineTraceFileName,
    pub print_ascii: bool,
    pub print_hex: bool,
    pub print_headers_only: bool,
    pub serial_port: Option<String>,
    pub rs232_baudrate: u32,
    pub rs232_sync_serial_header: bool,
    pub tcpsync_serial_header: bool,
    pub send_ecusoftware_version: u32,
    pub path_to_ecusoftware_version: Option<String>,
    pub send_timezone: u32,
    pub offline_logstorage_max_devices: bool,
    pub offline_logstorage_dir_path: Option<String>,
    pub offline_logstorage_timestamp: bool,
    pub offline_logstorage_delimiter: String,
    pub offline_logstorage_max_counter: u32,
    pub offline_logstorage_cache_size: u32,
    pub udpconnection_setup: bool,
    pub udpmulticast_ipaddress: String,
    pub udpmulticast_ipport: u32,
    pub bind_address: String,
}

impl DaemonConfig {
    /// True of the settings that hold where no configuration file says
    /// otherwise.
    pub open spec fn is_default(self) -> bool {
        &&& !self.verbose
        &&& !self.daemonize
        &&& !self.send_serial_header
        &&& self.send_context_registration
        &&& self.send_context_registration_option == SendContextRegistrationOption::Description
        &&& self.send_message_time
        &&& self.ecu_id@ == "ECU1"@
        &&& self.shared_memory_size == 100000
        &&& self.persistance_storage_path@ == "/tmp"@
        &&& self.logging_mode is Stdout
        &&& self.logging_level == LogLevel::Error
        &&& self.logging_filename@ == "/tmp/dlt.log"@
        &&& self.timeout_on_send == 4
        &&& self.ring_buffer_min_size == 500000
        &&& self.ring_buffer_max_size == 10000000
        &&& self.ring_buffer_step_size == 500000
        &&& self.daemon_fifo_size == 65536
        &&& self.context_log_level == DltLogLevel::DltLogInfo
        &&& !self.context_trace_status
        &&& !self.force_context_loglevel_and_tracestatus
        &&& self.injection_mode
        &&& !self.gateway_mode
        &&& self.gateway_config_file@ == "/etc/dlt_gateway.conf"@
        &&& self.daemon_fifo_group@ == "/tmp/dlt"@
        &&& self.control_socket_path@ == "/tmp/dlt-ctrl.sock"@
        &&& self.offline_trace_directory is None
        &&& self.offline_trace_file_size == 1000000
        &&& self.offline_trace_max_size == 4000000
        &&& self.offline_trace_file_name
            == OfflineTraceFileName::OfflineTraceFileNameTimeStampBased
        &&& self.print_ascii
        &&& self.print_hex
        &&& self.print_headers_only
        &&& self.serial_port is None
        &&& self.rs232_baudrate == 115200
        &&& self.rs232_sync_serial_header
        &&& self.tcpsync_serial_header
        &&& self.send_ecusoftware_version == 0
        &&& self.path_to_ecusoftware_version is None
        &&& self.send_timezone == 0
        &&& !self.offline_logstorage_max_devices
        &&& self.offline_logstorage_dir_path is None
        &&& self.offline_logstorage_timestamp
        &&& self.offline_logstorage_delimiter@ == "_"@
        &&& self.offline_logstorage_max_counter == u32::MAX
        &&& self.offline_logstorage_cache_size == 30000
        &&& self.udpconnection_setup
        &&& self.udpmulticast_ipaddress@ == "225.0.0.37"@
        &&& self.udpmulticast_ipport == 3491
        &&& self.bind_address@ == "0.0.0.0"@
    }
}

impl Default for DaemonConfig {
    fn default() -> (config: Self)
        ensures
            config.is_default(),
    {
        DaemonConfig {
            verbose: false,
            daemonize: false,
            send_serial_header: false,
            send_context_registration: true,
            send_context_registration_option: SendContextRegistrationOption::Description,
            send_message_time: true,
            ecu_id: "ECU1".to_owned(),
            shared_memory_size: 100000,
            persistance_storage_path: "/tmp".to_owned(),
            logging_mode: DaemonLoggingMode::Stdout,
            logging_level: LogLevel::Error,
            logging_filename: "/tmp/dlt.log".to_owned(),
            timeout_on_send: 4,
            ring_buffer_min_size: 500000,
            ring_buffer_max_size: 10000000,
            ring_buffer_step_size: 500000,
            daemon_fifo_size: 65536,
            context_log_level: DltLogLevel::DltLogInfo,
            context_trace_status: false,
            force_context_loglevel_and_tracestatus: false,
            injection_mode: true,
            gateway_mode: false,
            gateway_config_file: "/etc/dlt_gateway.conf".to_owned(),
            daemon_fifo_group: "/tmp/dlt".to_owned(),
            control_socket_path: "/tmp/dlt-ctrl.sock".to_owned(),
            offline_trace_directory: None,
            offline_trace_file_size: 1000000,
            offline_trace_max_size: 4000000,
            offline_trace_file_name: OfflineTraceFileName::OfflineTraceFileNameTimeStampBased,
            print_ascii: true,
            print_hex: true,
            print_headers_only: true,
            serial_port: None,
            rs232_baudrate: 115200,
            rs232_sync_serial_header: true,
            tcpsync_serial_header: true,
            send_ecusoftware_version: 0,
            path_to_ecusoftware_version: None,
            send_timezone: 0,
            offline_logstorage_max_devices: false,
            offline_logstorage_dir_path: None,
            offline_logstorage_timestamp: true,
            offline_logstorage_delimiter: "_".to_owned(),
            offline_logstorage_max_counter: u32::MAX,
            offline_logstorage_cache_size: 30000,
            udpconnection_setup: true,
            udpmulticast_ipaddress: "225.0.0.37".to_owned(),
            udpmulticast_ipport: 3491,
            bind_address: "0.0.0.0".to_owned(),
        }
    }
}

/// The value that a configuration gives to a key of its default section.
pub open spec fn setting(values: Map<(Seq<char>, Seq<char>), Seq<char>>, key: Seq<char>) -> Option<
    Seq<char>,
> {
    if values.contains_key(("default"@, key)) {
        Some(values[("default"@, key)])
    } else {
        None
    }
}

/// True when a key has a value that is no unsigned 32-bit number.
pub open spec fn bad_number(
    values: Map<(Seq<char>, Seq<char>), Seq<char>>,
    key: Seq<char>,
) -> bool {
    setting(values, key) matches Some(text) && u32_numeral(text) is None
}

/// The number that a key stands for: its value read as a number, or
/// `unset` where the key has no value. `None` where the value is no number.
pub open spec fn number_setting(
    values: Map<(Seq<char>, Seq<char>), Seq<char>>,
    key: Seq<char>,
    unset: u32,
) -> Option<u32> {
    match setting(values, key) {
        Some(text) => u32_numeral(text),
        None => Some(unset),
    }
}

/// The switch that a key stands for: off for the number 0, on for every
/// other number, `unset` where the key has no value. `None` where the value
/// is no number.
pub open spec fn flag_setting(
    values: Map<(Seq<char>, Seq<char>), Seq<char>>,
    key: Seq<char>,
    unset: bool,
) -> Option<bool> {
    match setting(values, key) {
        Some(text) => match u32_numeral(text) {
            Some(n) => Some(n != 0),
            None => None,
        },
        None => Some(unset),
    }
}

/// The number of seconds that a key stands for, or `unset` where the key
/// has no value. `None` where the value is no unsigned 64-bit number.
pub open spec fn seconds_setting(
    values: Map<(Seq<char>, Seq<char>), Seq<char>>,
    key: Seq<char>,
    unset: u64,
) -> Option<u64> {
    match setting(values, key) {
        Some(text) => u64_numeral(text),
        None => Some(unset),
    }
}

/// The text that a key stands for: its value, or `unset` where it has none.
pub open spec fn text_setting(
    values: Map<(Seq<char>, Seq<char>), Seq<char>>,
    key: Seq<char>,
    unset: Seq<char>,
) -> Seq<char> {
    match setting(values, key) {
        Some(text) => text,
        None => unset,
    }
}

/// The text that a key stands for, if any: its value unless that is empty.
pub open spec fn optional_text_setting(
    values: Map<(Seq<char>, Seq<char>), Seq<char>>,
    key: Seq<char>,
) -> Option<Seq<char>> {
    match setting(values, key) {
        Some(text) => if text.len() == 0 {
            None
        } else {
            Some(text)
        },
        None => None,
    }
}

/// The identifier of the ECU: `ECU1` where none or an empty one is given, a
/// given one of up to four bytes as it is, and of a longer one its first
/// four bytes. `None` where the first four bytes of a longer one end inside
/// a character.
pub open spec fn ecu_id_setting(values: Map<(Seq<char>, Seq<char>), Seq<char>>) -> Option<
    Seq<char>,
> {
    match setting(values, "ecuid"@) {
        Some(text) => {
            let bytes = encode_utf8(text);
            if bytes.len() == 0 {
                Some("ECU1"@)
            } else if bytes.len() <= 4 {
                Some(text)
            } else if is_char_boundary(bytes, 4) {
                Some(decode_utf8(bytes.subrange(0, 4)))
            } else {
                None
            }
        },
        None => Some("ECU1"@),
    }
}

/// The delimiter in the names of stored logs: the value given, unless it
/// holds an underscore; `_` otherwise.
pub open spec fn delimiter_setting(values: Map<(Seq<char>, Seq<char>), Seq<char>>) -> Seq<char> {
    match setting(values, "offlinelogstoragedelimiter"@) {
        Some(text) => if text.contains('_') {
            "_"@
        } else {
            text
        },
        None => "_"@,
    }
}

/// True when some key of the configuration has a value that cannot be
/// taken: a number that is none, or an ECU identifier that cannot be cut
/// after four bytes.
pub open spec fn malformed(values: Map<(Seq<char>, Seq<char>), Seq<char>>) -> bool {
    ||| bad_number(values, "verbose"@)
    ||| bad_number(values, "daemonize"@)
    ||| bad_number(values, "sendserialheader"@)
    ||| bad_number(values, "sendcontextregistration"@)
    ||| bad_number(values, "sendcontextregistrationoption"@)
    ||| bad_number(values, "sendmessagetime"@)
    ||| ecu_id_setting(values) is None
    ||| bad_number(values, "sharedmemorysize"@)
    ||| bad_number(values, "loggingmode"@)
    ||| bad_number(values, "logginglevel"@)
    ||| seconds_setting(values, "timeoutonsend"@, 4) is None
    ||| bad_number(values, "ringbufferminsize"@)
    ||| bad_number(values, "ringbuffermaxsize"@)
    ||| bad_number(values, "ringbufferstepsize"@)
    ||| bad_number(values, "daemonfifosize"@)
    ||| bad_number(values, "contextloglevel"@)
    ||| bad_number(values, "contexttracestatus"@)
    ||| bad_number(values, "forcecontextloglevelandtracestatus"@)
    ||| bad_number(values, "injectionmode"@)
    ||| bad_number(values, "gatewaymode"@)
    ||| bad_number(values, "offlinetracefilesize"@)
    ||| bad_number(values, "offlinetracemaxsize"@)
    ||| bad_number(values, "offlinetracefilenametimestampbased"@)
    ||| bad_number(values, "printascii"@)
    ||| bad_number(values, "printhex"@)
    ||| bad_number(values, "printheadersonly"@)
    ||| bad_number(values, "rs232baudrate"@)
    ||| bad_number(values, "rs232syncserialheader"@)
    ||| bad_number(values, "tcpsyncserialheader"@)
    ||| bad_number(values, "sendecusoftwareversion"@)
    ||| bad_number(values, "sendtimezone"@)
    ||| bad_number(values, "offlinelogstoragemaxdevices"@)
    ||| bad_number(values, "offlinelogstoragetimestamp"@)
    ||| bad_number(values, "offlinelogstoragemaxcounter"@)
    ||| bad_number(values, "offlinelogstoragecachesize"@)
    ||| bad_number(values, "udpconnectionsetup"@)
    ||| bad_number(values, "udpmulticastipport"@)
}

fn read_number(ini: &Ini, key: &str, unset: u32) -> (read: Result<u32, DltError>)
    ensures
        match read {
            Ok(n) => number_setting(ini_values(*ini), key@, unset) == Some(n),
            Err(error) => bad_number(ini_values(*ini), key@) && error is ConfigFileError,
        },
{
    match ini_get(ini, "default", key) {
        Some(value) => match parse_u32(value.as_str()) {
            Some(val) => Ok(val),
            None => Err(DltError::ConfigFileError(key.to_owned())),
        },
        None => Ok(unset),
    }
}

fn read_flag(ini: &Ini, key: &str, unset: bool) -> (read: Result<bool, DltError>)
    ensures
        match read {
            Ok(on) => flag_setting(ini_values(*ini), key@, unset) == Some(on),
            Err(error) => bad_number(ini_values(*ini), key@) && error is ConfigFileError,
        },
{
    match ini_get(ini, "default", key) {
        Some(value) => match parse_u32(value.as_str()) {
            Some(val) => Ok(val != 0),
            None => Err(DltError::ConfigFileError(key.to_owned())),
        },
        None => Ok(unset),
    }
}

fn read_seconds(ini: &Ini, key: &str, unset: u64) -> (read: Result<u64, DltError>)
    ensures
        match read {
            Ok(n) => seconds_setting(ini_values(*ini), key@, unset) == Some(n),
            Err(error) => seconds_setting(ini_values(*ini), key@, unset) is None
                && error is ConfigFileError,
        },
{
    match ini_get(ini, "default", key) {
        Some(value) => match parse_u64(value.as_str()) {
            Some(val) => Ok(val),
            None => Err(DltError::ConfigFileError(key.to_owned())),
        },
        None => Ok(unset),
    }
}

fn read_text(ini: &Ini, key: &str, unset: String) -> (text: String)
    ensures
        text@ == text_setting(ini_values(*ini), key@, unset@),
{
    match ini_get(ini, "default", key) {
        Some(value) => value,
        None => unset,
    }
}

fn read_optional_text(ini: &Ini, key: &str) -> (text: Option<String>)
    ensures
        text_of(text) == optional_text_setting(ini_values(*ini), key@),
{
    match ini_get(ini, "default", key) {
        Some(value) => {
            if value.as_str().is_empty() {
                None
            } else {
                Some(value)
            }
        },
        None => None,
    }
}

fn read_ecu_id(ini: &Ini) -> (read: Result<String, DltError>)
    ensures
        match read {
            Ok(id) => ecu_id_setting(ini_values(*ini)) == Some(id@),
            Err(error) => ecu_id_setting(ini_values(*ini)) is None && error is ConfigFileError,
        },
{
    match ini_get(ini, "default", "ecuid") {
        Some(val) => {
            let len: usize = val.as_str().as_bytes().len();
            if len == 0 {
                Ok("ECU1".to_owned())
            } else if len <= 4 {
                Ok(val)
            } else if val.as_str().is_char_boundary(4) {
                let (head, _) = val.as_str().split_at(4);
                proof {
                    vstd::utf8::encode_utf8_decode_utf8(head@);
                }
                Ok(head.to_owned())
            } else {
                Err(DltError::ConfigFileError("ecuid".to_owned()))
            }
        },
        None => Ok("ECU1".to_owned()),
    }
}

fn read_delimiter(ini: &Ini, unset: String) -> (text: String)
    requires
        unset@ == "_"@,
    ensures
        text@ == delimiter_setting(ini_values(*ini)),
{
    match ini_get(ini, "default", "offlinelogstoragedelimiter") {
        Some(val) => {
            let chars = str_chars(val.as_str());
            if !chars_contain(&chars, '_') {
                val
            } else {
                unset
            }
        },
        None => unset,
    }
}

impl DaemonConfig {
    /// True of the settings that a configuration stands for: every setting
    /// is what its key gives, or what holds by default where the
    /// configuration has no value for the key.
    pub open spec fn agrees_with(self, values: Map<(Seq<char>, Seq<char>), Seq<char>>) -> bool {
        &&& Some(self.verbose) == flag_setting(values, "verbose"@, false)
        &&& Some(self.daemonize) == flag_setting(values, "daemonize"@, false)
        &&& Some(self.send_serial_header) == flag_setting(values, "sendserialheader"@, false)
        &&& Some(self.send_context_registration)
            == flag_setting(values, "sendcontextregistration"@, true)
        &&& number_setting(values, "sendcontextregistrationoption"@, 7) matches Some(code)
            && self.send_context_registration_option == SendContextRegistrationOption::of_code(code)
        &&& Some(self.send_message_time) == flag_setting(values, "sendmessagetime"@, true)
        &&& Some(self.ecu_id@) == ecu_id_setting(values)
        &&& Some(self.shared_memory_size) == number_setting(values, "sharedmemorysize"@, 100000)
        &&& self.persistance_storage_path@
            == text_setting(values, "persistancestoragepath"@, "/tmp"@)
        &&& number_setting(values, "loggingmode"@, 0) matches Some(code)
            && self.logging_mode.selected_by(code)
        &&& number_setting(values, "logginglevel"@, 3) matches Some(code)
            && self.logging_level == LogLevel::of_code(code)
        &&& self.logging_filename@ == text_setting(values, "loggingfilename"@, "/tmp/dlt.log"@)
        &&& Some(self.timeout_on_send) == seconds_setting(values, "timeoutonsend"@, 4)
        &&& Some(self.ring_buffer_min_size) == number_setting(values, "ringbufferminsize"@, 500000)
        &&& Some(self.ring_buffer_max_size)
            == number_setting(values, "ringbuffermaxsize"@, 10000000)
        &&& Some(self.ring_buffer_step_size)
            == number_setting(values, "ringbufferstepsize"@, 500000)
        &&& Some(self.daemon_fifo_size) == number_setting(values, "daemonfifosize"@, 65536)
        &&& number_setting(values, "contextloglevel"@, 4) matches Some(code)
            && self.context_log_level == DltLogLevel::of_code(code)
        &&& Some(self.context_trace_status) == flag_setting(values, "contexttracestatus"@, false)
        &&& Some(self.force_context_loglevel_and_tracestatus)
            == flag_setting(values, "forcecontextloglevelandtracestatus"@, false)
        &&& Some(self.injection_mode) == flag_setting(values, "injectionmode"@, true)
        &&& Some(self.gateway_mode) == flag_setting(values, "gatewaymode"@, false)
        &&& self.gateway_config_file@
            == text_setting(values, "gatewayconfigfile"@, "/etc/dlt_gateway.conf"@)
        &&& self.daemon_fifo_group@ == text_setting(values, "daemonfifogroup"@, "/tmp/dlt"@)
        &&& self.control_socket_path@
            == text_setting(values, "controlsocketpath"@, "/tmp/dlt-ctrl.sock"@)
        &&& text_of(self.offline_trace_directory)
            == optional_text_setting(values, "offlinetracedirectory"@)
        &&& Some(self.offline_trace_file_size)
            == number_setting(values, "offlinetracefilesize"@, 1000000)
        &&& Some(self.offline_trace_max_size)
            == number_setting(values, "offlinetracemaxsize"@, 4000000)
        &&& number_setting(values, "offlinetracefilenametimestampbased"@, 1) matches Some(code)
            && self.offline_trace_file_name == OfflineTraceFileName::of_code(code)
        &&& Some(self.print_ascii) == flag_setting(values, "printascii"@, true)
        &&& Some(self.print_hex) == flag_setting(values, "printhex"@, true)
        &&& Some(self.print_headers_only) == flag_setting(values, "printheadersonly"@, true)
        &&& text_of(self.serial_port) == optional_text_setting(values, "rs232devicename"@)
        &&& Some(self.rs232_baudrate) == number_setting(values, "rs232baudrate"@, 115200)
        &&& Some(self.rs232_sync_serial_header)
            == flag_setting(values, "rs232syncserialheader"@, true)
        &&& Some(self.tcpsync_serial_header) == flag_setting(values, "tcpsyncserialheader"@, true)
        &&& Some(self.send_ecusoftware_version)
            == number_setting(values, "sendecusoftwareversion"@, 0)
        &&& text_of(self.path_to_ecusoftware_version)
            == optional_text_setting(values, "pathtoecusoftwareversion"@)
        &&& Some(self.send_timezone) == number_setting(values, "sendtimezone"@, 0)
        &&& Some(self.offline_logstorage_max_devices)
            == flag_setting(values, "offlinelogstoragemaxdevices"@, false)
        &&& text_of(self.offline_logstorage_dir_path)
            == optional_text_setting(values, "offlinelogstoragedirpath"@)
        &&& Some(self.offline_logstorage_timestamp)
            == flag_setting(values, "offlinelogstoragetimestamp"@, true)
        &&& self.offline_logstorage_delimiter@ == delimiter_setting(values)
        &&& Some(self.offline_logstorage_max_counter)
            == number_setting(values, "offlinelogstoragemaxcounter"@, u32::MAX)
        &&& Some(self.offline_logstorage_cache_size)
            == number_setting(values, "offlinelogstoragecachesize"@, 30000)
        &&& Some(self.udpconnection_setup) == flag_setting(values, "udpconnectionsetup"@, true)
        &&& self.udpmulticast_ipaddress@
            == text_setting(values, "udpmulticastipaddress"@, "225.0.0.37"@)
        &&& Some(self.udpmulticast_ipport) == number_setting(values, "udpmulticastipport"@, 3491)
        &&& self.bind_address@ == text_setting(values, "bindaddress"@, "0.0.0.0"@)
    }

    /// The settings that a configuration stands for. Only the default
    /// section counts. A value that cannot be taken is an error.
    pub fn from_ini(ini: &Ini) -> (read: Result<DaemonConfig, DltError>)
        ensures
            match read {
                Ok(config) => config.agrees_with(ini_values(*ini)),
                Err(error) => malformed(ini_values(*ini)) && error is ConfigFileError,
            },
    {
        let base = DaemonConfig::default();
        let verbose = read_flag(ini, "verbose", base.verbose)?;
        let daemonize = read_flag(ini, "daemonize", base.daemonize)?;
        let send_serial_header = read_flag(ini, "sendserialheader", base.send_serial_header)?;
        let send_context_registration = read_flag(
            ini,
            "sendcontextregistration",
            base.send_context_registration,
        )?;
        let send_context_registration_option = SendContextRegistrationOption::from_value(
            read_number(ini, "sendcontextregistrationoption", 7)?,
        );
        let send_message_time = read_flag(ini, "sendmessagetime", base.send_message_time)?;
        let ecu_id = read_ecu_id(ini)?;
        let shared_memory_size = read_number(ini, "sharedmemorysize", base.shared_memory_size)?;
        let persistance_storage_path = read_text(
            ini,
            "persistancestoragepath",
            base.persistance_storage_path,
        );
        let logging_mode = DaemonLoggingMode::from_value(read_number(ini, "loggingmode", 0)?);
        let logging_level = LogLevel::from_value(
            read_number(ini, "logginglevel", 3)?,
        );
        let logging_filename = read_text(ini, "loggingfilename", base.logging_filename);
        let timeout_on_send = read_seconds(ini, "timeoutonsend", base.timeout_on_send)?;
        let ring_buffer_min_size = read_number(
            ini,
            "ringbufferminsize",
            base.ring_buffer_min_size,
        )?;
        let ring_buffer_max_size = read_number(
            ini,
            "ringbuffermaxsize",
            base.ring_buffer_max_size,
        )?;
        let ring_buffer_step_size = read_number(
            ini,
            "ringbufferstepsize",
            base.ring_buffer_step_size,
        )?;
        let daemon_fifo_size = read_number(ini, "daemonfifosize", base.daemon_fifo_size)?;
        let context_log_level = DltLogLevel::from_value(
            read_number(ini, "contextloglevel", 4)?,
        );
        let context_trace_status = read_flag(ini, "contexttracestatus", base.context_trace_status)?;
        let force_context_loglevel_and_tracestatus = read_flag(
            ini,
            "forcecontextloglevelandtracestatus",
            base.force_context_loglevel_and_tracestatus,
        )?;
        let injection_mode = read_flag(ini, "injectionmode", base.injection_mode)?;
        let gateway_mode = read_flag(ini, "gatewaymode", base.gateway_mode)?;
        let gateway_config_file = read_text(ini, "gatewayconfigfile", base.gateway_config_file);
        let daemon_fifo_group = read_text(ini, "daemonfifogroup", base.daemon_fifo_group);
        let control_socket_path = read_text(ini, "controlsocketpath", base.control_socket_path);
        let offline_trace_directory = read_optional_text(ini, "offlinetracedirectory");
        let offline_trace_file_size = read_number(
            ini,
            "offlinetracefilesize",
            base.offline_trace_file_size,
        )?;
        let offline_trace_max_size = read_number(
            ini,
            "offlinetracemaxsize",
            base.offline_trace_max_size,
        )?;
        let offline_trace_file_name = OfflineTraceFileName::from_value(
            read_number(ini, "offlinetracefilenametimestampbased", 1)?,
        );
        let print_ascii = read_flag(ini, "printascii", base.print_ascii)?;
        let print_hex = read_flag(ini, "printhex", base.print_hex)?;
        let print_headers_only = read_flag(ini, "printheadersonly", base.print_headers_only)?;
        let serial_port = read_optional_text(ini, "rs232devicename");
        let rs232_baudrate = read_number(ini, "rs232baudrate", base.rs232_baudrate)?;
        let rs232_sync_serial_header = read_flag(
            ini,
            "rs232syncserialheader",
            base.rs232_sync_serial_header,
        )?;
        let tcpsync_serial_header = read_flag(
            ini,
            "tcpsyncserialheader",
            base.tcpsync_serial_header,
        )?;
        let send_ecusoftware_version = read_number(
            ini,
            "sendecusoftwareversion",
            base.send_ecusoftware_version,
        )?;
        let path_to_ecusoftware_version = read_optional_text(ini, "pathtoecusoftwareversion");
        let send_timezone = read_number(ini, "sendtimezone", base.send_timezone)?;
        let offline_logstorage_max_devices = read_flag(
            ini,
            "offlinelogstoragemaxdevices",
            base.offline_logstorage_max_devices,
        )?;
        let offline_logstorage_dir_path = read_optional_text(ini, "offlinelogstoragedirpath");
        let offline_logstorage_timestamp = read_flag(
            ini,
            "offlinelogstoragetimestamp",
            base.offline_logstorage_timestamp,
        )?;
        let offline_logstorage_delimiter = read_delimiter(ini, base.offline_logstorage_delimiter);
        let offline_logstorage_max_counter = read_number(
            ini,
            "offlinelogstoragemaxcounter",
            base.offline_logstorage_max_counter,
        )?;
        let offline_logstorage_cache_size = read_number(
            ini,
            "offlinelogstoragecachesize",
            base.offline_logstorage_cache_size,
        )?;
        let udpconnection_setup = read_flag(ini, "udpconnectionsetup", base.udpconnection_setup)?;
        let udpmulticast_ipaddress = read_text(
            ini,
            "udpmulticastipaddress",
            base.udpmulticast_ipaddress,
        );
        let udpmulticast_ipport = read_number(ini, "udpmulticastipport", base.udpmulticast_ipport)?;
        let bind_address = read_text(ini, "bindaddress", base.bind_address);
        Ok(
            DaemonConfig {
                verbose,
                daemonize,
                send_serial_header,
                send_context_registration,
                send_context_registration_option,
                send_message_time,
                ecu_id,
                shared_memory_size,
                persistance_storage_path,
                logging_mode,
                logging_level,
                logging_filename,
                timeout_on_send,
                ring_buffer_min_size,
                ring_buffer_max_size,
                ring_buffer_step_size,
                daemon_fifo_size,
                context_log_level,
                context_trace_status,
                force_context_loglevel_and_tracestatus,
                injection_mode,
                gateway_mode,
                gateway_config_file,
                daemon_fifo_group,
                control_socket_path,
                offline_trace_directory,
                offline_trace_file_size,
                offline_trace_max_size,
                offline_trace_file_name,
                print_ascii,
                print_hex,
                print_headers_only,
                serial_port,
                rs232_baudrate,
                rs232_sync_serial_header,
                tcpsync_serial_header,
                send_ecusoftware_version,
                path_to_ecusoftware_version,
                send_timezone,
                offline_logstorage_max_devices,
                offline_logstorage_dir_path,
                offline_logstorage_timestamp,
                offline_logstorage_delimiter,
                offline_logstorage_max_counter,
                offline_logstorage_cache_size,
                udpconnection_setup,
                udpmulticast_ipaddress,
                udpmulticast_ipport,
                bind_address,
            },
        )
    }

    /// The settings that a configuration text stands for. A text that
    /// cannot be read, and a value that cannot be taken, are errors.
    pub fn from_text(text: &str) -> (read: Result<DaemonConfig, DltError>)
        ensures
            match read {
                Ok(config) => readable(text@) && (ini_parse(text@) matches Some(values)
                    && config.agrees_with(values)),
                Err(error) => error is ConfigFileError && (!readable(text@) || match ini_parse(
                    text@,
                ) {
                    Some(values) => malformed(values),
                    None => true,
                }),
            },
    {
        if !is_readable(text) {
            return Err(DltError::ConfigFileError("brackets out of order".to_owned()));
        }
        match ini_read(text) {
            Ok(ini) => DaemonConfig::from_ini(&ini),
            Err(why) => Err(DltError::ConfigFileError(why)),
        }
    }
}

} // verus!
