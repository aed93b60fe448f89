use dlt_user::config::{
    DaemonConfig, DaemonLoggingMode, DltLogLevel, LogLevel, OfflineTraceFileName,
    SendContextRegistrationOption,
};
use dlt_user::error::DltError;
use dlt_user::ini_file::is_readable;
use ini::configparser::ini::Ini;

const DAEMON_CONF: &str = "\
# Configuration file of the DLT daemon
Verbose = 1
Daemonize = 1
SendSerialHeader = 1
SendContextRegistration = 1
SendContextRegistrationOption = 7
SendMessageTime = 0
ECUId = ECU1
SharedMemorySize = 100000
PersistanceStoragePath = /tmp
LoggingMode = 0
LoggingLevel = 6
LoggingFilename = /tmp/dlt.log
TimeOutOnSend = 4
RingbufferMinSize = 500000
RingbufferMaxSize = 10000000
RingbufferStepSize = 500000
DaemonFIFOSize = 65536
ContextLogLevel = 4
ContextTraceStatus = 0
ForceContextLogLevelAndTraceStatus = 1
InjectionMode = 1
GatewayMode = 1
GatewayConfigFile = /etc/dlt_gateway.conf
DaemonFifoGroup = dlt_user_apps_group
ControlSocketPath = /tmp/dlt-ctrl.sock
OfflineTraceDirectory = /tmp
OfflineTraceFileSize = 1000000
OfflineTraceMaxSize = 4000000
OfflineTraceFileNameTimestampBased = 1
PrintASCII = 1
PrintHex = 1
PrintHeadersOnly = 1
RS232DeviceName = /dev/ttyS0
RS232Baudrate = 115200
RS232SyncSerialHeader = 1
TCPSyncSerialHeader = 1
SendECUSoftwareVersion = 0
SendTimezone = 0
OfflineLogstorageMaxDevices = 1
OfflineLogstorageTimestamp = 0
OfflineLogstorageDelimiter = _
OfflineLogstorageMaxCounter = 999
OfflineLogstorageCacheSize = 30000
UDPConnectionSetup = 1
UDPMulticastIPAddress = 225.0.0.37
UDPMulticastIPPort = 3491
BindAddress = 160.48.199.97
";

#[test]
fn basic() {
    let config = DaemonConfig::from_text(DAEMON_CONF).unwrap();
    assert!(config.verbose);
    assert!(config.daemonize);
    assert!(config.send_serial_header);
    assert!(config.send_context_registration);
    assert_eq!(
        config.send_context_registration_option,
        SendContextRegistrationOption::Description
    );
    assert_eq!(config.send_message_time, false);
    assert_eq!(config.ecu_id, "ECU1");
    assert_eq!(config.shared_memory_size, 100000);
    assert_eq!(config.persistance_storage_path, "/tmp");
    assert_eq!(config.logging_level, LogLevel::Info);
    assert_eq!(config.logging_mode, DaemonLoggingMode::Stdout);
    assert_eq!(config.logging_filename, "/tmp/dlt.log");
    assert_eq!(config.timeout_on_send, 4);
    assert_eq!(config.ring_buffer_min_size, 500000);
    assert_eq!(config.ring_buffer_max_size, 10000000);
    assert_eq!(config.ring_buffer_step_size, 500000);
    assert_eq!(config.daemon_fifo_size, 65536);
    assert_eq!(config.context_log_level, DltLogLevel::DltLogInfo);
    assert_eq!(config.context_trace_status, false);
    assert!(config.force_context_loglevel_and_tracestatus);
    assert!(config.injection_mode);
    assert!(config.gateway_mode);
    assert_eq!(config.gateway_config_file, "/etc/dlt_gateway.conf");
    assert_eq!(config.daemon_fifo_group, String::from("dlt_user_apps_group"));
    assert_eq!(config.control_socket_path, "/tmp/dlt-ctrl.sock");
    assert_eq!(config.offline_trace_directory, Some(String::from("/tmp")));
    assert_eq!(config.offline_trace_file_size, 1000000);
    assert_eq!(config.offline_trace_max_size, 4000000);
    assert_eq!(
        config.offline_trace_file_name,
        OfflineTraceFileName::OfflineTraceFileNameTimeStampBased
    );
    assert!(config.print_ascii);
    assert!(config.print_hex);
    assert!(config.print_headers_only);
    assert_eq!(config.serial_port, Some(String::from("/dev/ttyS0")));
    assert_eq!(config.rs232_baudrate, 115200);
    assert!(config.rs232_sync_serial_header);
    assert!(config.tcpsync_serial_header);
    assert_eq!(config.send_ecusoftware_version, 0);
    assert_eq!(config.send_timezone, 0);
    assert!(config.offline_logstorage_max_devices);
    assert_eq!(config.offline_logstorage_timestamp, false);
    assert_eq!(config.offline_logstorage_delimiter, "_");
    assert_eq!(config.offline_logstorage_max_counter, 999);
    assert_eq!(config.offline_logstorage_cache_size, 30000);
    assert!(config.udpconnection_setup);
    assert_eq!("225.0.0.37", config.udpmulticast_ipaddress);
    assert_eq!("160.48.199.97", config.bind_address);
    assert_eq!(config.udpmulticast_ipport, 3491);
}

fn assert_is_default(config: &DaemonConfig) {
    assert_eq!(config.verbose, false);
    assert_eq!(config.daemonize, false);
    assert_eq!(config.send_serial_header, false);
    assert_eq!(config.send_context_registration, true);
    assert_eq!(
        config.send_context_registration_option,
        SendContextRegistrationOption::Description
    );
    assert_eq!(config.send_message_time, true);
    assert_eq!(config.ecu_id, "ECU1");
    assert_eq!(config.shared_memory_size, 100000);
    assert_eq!(config.persistance_storage_path, "/tmp");
    assert_eq!(config.logging_mode, DaemonLoggingMode::Stdout);
    assert_eq!(config.logging_level, LogLevel::Error);
    assert_eq!(config.logging_filename, "/tmp/dlt.log");
    assert_eq!(config.timeout_on_send, 4);
    assert_eq!(config.ring_buffer_min_size, 500000);
    assert_eq!(config.ring_buffer_max_size, 10000000);
    assert_eq!(config.ring_buffer_step_size, 500000);
    assert_eq!(config.daemon_fifo_size, 65536);
    assert_eq!(config.context_log_level, DltLogLevel::DltLogInfo);
    assert_eq!(config.context_trace_status, false);
    assert_eq!(config.force_context_loglevel_and_tracestatus, false);
    assert_eq!(config.injection_mode, true);
    assert_eq!(config.gateway_mode, false);
    assert_eq!(config.gateway_config_file, "/etc/dlt_gateway.conf");
    assert_eq!(config.daemon_fifo_group, "/tmp/dlt");
    assert_eq!(config.control_socket_path, "/tmp/dlt-ctrl.sock");
    assert_eq!(config.offline_trace_directory, None);
    assert_eq!(config.offline_trace_file_size, 1000000);
    assert_eq!(config.offline_trace_max_size, 4000000);
    assert_eq!(
        config.offline_trace_file_name,
        OfflineTraceFileName::OfflineTraceFileNameTimeStampBased
    );
    assert_eq!(config.print_ascii, true);
    assert_eq!(config.print_hex, true);
    assert_eq!(config.print_headers_only, true);
    assert_eq!(config.serial_port, None);
    assert_eq!(config.rs232_baudrate, 115200);
    assert_eq!(config.rs232_sync_serial_header, true);
    assert_eq!(config.tcpsync_serial_header, true);
    assert_eq!(config.send_ecusoftware_version, 0);
    assert_eq!(config.path_to_ecusoftware_version, None);
    assert_eq!(config.send_timezone, 0);
    assert_eq!(config.offline_logstorage_max_devices, false);
    assert_eq!(config.offline_logstorage_dir_path, None);
    assert_eq!(config.offline_logstorage_timestamp, true);
    assert_eq!(config.offline_logstorage_delimiter, "_");
    assert_eq!(config.offline_logstorage_max_counter, u32::MAX);
    assert_eq!(config.offline_logstorage_cache_size, 30000);
    assert_eq!(config.udpconnection_setup, true);
    assert_eq!(config.udpmulticast_ipaddress, "225.0.0.37");
    assert_eq!(config.udpmulticast_ipport, 3491);
    assert_eq!(config.bind_address, "0.0.0.0");
}

#[test]
fn defaults() {
    assert_is_default(&DaemonConfig::default());
}

#[test]
fn empty_text_gives_the_defaults() {
    assert_is_default(&DaemonConfig::from_text("").unwrap());
    assert_is_default(&DaemonConfig::from_text("# nothing but a comment\n\n; and another\n").unwrap());
    assert_is_default(&DaemonConfig::from_text("Verbose\nUnknownKey = 5\n").unwrap());
}

#[test]
fn other_sections_do_not_count() {
    let config = DaemonConfig::from_text("[gateway]\nVerbose = 1\nRingbufferMinSize = x\n").unwrap();
    assert_is_default(&config);
    let config = DaemonConfig::from_text("[gateway]\nVerbose = 0\n[DEFAULT]\nVerbose = 1\n").unwrap();
    assert!(config.verbose);
}

#[test]
fn switches_and_codes() {
    let config = DaemonConfig::from_text(
        "Verbose = 2\nSendMessageTime = 0\nInjectionMode=0\nLoggingMode = 3\nLoggingLevel = 9\n\
         ContextLogLevel = 6\nSendContextRegistrationOption = 6\n\
         OfflineTraceFileNameTimestampBased = 0\nTimeOutOnSend = 18446744073709551615\n",
    )
    .unwrap();
    assert!(config.verbose);
    assert!(!config.send_message_time);
    assert!(!config.injection_mode);
    assert_eq!(config.logging_mode, DaemonLoggingMode::File(String::from("/tmp/dlt.log")));
    assert_eq!(config.logging_level, LogLevel::Info);
    assert_eq!(config.context_log_level, DltLogLevel::DltLogVerbose);
    assert_eq!(config.send_context_registration_option, SendContextRegistrationOption::TS);
    assert_eq!(config.send_context_registration_option, SendContextRegistrationOption::Ll);
    assert_eq!(
        config.offline_trace_file_name,
        OfflineTraceFileName::OfflineTraceFileNameIndexBased
    );
    assert_eq!(config.timeout_on_send, u64::MAX);
    for (code, mode) in [
        (0, DaemonLoggingMode::Stdout),
        (1, DaemonLoggingMode::Syslog),
        (2, DaemonLoggingMode::StdError),
        (4, DaemonLoggingMode::Stdout),
    ] {
        assert_eq!(DaemonLoggingMode::from_value(code), mode);
    }
    for (code, level) in [
        (0, LogLevel::Emergency),
        (1, LogLevel::Alert),
        (2, LogLevel::Critical),
        (3, LogLevel::Error),
        (4, LogLevel::Warning),
        (5, LogLevel::Notice),
        (6, LogLevel::Info),
        (7, LogLevel::Debug),
        (8, LogLevel::Info),
    ] {
        assert_eq!(LogLevel::from_value(code), level);
    }
    for (code, level) in [
        (0, DltLogLevel::DltLogOff),
        (1, DltLogLevel::DltLogFatal),
        (2, DltLogLevel::DltLogError),
        (3, DltLogLevel::DltLogWarn),
        (4, DltLogLevel::DltLogInfo),
        (5, DltLogLevel::DltLogDebug),
        (6, DltLogLevel::DltLogVerbose),
        (7, DltLogLevel::DltLogInfo),
    ] {
        assert_eq!(DltLogLevel::from_value(code), level);
    }
    for (code, option) in [
        (3, SendContextRegistrationOption::Apid),
        (3, SendContextRegistrationOption::CTID),
        (4, SendContextRegistrationOption::Loglevel),
        (5, SendContextRegistrationOption::Tracestatus),
        (6, SendContextRegistrationOption::Ll),
        (7, SendContextRegistrationOption::Description),
        (0, SendContextRegistrationOption::Description),
    ] {
        assert_eq!(SendContextRegistrationOption::from_value(code), option);
    }
    assert_eq!(SendContextRegistrationOption::Apid.value(), 3);
    assert_eq!(SendContextRegistrationOption::Loglevel.value(), 4);
    assert_eq!(SendContextRegistrationOption::Tracestatus.value(), 5);
    assert_eq!(SendContextRegistrationOption::Ll.value(), 6);
    assert_eq!(SendContextRegistrationOption::Description.value(), 7);
}

#[test]
fn ecu_identifier() {
    let ecu = |text: &str| DaemonConfig::from_text(text).map(|config| config.ecu_id);
    assert_eq!(ecu("ECUId =").unwrap(), "ECU1");
    assert_eq!(ecu("ECUId = A").unwrap(), "A");
    assert_eq!(ecu("ECUId = ABCD").unwrap(), "ABCD");
    assert_eq!(ecu("ECUId = ABCDE").unwrap(), "ABCD");
    assert_eq!(ecu("ECUId = \u{e9}\u{e9}").unwrap(), "\u{e9}\u{e9}");
    assert_eq!(ecu("ECUId = \u{e9}\u{e9}\u{e9}").unwrap(), "\u{e9}\u{e9}");
    assert!(matches!(ecu("ECUId = a\u{e9}\u{e9}\u{e9}"), Err(DltError::ConfigFileError(_))));
}

#[test]
fn texts_and_optional_texts() {
    let config = DaemonConfig::from_text(
        "OfflineTraceDirectory =\nRS232DeviceName = /dev/ttyUSB0\n\
         PathToECUSoftwareVersion = /etc/version\nOfflineLogstorageDirPath = /var/dlt\n\
         OfflineLogstorageDelimiter = a_b\nBindAddress = not an address\n\
         PersistanceStoragePath =\n",
    )
    .unwrap();
    assert_eq!(config.offline_trace_directory, None);
    assert_eq!(config.serial_port.as_deref(), Some("/dev/ttyUSB0"));
    assert_eq!(config.path_to_ecusoftware_version.as_deref(), Some("/etc/version"));
    assert_eq!(config.offline_logstorage_dir_path.as_deref(), Some("/var/dlt"));
    assert_eq!(config.offline_logstorage_delimiter, "_");
    assert_eq!(config.bind_address, "not an address");
    assert_eq!(config.persistance_storage_path, "");
    let config = DaemonConfig::from_text("OfflineLogstorageDelimiter = -\n").unwrap();
    assert_eq!(config.offline_logstorage_delimiter, "-");
}

#[test]
fn malformed_numbers_are_errors() {
    for text in [
        "Verbose = yes",
        "Verbose =",
        "RingbufferMinSize = -1",
        "RingbufferMaxSize = 4294967296",
        "UDPMulticastIPPort = 34 91",
        "TimeOutOnSend = 18446744073709551616",
        "LoggingMode = stdout",
        "OfflineLogstorageMaxCounter = 1.5",
    ] {
        assert!(
            matches!(DaemonConfig::from_text(text), Err(DltError::ConfigFileError(_))),
            "{:?}",
            text
        );
    }
}

#[test]
fn unreadable_texts_are_errors() {
    assert!(matches!(
        DaemonConfig::from_text("[section\nVerbose = 1\n"),
        Err(DltError::ConfigFileError(_))
    ));
    assert!(matches!(
        DaemonConfig::from_text("= 1\n"),
        Err(DltError::ConfigFileError(_))
    ));
    assert!(matches!(
        DaemonConfig::from_text("Verbose = 1\n] [\n"),
        Err(DltError::ConfigFileError(_))
    ));
    assert!(matches!(
        DaemonConfig::from_text("key = ]x[ ; ] comment\n"),
        Err(DltError::ConfigFileError(_))
    ));
}

#[test]
fn readable_texts() {
    for text in ["", "a = 1", "[s]", "[s", "s]", "]", "[", "][]", "a]b[c]d", "] # [", "[ ; ]", "\n\n", "][\u{e9}]"] {
        assert!(is_readable(text), "{:?}", text);
    }
    for text in ["][", "a\n] [\nb", "x]y[z", "]]][[[", "][ # ]", "][;]", "\u{e9}]\u{e9}["] {
        assert!(!is_readable(text), "{:?}", text);
    }
}

#[test]
fn every_readable_text_is_read_without_panic() {
    let alphabet = ['[', ']', '#', '\n', 'a', '='];
    let mut text = String::new();
    for code in 0..(6usize.pow(5)) {
        text.clear();
        let mut rest = code;
        for _ in 0..5 {
            text.push(alphabet[rest % 6]);
            rest /= 6;
        }
        if is_readable(&text) {
            let _ = Ini::new().read(text.clone());
            let _ = DaemonConfig::from_text(&text);
        }
    }
}

#[test]
fn settings_of_a_parser() {
    let mut ini = Ini::new();
    ini.read(String::from("Verbose = 1\n[other]\nDaemonize = 1\n")).unwrap();
    let config = DaemonConfig::from_ini(&ini).unwrap();
    assert!(config.verbose);
    assert!(!config.daemonize);
    ini.set("default", "daemonize", Some(String::from("7")));
    ini.set("default", "verbose", None);
    let config = DaemonConfig::from_ini(&ini).unwrap();
    assert!(!config.verbose);
    assert!(config.daemonize);
    ini.set("default", "sharedmemorysize", Some(String::from("many")));
    assert!(matches!(DaemonConfig::from_ini(&ini), Err(DltError::ConfigFileError(_))));
}
