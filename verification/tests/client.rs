use dlt_user::client::{
    ENV_BUFFER_MAX_SIZE, ENV_BUFFER_MIN_SIZE, ENV_BUFFER_STEP_SIZE,
    ENV_DISABLE_EXTENDED_HEADER_FOR_NONVERBOSE, ENV_DISABLE_INJECTION_MSG, ENV_INITIAL_LOG_LEVEL,
    ENV_LOCAL_PRINT_MODE, ENV_LOG_MSG_BUF_LEN,
};
use dlt_user::config::DaemonConfig;
use dlt_user::error::{DltError, DltUserError};
use dlt_user::user_header::user_control_message::opt_string_to_u8_4;
use dlt_user::wire::ByteOrder;
use dlt_user::{
    dlt_env_extract_ll_set, dltinitcommon, DltUser, DltUserInner, EnvSettings, InitialLogLevel,
    LocalPrintMode,
};

const PID: u32 = 4711;

fn new_inner() -> DltUserInner {
    DltUserInner::new(DaemonConfig::default(), PID).unwrap()
}

/// The environment with the given variables set and no others.
fn environment(vars: &[(&str, &str)]) -> EnvSettings {
    let get = |name: &str| {
        vars.iter()
            .find(|(key, _)| *key == name)
            .map(|(_, value)| value.to_string())
    };
    EnvSettings {
        disable_extended_header_for_nonverbose: get(ENV_DISABLE_EXTENDED_HEADER_FOR_NONVERBOSE),
        local_print_mode: get(ENV_LOCAL_PRINT_MODE),
        buffer_min_size: get(ENV_BUFFER_MIN_SIZE),
        buffer_max_size: get(ENV_BUFFER_MAX_SIZE),
        buffer_step_size: get(ENV_BUFFER_STEP_SIZE),
        log_msg_buf_len: get(ENV_LOG_MSG_BUF_LEN),
        initial_log_level: get(ENV_INITIAL_LOG_LEVEL),
        disable_injection_msg: get(ENV_DISABLE_INJECTION_MSG),
    }
}

#[test]
fn test_verbose() {
    let mut dltuserinner = new_inner();
    let key = "DLT_DISABLE_EXTENDED_HEADER_FOR_NONVERBOSE";
    let res = dltinitcommon(&mut dltuserinner, &environment(&[(key, "1")]));
    assert!(res.is_ok());
    assert_eq!(dltuserinner.use_extended_header_for_non_verbose(), false);
}

#[test]
fn log_print_mode() {
    let mut dltuserinner = new_inner();
    let key = "DLT_LOCAL_PRINT_MODE";
    let res = dltinitcommon(&mut dltuserinner, &environment(&[(key, "ForceOn")]));
    assert!(res.is_ok());
    assert_eq!(dltuserinner.local_print_mode(), LocalPrintMode::ForceOn);
}

#[test]
fn min_buf_size() {
    let mut dltuserinner = new_inner();
    let key = "DLT_USER_ENV_BUFFER_MIN_SIZE";
    let res = dltinitcommon(&mut dltuserinner, &environment(&[(key, "600000")]));
    assert!(res.is_ok());
    assert_eq!(dltuserinner.config().ring_buffer_min_size, 600000);
}

#[test]
fn max_buf_size() {
    let mut dltuserinner = new_inner();
    let key = "DLT_USER_ENV_BUFFER_MAX_SIZE";
    let res = dltinitcommon(&mut dltuserinner, &environment(&[(key, "650000")]));
    assert!(res.is_ok());
    assert_eq!(dltuserinner.config().ring_buffer_max_size, 650000);
}

#[test]
fn buf_step_size() {
    let mut dltuserinner = new_inner();
    let key = "DLT_USER_ENV_BUFFER_STEP_SIZE";
    let res = dltinitcommon(&mut dltuserinner, &environment(&[(key, "700000")]));
    assert!(res.is_ok());
    assert_eq!(dltuserinner.config().ring_buffer_step_size, 700000);
}

#[test]
fn buf_len() {
    let mut dltuserinner = new_inner();
    let key = "DLT_LOG_MSG_BUF_LEN";
    let res = dltinitcommon(&mut dltuserinner, &environment(&[(key, "65535")]));
    assert!(res.is_ok());
    assert_eq!(dltuserinner.log_buf_len(), 65535);
}

#[test]
fn test_init_ll_set() {
    let mut dltuserinner = new_inner();
    let key = "DLT_INITIAL_LOG_LEVEL";
    let res = dltinitcommon(&mut dltuserinner, &environment(&[(key, "1234:4567:3")]));
    assert!(res.is_ok());
    assert_eq!(
        dltuserinner.initial_log_levels()[0],
        InitialLogLevel {
            app_id: opt_string_to_u8_4(Some(String::from("1234"))),
            context_id: opt_string_to_u8_4(Some(String::from("4567"))),
            log_level: 3
        }
    );
}

#[test]
fn test_env_inj_mode() {
    let mut dltuserinner = new_inner();
    let key = "DLT_DISABLE_INJECTION_MSG_AT_USER";
    let res = dltinitcommon(&mut dltuserinner, &environment(&[(key, "1")]));
    assert!(res.is_ok());
    assert_eq!(dltuserinner.config().injection_mode, false);
}

#[test]
fn empty_environment_changes_nothing() {
    let mut config = DaemonConfig::default();
    config.ring_buffer_min_size = 7;
    config.ring_buffer_max_size = 8;
    config.ring_buffer_step_size = 9;
    config.injection_mode = false;
    let mut inner = DltUserInner::new(config, PID).unwrap();
    dltinitcommon(&mut inner, &environment(&[])).unwrap();
    assert_eq!(inner.use_extended_header_for_non_verbose(), true);
    assert_eq!(inner.local_print_mode(), LocalPrintMode::Unset);
    assert_eq!(inner.config().ring_buffer_min_size, 7);
    assert_eq!(inner.config().ring_buffer_max_size, 8);
    assert_eq!(inner.config().ring_buffer_step_size, 9);
    assert_eq!(inner.log_buf_len(), 1390);
    assert!(inner.initial_log_levels().is_empty());
    assert_eq!(inner.config().injection_mode, false);
    assert_eq!(inner.ring_buffer_capacity(), 7);
}

#[test]
fn unset_variables_keep_what_earlier_ones_set() {
    let mut inner = new_inner();
    dltinitcommon(
        &mut inner,
        &environment(&[
            (ENV_DISABLE_EXTENDED_HEADER_FOR_NONVERBOSE, "1"),
            (ENV_LOCAL_PRINT_MODE, "ForceOff"),
            (ENV_BUFFER_MIN_SIZE, "600000"),
            (ENV_BUFFER_MAX_SIZE, "650000"),
            (ENV_BUFFER_STEP_SIZE, "700000"),
            (ENV_LOG_MSG_BUF_LEN, "100"),
            (ENV_INITIAL_LOG_LEVEL, "1234:4567:3"),
            (ENV_DISABLE_INJECTION_MSG, ""),
        ]),
    )
    .unwrap();
    dltinitcommon(&mut inner, &environment(&[])).unwrap();
    assert_eq!(inner.use_extended_header_for_non_verbose(), false);
    assert_eq!(inner.local_print_mode(), LocalPrintMode::ForceOff);
    assert_eq!(inner.config().ring_buffer_min_size, 600000);
    assert_eq!(inner.config().ring_buffer_max_size, 650000);
    assert_eq!(inner.config().ring_buffer_step_size, 700000);
    assert_eq!(inner.log_buf_len(), 100);
    assert_eq!(inner.initial_log_levels().len(), 1);
    assert_eq!(inner.config().injection_mode, false);
}

#[test]
fn sizes_move_in_one_direction_only() {
    let mut inner = new_inner();
    let env = environment(&[
        (ENV_BUFFER_MIN_SIZE, "499999"),
        (ENV_BUFFER_MAX_SIZE, "10000001"),
        (ENV_BUFFER_STEP_SIZE, "1"),
    ]);
    dltinitcommon(&mut inner, &env).unwrap();
    assert_eq!(inner.config().ring_buffer_min_size, 500000);
    assert_eq!(inner.config().ring_buffer_max_size, 10000000);
    assert_eq!(inner.config().ring_buffer_step_size, 500000);
    let env = environment(&[
        (ENV_BUFFER_MIN_SIZE, "+500001"),
        (ENV_BUFFER_MAX_SIZE, "0"),
        (ENV_BUFFER_STEP_SIZE, "4294967295"),
    ]);
    dltinitcommon(&mut inner, &env).unwrap();
    assert_eq!(inner.config().ring_buffer_min_size, 500001);
    assert_eq!(inner.config().ring_buffer_max_size, 0);
    assert_eq!(inner.config().ring_buffer_step_size, 4294967295);
}

#[test]
fn malformed_values_count_as_unset() {
    let mut config = DaemonConfig::default();
    config.ring_buffer_min_size = 600000;
    config.ring_buffer_max_size = 650000;
    config.ring_buffer_step_size = 700000;
    let mut inner = DltUserInner::new(config, PID).unwrap();
    dltinitcommon(
        &mut inner,
        &environment(&[
            (ENV_DISABLE_EXTENDED_HEADER_FOR_NONVERBOSE, "1"),
            (ENV_LOCAL_PRINT_MODE, "ForceOn"),
            (ENV_BUFFER_MIN_SIZE, "600001"),
            (ENV_BUFFER_MAX_SIZE, "640000"),
            (ENV_BUFFER_STEP_SIZE, "700001"),
            (ENV_LOG_MSG_BUF_LEN, "100"),
        ]),
    )
    .unwrap();
    assert_eq!(inner.use_extended_header_for_non_verbose(), false);
    assert_eq!(inner.config().ring_buffer_min_size, 600001);
    assert_eq!(inner.config().ring_buffer_max_size, 640000);
    assert_eq!(inner.config().ring_buffer_step_size, 700001);
    assert_eq!(inner.log_buf_len(), 100);
    let env = environment(&[
        (ENV_DISABLE_EXTENDED_HEADER_FOR_NONVERBOSE, "yes"),
        (ENV_LOCAL_PRINT_MODE, "forceon"),
        (ENV_BUFFER_MIN_SIZE, "-1"),
        (ENV_BUFFER_MAX_SIZE, "4294967296"),
        (ENV_BUFFER_STEP_SIZE, ""),
        (ENV_LOG_MSG_BUF_LEN, "12 "),
        (ENV_INITIAL_LOG_LEVEL, "1234:4567"),
    ]);
    assert!(dltinitcommon(&mut inner, &env).is_ok());
    assert_eq!(inner.use_extended_header_for_non_verbose(), true);
    assert_eq!(inner.local_print_mode(), LocalPrintMode::Unset);
    assert_eq!(inner.config().ring_buffer_min_size, 500000);
    assert_eq!(inner.config().ring_buffer_max_size, 10000000);
    assert_eq!(inner.config().ring_buffer_step_size, 500000);
    assert_eq!(inner.log_buf_len(), 1390);
    assert!(inner.initial_log_levels().is_empty());
}

#[test]
fn extended_header_and_print_mode_values() {
    for (value, expected) in [("1", false), ("0", true), ("2", true), ("-1", true), ("+1", false)] {
        let mut inner = new_inner();
        dltinitcommon(
            &mut inner,
            &environment(&[(ENV_DISABLE_EXTENDED_HEADER_FOR_NONVERBOSE, value)]),
        )
        .unwrap();
        assert_eq!(inner.use_extended_header_for_non_verbose(), expected, "{}", value);
    }
    for (value, expected) in [
        ("Automatic", LocalPrintMode::Automatic),
        ("ForceOn", LocalPrintMode::ForceOn),
        ("ForceOff", LocalPrintMode::ForceOff),
        ("Unset", LocalPrintMode::Unset),
        ("", LocalPrintMode::Unset),
    ] {
        let mut inner = new_inner();
        dltinitcommon(&mut inner, &environment(&[(ENV_LOCAL_PRINT_MODE, value)])).unwrap();
        assert_eq!(inner.local_print_mode(), expected);
    }
}

#[test]
fn buffer_length_is_capped() {
    let mut inner = new_inner();
    dltinitcommon(&mut inner, &environment(&[(ENV_LOG_MSG_BUF_LEN, "65536")])).unwrap();
    assert_eq!(inner.log_buf_len(), 65535);
    assert_eq!(inner.log_msg_buf_max_size(), 65535);
    dltinitcommon(&mut inner, &environment(&[(ENV_LOG_MSG_BUF_LEN, "0")])).unwrap();
    assert_eq!(inner.log_buf_len(), 0);
}

#[test]
fn initial_log_levels_are_read_piece_by_piece() {
    let mut levels: Vec<InitialLogLevel> = Vec::new();
    dlt_env_extract_ll_set("1234:4567:3", &mut levels);
    dlt_env_extract_ll_set("AB:C:-128:ignored", &mut levels);
    dlt_env_extract_ll_set("::0:", &mut levels);
    dlt_env_extract_ll_set("LONGNAME:\u{e9}:+127", &mut levels);
    assert_eq!(
        levels,
        vec![
            InitialLogLevel { app_id: [49, 50, 51, 52], context_id: [52, 53, 54, 55], log_level: 3 },
            InitialLogLevel { app_id: [65, 66, 0, 0], context_id: [67, 0, 0, 0], log_level: -128 },
            InitialLogLevel { app_id: [0, 0, 0, 0], context_id: [0, 0, 0, 0], log_level: 0 },
            InitialLogLevel { app_id: [76, 79, 78, 71], context_id: [0xe9, 0, 0, 0], log_level: 127 },
        ]
    );
    for malformed in ["", ":", "a:b", "a:b:", "a:b:c", "a:b:128", "a:b:-129", "a:b: 3", "a:b::3"] {
        dlt_env_extract_ll_set(malformed, &mut levels);
        assert_eq!(levels.len(), 4, "{:?}", malformed);
    }
}

#[test]
fn new_state() {
    let inner = new_inner();
    assert!(inner.ecu_id().is_none());
    assert!(inner.app_id().is_none());
    assert_eq!(inner.application_description(), "");
    assert_eq!(inner.pid(), PID);
    assert_eq!(inner.context_count(), 0);
    assert_eq!(inner.log_buf_len(), 1390);
    assert_eq!(inner.log_msg_buf_max_size(), 65535);
    assert_eq!(inner.local_print_mode(), LocalPrintMode::Unset);
    assert!(inner.use_extended_header_for_non_verbose());
    assert!(inner.dlt_log_handle().is_none());
    assert!(inner.dlt_user_handle().is_none());
    assert!(inner.user_path().is_none());
    assert_eq!(inner.ring_buffer_capacity(), 500000);
    let native = if cfg_is_little() { ByteOrder::LittleEndian } else { ByteOrder::BigEndian };
    assert_eq!(inner.byte_order(), native);
}

fn cfg_is_little() -> bool {
    1u32.to_ne_bytes() == 1u32.to_le_bytes()
}

#[test]
fn ring_buffer_needs_a_size() {
    let mut config = DaemonConfig::default();
    config.ring_buffer_min_size = 0;
    assert!(matches!(DltUserInner::new(config, PID), Err(DltUserError::Unknown)));
    let mut config = DaemonConfig::default();
    config.ring_buffer_min_size = 1;
    assert_eq!(DltUserInner::new(config, PID).unwrap().ring_buffer_capacity(), 1);
}

#[test]
fn context_is_registered_once() {
    let mut inner = new_inner();
    let first = inner.new_context("CON1", "First Context").unwrap();
    assert_eq!(first.context_id(), [67, 79, 78, 49]);
    assert_eq!(first.description(), "First Context");
    assert_eq!(first.log_level(), 0);
    assert_eq!(first.trace_status(), 1);
    assert_eq!(first.message_counter(), 0);
    assert_eq!(inner.context_count(), 1);
    assert!(inner.new_context("CON1", "Another description").is_none());
    assert!(inner.new_context("CON1 with a longer name", "x").is_none());
    assert_eq!(inner.context_count(), 1);
    assert_eq!(first.description(), "First Context");
    let second = inner.new_context("CON", "Second").unwrap();
    assert_eq!(second.context_id(), [67, 79, 78, 0]);
    assert_eq!(inner.context_count(), 2);
    assert!(inner.new_context("", "empty name").is_some());
    assert!(inner.new_context("", "empty name again").is_none());
    assert_eq!(inner.context_count(), 3);
}

#[test]
fn non_ascii_contexts_are_rejected() {
    let mut inner = new_inner();
    assert!(inner.new_context("C\u{d6}N1", "description").is_none());
    assert!(inner.new_context("CON1", "d\u{e9}scription").is_none());
    assert!(inner.new_context("\u{4e2d}", "\u{6587}").is_none());
    assert_eq!(inner.context_count(), 0);
    assert!(inner.new_context("CON1", "description").is_some());
    assert!(inner.new_context("CON2", "d\u{e9}scription").is_none());
    assert_eq!(inner.context_count(), 1);
}

/// A client whose control endpoint has been opened.
fn connected_user() -> DltUser {
    let mut user = DltUser::new(new_inner());
    user.set_dlt_log_handle(Some(5));
    user
}

#[test]
fn facade_rejects_what_the_registry_rejects() {
    let mut user = connected_user();
    assert!(user.register_context("CON1", "First Context").is_ok());
    assert!(matches!(
        user.register_context("CON1", "First Context"),
        Err(DltError::DltReturnWrongParameter)
    ));
    assert!(matches!(
        user.register_context("CON\u{e9}", "First Context"),
        Err(DltError::DltReturnWrongParameter)
    ));
    assert_eq!(user.inner().context_count(), 1);
    user.set_dlt_log_handle(None);
    assert!(matches!(
        user.register_context("CON1", "First Context"),
        Err(DltError::DltReturnWrongParameter)
    ));
}

#[test]
fn nothing_goes_out_without_a_control_endpoint() {
    let mut user = DltUser::new(new_inner());
    assert!(matches!(
        user.dlt_register_app("ECU1", "first test"),
        Err(DltError::FileSizeError)
    ));
    assert_eq!(user.inner().app_id().as_deref(), Some("ECU1"));
    assert_eq!(user.inner().application_description(), "first test");
    assert!(matches!(
        user.register_context("CON1", "First Context"),
        Err(DltError::FileSizeError)
    ));
    assert_eq!(user.inner().context_count(), 0);
    assert!(user.inner().accepts_context("CON1", "First Context"));
    assert!(matches!(user.unregister_application(), Err(DltError::FileSizeError)));
    let context = user.new_context("CON1", "First Context").unwrap();
    assert!(!user.inner().accepts_context("CON1", "First Context"));
    assert!(!user.inner().accepts_context("CON2", "d\u{e9}scription"));
    assert!(matches!(user.unregister_context(&context), Err(DltError::FileSizeError)));
    user.set_dlt_log_handle(Some(5));
    assert!(user.dlt_register_app("ECU1", "first test").is_ok());
    assert!(user.register_context("CON2", "Second Context").is_ok());
    assert!(user.unregister_context(&context).is_ok());
    assert!(user.unregister_application().is_ok());
}

#[test]
fn unregistering_keeps_the_context() {
    let mut user = connected_user();
    let (context, _) = user.register_context("CON1", "First Context").unwrap();
    assert!(user.unregister_context(&context).is_ok());
    assert_eq!(user.inner().context_count(), 1);
    assert!(user.new_context("CON1", "again").is_none());
    assert_eq!(context.description(), "First Context");
    assert!(user.unregister_application().is_ok());
}

#[test]
fn library_version() {
    let user = DltUser::new(new_inner());
    assert!(user.dlt_check_library_version(18, 2));
    assert!(!user.dlt_check_library_version(2, 18));
    assert!(!user.dlt_check_library_version(18, 3));
    assert!(!user.dlt_check_library_version(17, 2));
}

#[test]
fn identity_is_overwritten() {
    let mut user = DltUser::new(new_inner());
    user.set_ecu_id(String::from("ECU7"));
    user.set_app_info(String::from("APP"), String::from("one"));
    assert_eq!(user.inner().ecu_id().as_deref(), Some("ECU7"));
    assert_eq!(user.inner().app_id().as_deref(), Some("APP"));
    assert_eq!(user.inner().application_description(), "one");
    assert!(user.dlt_register_app("FOTA", "THIS IS FIRST TEST").is_err());
    assert_eq!(user.inner().ecu_id().as_deref(), Some("FOTA"));
    assert_eq!(user.inner().app_id().as_deref(), Some("FOTA"));
    assert_eq!(user.inner().application_description(), "THIS IS FIRST TEST");
}

fn u32_in(order: ByteOrder, x: u32) -> [u8; 4] {
    match order {
        ByteOrder::LittleEndian => x.to_le_bytes(),
        ByteOrder::BigEndian => x.to_be_bytes(),
    }
}

#[test]
fn frames_for_the_control_endpoint() {
    let mut user = DltUser::new(new_inner());
    user.set_dlt_log_handle(Some(5));
    let order = user.inner().byte_order();
    let frame = user.dlt_register_app("ECU1", "first test").unwrap();
    let mut expected = vec![0x44, 0x55, 0x48, 1];
    expected.extend_from_slice(&u32_in(order, 2));
    expected.extend_from_slice(b"ECU1");
    expected.extend_from_slice(&u32_in(order, PID));
    expected.extend_from_slice(&u32_in(order, 10));
    expected.extend_from_slice(b"first test");
    assert_eq!(frame, expected);

    let (context, frame) = user.register_context("CON1", "First Context").unwrap();
    let mut expected = vec![0x44, 0x55, 0x48, 1];
    expected.extend_from_slice(&u32_in(order, 4));
    expected.extend_from_slice(b"ECU1");
    expected.extend_from_slice(b"CON1");
    expected.extend_from_slice(&u32_in(order, 0));
    expected.extend_from_slice(&[0xfe, 0xfe]);
    expected.extend_from_slice(&u32_in(order, PID));
    expected.extend_from_slice(&u32_in(order, 13));
    expected.extend_from_slice(b"First Context");
    assert_eq!(frame, expected);

    let frame = user.unregister_context(&context).unwrap();
    let mut expected = vec![0x44, 0x55, 0x48, 1];
    expected.extend_from_slice(&u32_in(order, 5));
    expected.extend_from_slice(b"ECU1");
    expected.extend_from_slice(b"CON1");
    expected.extend_from_slice(&u32_in(order, PID));
    assert_eq!(frame, expected);

    let frame = user.unregister_application().unwrap();
    let mut expected = vec![0x44, 0x55, 0x48, 1];
    expected.extend_from_slice(&u32_in(order, 3));
    expected.extend_from_slice(b"ECU1");
    expected.extend_from_slice(&u32_in(order, PID));
    assert_eq!(frame, expected);
}

#[test]
fn basic_lib() {
    let mut dlt_user = connected_user();
    let regiter_app = dlt_user.dlt_register_app("FOTA", "THIS IS FIRST TEST");
    assert!(regiter_app.is_ok());
    let (registered_context, _frame) = dlt_user.register_context("CON", "First Context").unwrap();
    let unregistered_context = dlt_user.unregister_context(&registered_context);
    assert!(unregistered_context.is_ok());
    let unregitered_app = dlt_user.unregister_application();
    assert!(unregitered_app.is_ok());
    assert_eq!(registered_context.context_id(), [67, 79, 78, 0]);
    assert_eq!(dlt_user.inner().app_id().as_deref(), Some("FOTA"));
}
