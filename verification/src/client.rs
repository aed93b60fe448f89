//! The client's state: who the application is, which logging contexts it
//! has registered, and how the process environment adjusts its settings.

use std::sync::Arc;
use vstd::prelude::*;
use crate::config::DaemonConfig;
use crate::error::{DltError, DltUserError};
use crate::ring::{new_ring, ring_capacity, ring_contents, ring_size, ByteRing};
use crate::text::{
    chars_to_u8_4, fields, i32_numeral, i8_numeral, id_of, parse_i32, parse_i8_chars, parse_u32,
    same_text, split_fields, str_chars, str_to_u8_4, text_of, u32_numeral, views,
};
use crate::wire::{host_byte_order, ByteOrder};

verus! {

/// Whether a connection to the daemon is known to exist.
#[derive(Debug, Clone, Copy, PartialEq, Eq, Structural)]
pub enum LogState {
    Unknown,
    Disconnected,
    Connected,
}

impl Default for LogState {
    fn default() -> (state: Self)
        ensures
            state == LogState::Unknown,
    {
        LogState::Unknown
    }
}

/// Whether records are also printed locally.
#[derive(Debug, Clone, Copy, PartialEq, Eq, Structural)]
pub enum LocalPrintMode {
    Unset,
    Automatic,
    ForceOn,
    ForceOff,
}

impl Default for LocalPrintMode {
    fn default() -> (mode: Self)
        ensures
            mode == LocalPrintMode::Unset,
    {
        LocalPrintMode::Unset
    }
}

/// A log level that a context of an application starts with.
#[derive(Debug, PartialEq)]
pub struct InitialLogLevel {
    pub app_id: [u8; 4],
    pub context_id: [u8; 4],
    pub log_level: i8,
}

/// What an `InitialLogLevel` holds.
pub struct InitialLevel {
    pub app_id: Seq<u8>,
    pub context_id: Seq<u8>,
    pub log_level: i8,
}

impl View for InitialLogLevel {
    type V = InitialLevel;

    open spec fn view(&self) -> InitialLevel {
        InitialLevel {
            app_id: self.app_id@,
            context_id: self.context_id@,
            log_level: self.log_level,
        }
    }
}

/// What the registry knows of one logging context.
pub struct ContextRecord {
    pub context_id: Seq<u8>,
    pub log_level: i8,
    pub trace_status: i8,
    pub message_counter: u8,
    pub description: Seq<char>,
}

impl ContextRecord {
    /// The record of a context that has just been registered: log level 0,
    /// tracing on, no message counted yet.
    pub open spec fn fresh(context_id: Seq<u8>, description: Seq<char>) -> ContextRecord {
        ContextRecord {
            context_id,
            log_level: 0,
            trace_status: 1,
            message_counter: 0,
            description,
        }
    }
}

struct ContextInner {
    context_id: [u8; 4],
    log_level: i8,
    trace_status: i8,
    message_counter: u8,
    description: String,
}

impl View for ContextInner {
    type V = ContextRecord;

    closed spec fn view(&self) -> ContextRecord {
        ContextRecord {
            context_id: self.context_id@,
            log_level: self.log_level,
            trace_status: self.trace_status,
            message_counter: self.message_counter,
            description: self.description@,
        }
    }
}

struct ContextStore {
    inner: Arc<ContextInner>,
}

impl View for ContextStore {
    type V = ContextRecord;

    closed spec fn view(&self) -> ContextRecord {
        self.inner@
    }
}

/// `Arc::clone`: one more handle to the same record.
#[verifier::external_body]
fn share_record(record: &Arc<ContextInner>) -> (shared: Arc<ContextInner>)
    ensures
        *shared == **record,
{
    Arc::clone(record)
}

impl ContextStore {
    fn share(&self) -> (shared: ContextStore)
        ensures
            shared@ == self@,
    {
        ContextStore { inner: share_record(&self.inner) }
    }
}

/// The handle of a registered logging context. It stays usable for as long
/// as its holder keeps it.
pub struct Context {
    store: ContextStore,
}

impl View for Context {
    type V = ContextRecord;

    closed spec fn view(&self) -> ContextRecord {
        self.store@
    }
}

impl Context {
    /// The identifier of a context has four bytes.
    pub proof fn lemma_identifier_length(&self)
        ensures
            self@.context_id.len() == 4,
    {
    }

    pub fn context_id(&self) -> (id: [u8; 4])
        ensures
            id@ == self@.context_id,
    {
        self.store.inner.context_id
    }

    pub fn log_level(&self) -> (level: i8)
        ensures
            level == self@.log_level,
    {
        self.store.inner.log_level
    }

    pub fn trace_status(&self) -> (status: i8)
        ensures
            status == self@.trace_status,
    {
        self.store.inner.trace_status
    }

    pub fn message_counter(&self) -> (count: u8)
        ensures
            count == self@.message_counter,
    {
        self.store.inner.message_counter
    }

    pub fn description(&self) -> (text: &str)
        ensures
            text@ == self@.description,
    {
        self.store.inner.description.as_str()
    }
}

/// What the client's state holds.
#[verifier::ext_equal]
pub struct ClientView {
    pub ecu_id: Option<Seq<char>>,
    pub app_id: Option<Seq<char>>,
    pub pid: u32,
    pub byte_order: ByteOrder,
    pub config: DaemonConfig,
    pub dlt_log_handle: Option<i32>,
    pub dlt_user_handle: Option<i32>,
    pub logging_to_file: bool,
    pub overflow: Option<u32>,
    pub application_description: Seq<char>,
    pub verbose_mode: bool,
    pub use_extended_header_for_non_verbose: bool,
    pub with_session_id: bool,
    pub with_timestamp: bool,
    pub with_ecu_id: bool,
    pub enable_local_print: bool,
    pub local_print_mode: LocalPrintMode,
    pub log_buf_len: u32,
    pub log_msg_buf_max_size: u32,
    pub log_state: LogState,
    pub contexts: Seq<ContextRecord>,
    pub initial_log_levels: Seq<InitialLevel>,
    pub ring_capacity: nat,
    pub ring_contents: Seq<u8>,
    pub user_path: Option<Seq<char>>,
}

impl ClientView {
    /// True when a context with this identifier is registered.
    pub open spec fn has_context(self, context_id: Seq<u8>) -> bool {
        exists|i: int| 0 <= i < self.contexts.len() && self.contexts[i].context_id == context_id
    }

    /// Every registered context has an identifier of four bytes, and no two
    /// have the same.
    pub open spec fn valid(self) -> bool {
        &&& forall|i: int|
            0 <= i < self.contexts.len() ==> (#[trigger] self.contexts[i]).context_id.len() == 4
        &&& forall|i: int, j: int|
            0 <= i < j < self.contexts.len() ==> self.contexts[i].context_id
                != self.contexts[j].context_id
    }

    /// The state of a client that has just been set up for a process.
    pub open spec fn initial(config: DaemonConfig, pid: u32, byte_order: ByteOrder) -> ClientView {
        ClientView {
            ecu_id: None,
            app_id: None,
            pid,
            byte_order,
            config,
            dlt_log_handle: None,
            dlt_user_handle: None,
            logging_to_file: false,
            overflow: None,
            application_description: Seq::empty(),
            verbose_mode: true,
            use_extended_header_for_non_verbose: true,
            with_session_id: true,
            with_timestamp: true,
            with_ecu_id: true,
            enable_local_print: false,
            local_print_mode: LocalPrintMode::Unset,
            log_buf_len: DEFAULT_LOG_BUF_LEN,
            log_msg_buf_max_size: LOG_MSG_BUF_MAX_SIZE,
            log_state: LogState::Unknown,
            contexts: Seq::empty(),
            initial_log_levels: Seq::empty(),
            ring_capacity: config.ring_buffer_min_size as nat,
            ring_contents: Seq::empty(),
            user_path: None,
        }
    }

    /// The state after an attempt to register a context, and the record of
    /// the context where the attempt succeeds. It succeeds when both texts
    /// are ASCII and no context with the same identifier is registered.
    pub open spec fn register(self, context_id: Seq<char>, description: Seq<char>) -> (
        ClientView,
        Option<ContextRecord>,
    ) {
        if vstd::utf8::is_ascii_chars(context_id) && vstd::utf8::is_ascii_chars(description)
            && !self.has_context(id_of(context_id)) {
            let record = ContextRecord::fresh(id_of(context_id), description);
            (ClientView { contexts: self.contexts.push(record), ..self }, Some(record))
        } else {
            (self, None)
        }
    }
}

/// Registering keeps the registry free of duplicates, and its identifiers
/// four bytes long.
pub proof fn lemma_register_keeps_valid(
    state: ClientView,
    context_id: Seq<char>,
    description: Seq<char>,
)
    requires
        state.valid(),
    ensures
        state.register(context_id, description).0.valid(),
{
}

/// A context identifier can be registered once: with ASCII texts and an
/// identifier that is not taken, the first attempt hands out a context, and
/// a second attempt with the same identifier, whatever its description,
/// hands out none and leaves the state, the first context's record
/// included, as the first attempt left it.
pub proof fn lemma_register_twice(
    state: ClientView,
    context_id: Seq<char>,
    first: Seq<char>,
    second: Seq<char>,
)
    requires
        vstd::utf8::is_ascii_chars(context_id),
        vstd::utf8::is_ascii_chars(first),
        !state.has_context(id_of(context_id)),
    ensures
        state.register(context_id, first).1 == Some(
            ContextRecord::fresh(id_of(context_id), first),
        ),
        state.register(context_id, first).0.register(context_id, second) == (
            state.register(context_id, first).0,
            None::<ContextRecord>,
        ),
{
    let after = state.register(context_id, first).0;
    let last = state.contexts.len() as int;
    assert(after.contexts[last].context_id == id_of(context_id));
}

/// Contexts are told apart by their identifiers alone: once a context is
/// registered, no name with the same first four bytes can be registered,
/// whatever else differs.
pub proof fn lemma_register_same_identifier(
    state: ClientView,
    context_id: Seq<char>,
    description: Seq<char>,
    other_id: Seq<char>,
    other_description: Seq<char>,
)
    requires
        state.register(context_id, description).1 is Some,
        id_of(other_id) == id_of(context_id),
    ensures
        state.register(context_id, description).0.register(other_id, other_description) == (
            state.register(context_id, description).0,
            None::<ContextRecord>,
        ),
{
    let after = state.register(context_id, description).0;
    let last = state.contexts.len() as int;
    assert(after.contexts[last].context_id == id_of(context_id));
}

/// A context whose identifier or description is not ASCII is never
/// registered, and the attempt leaves the state as it is.
pub proof fn lemma_register_rejects_non_ascii(
    state: ClientView,
    context_id: Seq<char>,
    description: Seq<char>,
)
    requires
        !vstd::utf8::is_ascii_chars(context_id) || !vstd::utf8::is_ascii_chars(description),
    ensures
        state.register(context_id, description) == (state, None::<ContextRecord>),
        state.register(context_id, description).0.contexts.len() == state.contexts.len(),
{
}

/// The state of the one client of a process.
pub struct DltUserInner {
    ecu_id: Option<String>,
    app_id: Option<String>,
    pid: u32,
    byte_order: ByteOrder,
    config: DaemonConfig,
    dlt_log_handle: Option<i32>,
    dlt_user_handle: Option<i32>,
    logging_to_file: bool,
    overflow: Option<u32>,
    application_description: String,
    verbose_mode: bool,
    use_extended_header_for_non_verbose: bool,
    with_session_id: bool,
    with_timestamp: bool,
    with_ecu_id: bool,
    enable_local_print: bool,
    local_print_mode: LocalPrintMode,
    log_buf_len: u32,
    log_msg_buf_max_size: u32,
    log_state: LogState,
    contexts: Vec<ContextStore>,
    initial_log_levels: Vec<InitialLogLevel>,
    rb: ByteRing,
    user_path: Option<String>,
}

impl View for DltUserInner {
    type V = ClientView;

    closed spec fn view(&self) -> ClientView {
        ClientView {
            ecu_id: text_of(self.ecu_id),
            app_id: text_of(self.app_id),
            pid: self.pid,
            byte_order: self.byte_order,
            config: self.config,
            dlt_log_handle: self.dlt_log_handle,
            dlt_user_handle: self.dlt_user_handle,
            logging_to_file: self.logging_to_file,
            overflow: self.overflow,
            application_description: self.application_description@,
            verbose_mode: self.verbose_mode,
            use_extended_header_for_non_verbose: self.use_extended_header_for_non_verbose,
            with_session_id: self.with_session_id,
            with_timestamp: self.with_timestamp,
            with_ecu_id: self.with_ecu_id,
            enable_local_print: self.enable_local_print,
            local_print_mode: self.local_print_mode,
            log_buf_len: self.log_buf_len,
            log_msg_buf_max_size: self.log_msg_buf_max_size,
            log_state: self.log_state,
            contexts: self.contexts@.map_values(|store: ContextStore| store@),
            initial_log_levels: level_views(self.initial_log_levels@),
            ring_capacity: ring_capacity(self.rb),
            ring_contents: ring_contents(self.rb),
            user_path: text_of(self.user_path),
        }
    }
}

fn same_id(a: &[u8; 4], b: &[u8; 4]) -> (same: bool)
    ensures
        same == (a@ == b@),
{
    let same = a[0] == b[0] && a[1] == b[1] && a[2] == b[2] && a[3] == b[3];
    if same {
        assert(a@ =~= b@);
    }
    same
}

impl DltUserInner {
    /// The state is well formed when its contexts have identifiers of four
    /// bytes, no two of them the same.
    pub open spec fn wf(&self) -> bool {
        self@.valid()
    }

    /// Sets up the state of a client for the process `pid`. The ring buffer
    /// is made with the configured minimum size, which must be positive and
    /// at most `usize::MAX / 2`.
    pub fn new(config: DaemonConfig, pid: u32) -> (made: Result<Self, DltUserError>)
        ensures
            made is Ok <==> 0 < config.ring_buffer_min_size <= usize::MAX / 2,
            made matches Ok(client) ==> client.wf() && client@ == ClientView::initial(
                config,
                pid,
                client@.byte_order,
            ),
    {
        let rb_starting_size: u32 = config.ring_buffer_min_size;
        if rb_starting_size == 0 || rb_starting_size as usize > usize::MAX / 2 {
            return Err(DltUserError::Unknown);
        }
        let dlt_user = DltUserInner {
            ecu_id: None,
            app_id: None,
            pid,
            byte_order: host_byte_order(),
            config,
            dlt_log_handle: None,
            dlt_user_handle: None,
            logging_to_file: false,
            overflow: None,
            application_description: String::new(),
            verbose_mode: true,
            use_extended_header_for_non_verbose: true,
            with_session_id: true,
            with_timestamp: true,
            with_ecu_id: true,
            enable_local_print: false,
            local_print_mode: LocalPrintMode::Unset,
            log_state: LogState::default(),
            contexts: Vec::new(),
            initial_log_levels: Vec::new(),
            log_buf_len: DEFAULT_LOG_BUF_LEN,
            log_msg_buf_max_size: LOG_MSG_BUF_MAX_SIZE,
            rb: new_ring(rb_starting_size as usize),
            user_path: None,
        };
        Ok(dlt_user)
    }

    /// True when a context with this identifier is registered.
    fn has_context(&self, context_id: &[u8; 4]) -> (found: bool)
        ensures
            found == self@.has_context(context_id@),
    {
        let mut i: usize = 0;
        while i < self.contexts.len()
            invariant
                i <= self.contexts.len(),
                forall|j: int| 0 <= j < i ==> self@.contexts[j].context_id != context_id@,
            decreases self.contexts.len() - i,
        {
            if same_id(&self.contexts[i].inner.context_id, context_id) {
                assert(self@.contexts[i as int].context_id == context_id@);
                return true;
            }
            i += 1;
        }
        false
    }

    /// True when a context of this name and description would be
    /// registered: both texts are ASCII, and no context with the same
    /// identifier is registered.
    pub fn accepts_context(&self, context_id: &str, description: &str) -> (accepted: bool)
        ensures
            accepted == (self@.register(context_id@, description@).1 is Some),
    {
        if !context_id.is_ascii() {
            return false;
        }
        if !description.is_ascii() {
            return false;
        }
        let context_id_bytes: [u8; 4] = str_to_u8_4(context_id);
        !self.has_context(&context_id_bytes)
    }

    /// Registers a logging context and hands out its handle. Nothing is
    /// registered, and the state stays as it is, when one of the texts is
    /// not ASCII or a context with the same identifier exists.
    pub fn new_context(&mut self, context_id: &str, description: &str) -> (handle: Option<
        Context,
    >)
        requires
            old(self).wf(),
        ensures
            final(self).wf(),
            final(self)@ == old(self)@.register(context_id@, description@).0,
            match handle {
                Some(context) => Some(context@),
                None => None,
            } == old(self)@.register(context_id@, description@).1,
            handle is None ==> *final(self) == *old(self),
    {
        if !context_id.is_ascii() {
            return None;
        }
        if !description.is_ascii() {
            return None;
        }
        let context_id_bytes: [u8; 4] = str_to_u8_4(context_id);
        if self.has_context(&context_id_bytes) {
            return None;
        }
        let inner = ContextInner {
            context_id: context_id_bytes,
            log_level: 0,
            trace_status: 1,
            message_counter: 0,
            description: description.to_owned(),
        };
        let context_store = ContextStore { inner: Arc::new(inner) };
        let shared = context_store.share();
        let ghost record = context_store@;
        let ghost before = self@;
        self.contexts.push(shared);
        proof {
            assert(self@ =~= ClientView { contexts: before.contexts.push(record), ..before });
        }
        Some(Context { store: context_store })
    }

    /// Number of registered contexts.
    pub fn context_count(&self) -> (count: usize)
        ensures
            count == self@.contexts.len(),
    {
        self.contexts.len()
    }

    pub fn ecu_id(&self) -> (id: &Option<String>)
        ensures
            text_of(*id) == self@.ecu_id,
    {
        &self.ecu_id
    }

    pub fn app_id(&self) -> (id: &Option<String>)
        ensures
            text_of(*id) == self@.app_id,
    {
        &self.app_id
    }

    pub fn application_description(&self) -> (text: &str)
        ensures
            text@ == self@.application_description,
    {
        self.application_description.as_str()
    }

    pub fn pid(&self) -> (pid: u32)
        ensures
            pid == self@.pid,
    {
        self.pid
    }

    pub fn byte_order(&self) -> (order: ByteOrder)
        ensures
            order == self@.byte_order,
    {
        self.byte_order
    }

    pub fn config(&self) -> (config: &DaemonConfig)
        ensures
            *config == self@.config,
    {
        &self.config
    }

    pub fn use_extended_header_for_non_verbose(&self) -> (enabled: bool)
        ensures
            enabled == self@.use_extended_header_for_non_verbose,
    {
        self.use_extended_header_for_non_verbose
    }

    pub fn local_print_mode(&self) -> (mode: LocalPrintMode)
        ensures
            mode == self@.local_print_mode,
    {
        self.local_print_mode
    }

    pub fn log_buf_len(&self) -> (len: u32)
        ensures
            len == self@.log_buf_len,
    {
        self.log_buf_len
    }

    pub fn log_msg_buf_max_size(&self) -> (size: u32)
        ensures
            size == self@.log_msg_buf_max_size,
    {
        self.log_msg_buf_max_size
    }

    pub fn initial_log_levels(&self) -> (levels: &Vec<InitialLogLevel>)
        ensures
            level_views(levels@) == self@.initial_log_levels,
    {
        &self.initial_log_levels
    }

    /// The capacity of the ring buffer, as the buffer itself reports it.
    pub fn ring_buffer_capacity(&self) -> (capacity: usize)
        ensures
            capacity == self@.ring_capacity,
    {
        ring_size(&self.rb)
    }

    pub fn dlt_log_handle(&self) -> (handle: Option<i32>)
        ensures
            handle == self@.dlt_log_handle,
    {
        self.dlt_log_handle
    }

    pub fn dlt_user_handle(&self) -> (handle: Option<i32>)
        ensures
            handle == self@.dlt_user_handle,
    {
        self.dlt_user_handle
    }

    pub fn user_path(&self) -> (path: &Option<String>)
        ensures
            text_of(*path) == self@.user_path,
    {
        &self.user_path
    }

    pub fn set_ecu_id(&mut self, ecu_id: String)
        ensures
            final(self)@ == (ClientView { ecu_id: Some(ecu_id@), ..old(self)@ }),
    {
        self.ecu_id = Some(ecu_id);
    }

    pub fn set_app_info(&mut self, app_id: String, description: String)
        ensures
            final(self)@ == (ClientView {
                app_id: Some(app_id@),
                application_description: description@,
                ..old(self)@
            }),
    {
        self.app_id = Some(app_id);
        self.application_description = description;
    }

    /// Records the descriptor of the endpoint on which control messages go
    /// to the daemon, or that there is none.
    pub fn set_dlt_log_handle(&mut self, handle: Option<i32>)
        ensures
            final(self)@ == (ClientView { dlt_log_handle: handle, ..old(self)@ }),
    {
        self.dlt_log_handle = handle;
    }

    /// Records the descriptor of the endpoint on which the daemon reaches
    /// this process, and the path under which that endpoint was made.
    pub fn set_dlt_user_handle(&mut self, handle: Option<i32>, user_path: Option<String>)
        ensures
            final(self)@ == (ClientView {
                dlt_user_handle: handle,
                user_path: text_of(user_path),
                ..old(self)@
            }),
    {
        self.dlt_user_handle = handle;
        self.user_path = user_path;
    }
}

/// The initial log level that a text of the form `app:context:level` asks
/// for. Pieces after the third are ignored; a text with fewer than three
/// pieces, or whose third piece is no number that fits eight bits, asks for
/// none.
pub open spec fn requested_level(text: Seq<char>) -> Option<InitialLevel> {
    let pieces = fields(text, ':');
    if pieces.len() >= 3 {
        match i8_numeral(pieces[2]) {
            Some(log_level) => Some(
                InitialLevel {
                    app_id: id_of(pieces[0]),
                    context_id: id_of(pieces[1]),
                    log_level,
                },
            ),
            None => None,
        }
    } else {
        None
    }
}

/// The initial log levels once `text` has been taken in.
pub open spec fn levels_with(levels: Seq<InitialLevel>, text: Seq<char>) -> Seq<InitialLevel> {
    match requested_level(text) {
        Some(level) => levels.push(level),
        None => levels,
    }
}

/// The views of a list of initial log levels.
pub open spec fn level_views(levels: Seq<InitialLogLevel>) -> Seq<InitialLevel> {
    levels.map_values(|level: InitialLogLevel| level@)
}

/// Takes an initial log level of the form `app:context:level` into the
/// list. A text that asks for none leaves the list as it is.
pub fn dlt_env_extract_ll_set(
    env_ini_loglevels: &str,
    initial_log_levels: &mut Vec<InitialLogLevel>,
)
    ensures
        level_views(final(initial_log_levels)@) == levels_with(
            level_views(old(initial_log_levels)@),
            env_ini_loglevels@,
        ),
        requested_level(env_ini_loglevels@) is Some ==> final(initial_log_levels)@.drop_last()
            == old(initial_log_levels)@,
        requested_level(env_ini_loglevels@) is None ==> final(initial_log_levels)@ == old(
            initial_log_levels,
        )@,
{
    let chars = str_chars(env_ini_loglevels);
    let value = split_fields(&chars, ':');
    if value.len() < 3 {
        return ;
    }
    let app_id: [u8; 4] = chars_to_u8_4(&value[0]);
    let context_id: [u8; 4] = chars_to_u8_4(&value[1]);
    match parse_i8_chars(&value[2]) {
        Some(ll) => {
            let initial_log_level = InitialLogLevel { app_id, context_id, log_level: ll };
            initial_log_levels.push(initial_log_level);
        },
        None => {},
    }
}

/// Variable that switches the extended header of non-verbose messages off.
pub const ENV_DISABLE_EXTENDED_HEADER_FOR_NONVERBOSE: &'static str =
    "DLT_DISABLE_EXTENDED_HEADER_FOR_NONVERBOSE";

/// Variable that names the local print mode.
pub const ENV_LOCAL_PRINT_MODE: &'static str = "DLT_LOCAL_PRINT_MODE";

/// Variable that raises the minimum size of the ring buffer.
pub const ENV_BUFFER_MIN_SIZE: &'static str = "DLT_USER_ENV_BUFFER_MIN_SIZE";

/// Variable that lowers the maximum size of the ring buffer.
pub const ENV_BUFFER_MAX_SIZE: &'static str = "DLT_USER_ENV_BUFFER_MAX_SIZE";

/// Variable that raises the step by which the ring buffer grows.
pub const ENV_BUFFER_STEP_SIZE: &'static str = "DLT_USER_ENV_BUFFER_STEP_SIZE";

/// Variable that sets the length of the buffer for one record.
pub const ENV_LOG_MSG_BUF_LEN: &'static str = "DLT_LOG_MSG_BUF_LEN";

/// Variable that gives an initial log level.
pub const ENV_INITIAL_LOG_LEVEL: &'static str = "DLT_INITIAL_LOG_LEVEL";

/// Variable that switches injection messages off.
pub const ENV_DISABLE_INJECTION_MSG: &'static str = "DLT_DISABLE_INJECTION_MSG_AT_USER";

/// What the process environment holds for the client: for each variable its
/// value, or `None` where it is not set.
pub struct EnvSettings {
    pub disable_extended_header_for_nonverbose: Option<String>,
    pub local_print_mode: Option<String>,
    pub buffer_min_size: Option<String>,
    pub buffer_max_size: Option<String>,
    pub buffer_step_size: Option<String>,
    pub log_msg_buf_len: Option<String>,
    pub initial_log_level: Option<String>,
    pub disable_injection_msg: Option<String>,
}

/// Minimum size of the ring buffer that holds where the environment gives
/// one that cannot be read.
pub const DEFAULT_BUFFER_MIN_SIZE: u32 = 500000;

/// Maximum size of the ring buffer that holds where the environment gives
/// one that cannot be read.
pub const DEFAULT_BUFFER_MAX_SIZE: u32 = 10000000;

/// Step by which the ring buffer grows where the environment gives one that
/// cannot be read.
pub const DEFAULT_BUFFER_STEP_SIZE: u32 = 500000;

/// Length of the buffer for one record in a new client, and where the
/// environment gives one that cannot be read.
pub const DEFAULT_LOG_BUF_LEN: u32 = 1390;

/// Largest length that the buffer for one record can have.
pub const LOG_MSG_BUF_MAX_SIZE: u32 = 65535;

/// Whether non-verbose messages carry the extended header. A variable that
/// is not set leaves this as it is. A variable that is set switches the
/// header off where it holds the number 1 and on otherwise, also where it
/// holds no number.
pub open spec fn extended_header_choice(current: bool, setting: Option<Seq<char>>) -> bool {
    match setting {
        Some(text) => match i32_numeral(text) {
            Some(n) => n != 1,
            None => true,
        },
        None => current,
    }
}

/// The local print mode. A variable that is not set leaves the mode as it
/// is. A variable that is set gives the mode that it names, and `Unset`
/// where it names none.
pub open spec fn print_mode_choice(
    current: LocalPrintMode,
    setting: Option<Seq<char>>,
) -> LocalPrintMode {
    match setting {
        Some(text) => if text == "Automatic"@ {
            LocalPrintMode::Automatic
        } else if text == "ForceOn"@ {
            LocalPrintMode::ForceOn
        } else if text == "ForceOff"@ {
            LocalPrintMode::ForceOff
        } else {
            LocalPrintMode::Unset
        },
        None => current,
    }
}

/// A size that the variable can only raise. A variable that is not set
/// leaves the size as it is. A number gives the larger of the current size
/// and the number; a value that is no number gives `fallback`.
pub open spec fn raised_size(current: u32, setting: Option<Seq<char>>, fallback: u32) -> u32 {
    match setting {
        Some(text) => match u32_numeral(text) {
            Some(n) => if n > current {
                n
            } else {
                current
            },
            None => fallback,
        },
        None => current,
    }
}

/// A size that the variable can only lower. A variable that is not set
/// leaves the size as it is. A number gives the smaller of the current size
/// and the number; a value that is no number gives `fallback`.
pub open spec fn lowered_size(current: u32, setting: Option<Seq<char>>, fallback: u32) -> u32 {
    match setting {
        Some(text) => match u32_numeral(text) {
            Some(n) => if n < current {
                n
            } else {
                current
            },
            None => fallback,
        },
        None => current,
    }
}

/// The length of the buffer for one record. A variable that is not set
/// leaves the length as it is. A number gives that number, but no more than
/// `limit`; a value that is no number gives the default length.
pub open spec fn buffer_length_choice(
    current: u32,
    limit: u32,
    setting: Option<Seq<char>>,
) -> u32 {
    match setting {
        Some(text) => match u32_numeral(text) {
            Some(len) => if len > limit {
                limit
            } else {
                len
            },
            None => DEFAULT_LOG_BUF_LEN,
        },
        None => current,
    }
}

/// Whether injection messages are taken. A variable that is not set leaves
/// this as it is; a variable that is set, whatever it holds, switches
/// injection off.
pub open spec fn injection_choice(current: bool, setting: Option<Seq<char>>) -> bool {
    match setting {
        Some(_) => false,
        None => current,
    }
}

/// The initial log levels once the variable, if set, has been taken in.
pub open spec fn initial_levels_choice(
    levels: Seq<InitialLevel>,
    setting: Option<Seq<char>>,
) -> Seq<InitialLevel> {
    match setting {
        Some(text) => levels_with(levels, text),
        None => levels,
    }
}

/// The daemon's settings once the environment has been taken in: the ring
/// buffer's sizes and the injection switch are what the environment makes
/// of them, and every other setting stays.
pub open spec fn config_with_environment(config: DaemonConfig, env: EnvSettings) -> DaemonConfig {
    DaemonConfig {
        ring_buffer_min_size: raised_size(
            config.ring_buffer_min_size,
            text_of(env.buffer_min_size),
            DEFAULT_BUFFER_MIN_SIZE,
        ),
        ring_buffer_max_size: lowered_size(
            config.ring_buffer_max_size,
            text_of(env.buffer_max_size),
            DEFAULT_BUFFER_MAX_SIZE,
        ),
        ring_buffer_step_size: raised_size(
            config.ring_buffer_step_size,
            text_of(env.buffer_step_size),
            DEFAULT_BUFFER_STEP_SIZE,
        ),
        injection_mode: injection_choice(config.injection_mode, text_of(env.disable_injection_msg)),
        ..config
    }
}

/// The client's state once the environment has been taken in. The
/// environment changes only the settings whose variables are set; a
/// variable whose value cannot be read gives the setting's default.
pub open spec fn with_environment(state: ClientView, env: EnvSettings) -> ClientView {
    ClientView {
        use_extended_header_for_non_verbose: extended_header_choice(
            state.use_extended_header_for_non_verbose,
            text_of(env.disable_extended_header_for_nonverbose),
        ),
        local_print_mode: print_mode_choice(state.local_print_mode, text_of(env.local_print_mode)),
        config: config_with_environment(state.config, env),
        log_buf_len: buffer_length_choice(
            state.log_buf_len,
            state.log_msg_buf_max_size,
            text_of(env.log_msg_buf_len),
        ),
        initial_log_levels: initial_levels_choice(
            state.initial_log_levels,
            text_of(env.initial_log_level),
        ),
        ..state
    }
}

/// A variable that is not set leaves its setting as it is, whatever the
/// setting is and whatever would hold by default.
pub proof fn lemma_unset_changes_nothing(
    size: u32,
    fallback: u32,
    limit: u32,
    switch: bool,
    mode: LocalPrintMode,
    levels: Seq<InitialLevel>,
)
    ensures
        raised_size(size, None, fallback) == size,
        lowered_size(size, None, fallback) == size,
        buffer_length_choice(size, limit, None) == size,
        extended_header_choice(switch, None) == switch,
        injection_choice(switch, None) == switch,
        print_mode_choice(mode, None) == mode,
        initial_levels_choice(levels, None) == levels,
{
}

fn choose_extended_header(current: bool, setting: &Option<String>) -> (chosen: bool)
    ensures
        chosen == extended_header_choice(current, text_of(*setting)),
{
    match setting {
        Some(val) => match parse_i32(val.as_str()) {
            Some(n) => match n {
                1 => false,
                0 => true,
                _ => true,
            },
            None => true,
        },
        None => current,
    }
}

fn choose_print_mode(current: LocalPrintMode, setting: &Option<String>) -> (chosen: LocalPrintMode)
    ensures
        chosen == print_mode_choice(current, text_of(*setting)),
{
    match setting {
        Some(val) => {
            if same_text(val.as_str(), "Automatic") {
                LocalPrintMode::Automatic
            } else if same_text(val.as_str(), "ForceOn") {
                LocalPrintMode::ForceOn
            } else if same_text(val.as_str(), "ForceOff") {
                LocalPrintMode::ForceOff
            } else {
                LocalPrintMode::Unset
            }
        },
        None => current,
    }
}

fn raise_size(current: u32, setting: &Option<String>, fallback: u32) -> (chosen: u32)
    ensures
        chosen == raised_size(current, text_of(*setting), fallback),
{
    match setting {
        Some(val) => match parse_u32(val.as_str()) {
            Some(n) => if n > current {
                n
            } else {
                current
            },
            None => fallback,
        },
        None => current,
    }
}

fn lower_size(current: u32, setting: &Option<String>, fallback: u32) -> (chosen: u32)
    ensures
        chosen == lowered_size(current, text_of(*setting), fallback),
{
    match setting {
        Some(val) => match parse_u32(val.as_str()) {
            Some(n) => if n < current {
                n
            } else {
                current
            },
            None => fallback,
        },
        None => current,
    }
}

fn choose_buffer_length(current: u32, limit: u32, setting: &Option<String>) -> (chosen: u32)
    ensures
        chosen == buffer_length_choice(current, limit, text_of(*setting)),
{
    match setting {
        Some(val) => match parse_u32(val.as_str()) {
            Some(len) => if len > limit {
                limit
            } else {
                len
            },
            None => DEFAULT_LOG_BUF_LEN,
        },
        None => current,
    }
}

fn choose_injection(current: bool, setting: &Option<String>) -> (chosen: bool)
    ensures
        chosen == injection_choice(current, text_of(*setting)),
{
    match setting {
        Some(_inj_mode) => false,
        None => current,
    }
}

fn take_initial_levels(levels: &mut Vec<InitialLogLevel>, setting: &Option<String>)
    ensures
        level_views(final(levels)@) == initial_levels_choice(
            level_views(old(levels)@),
            text_of(*setting),
        ),
{
    match setting {
        Some(env_initial_log_levels) => {
            dlt_env_extract_ll_set(env_initial_log_levels.as_str(), levels);
        },
        None => {},
    }
}

fn adjust_config(config: &mut DaemonConfig, env: &EnvSettings)
    ensures
        *final(config) == config_with_environment(*old(config), *env),
{
    config.ring_buffer_min_size = raise_size(
        config.ring_buffer_min_size,
        &env.buffer_min_size,
        DEFAULT_BUFFER_MIN_SIZE,
    );
    config.ring_buffer_max_size = lower_size(
        config.ring_buffer_max_size,
        &env.buffer_max_size,
        DEFAULT_BUFFER_MAX_SIZE,
    );
    config.ring_buffer_step_size = raise_size(
        config.ring_buffer_step_size,
        &env.buffer_step_size,
        DEFAULT_BUFFER_STEP_SIZE,
    );
    config.injection_mode = choose_injection(config.injection_mode, &env.disable_injection_msg);
}

/// Adjusts the client's settings to what the process environment asks for.
/// Settings whose variables are not set stay as they are.
pub fn dltinitcommon(dltuserinner: &mut DltUserInner, env: &EnvSettings) -> (done: Result<
    (),
    DltError,
>)
    ensures
        done is Ok,
        final(dltuserinner)@ == with_environment(old(dltuserinner)@, *env),
{
    dltuserinner.use_extended_header_for_non_verbose = choose_extended_header(
        dltuserinner.use_extended_header_for_non_verbose,
        &env.disable_extended_header_for_nonverbose,
    );
    dltuserinner.local_print_mode = choose_print_mode(
        dltuserinner.local_print_mode,
        &env.local_print_mode,
    );
    adjust_config(&mut dltuserinner.config, env);
    dltuserinner.log_buf_len = choose_buffer_length(
        dltuserinner.log_buf_len,
        dltuserinner.log_msg_buf_max_size,
        &env.log_msg_buf_len,
    );
    take_initial_levels(&mut dltuserinner.initial_log_levels, &env.initial_log_level);
    Ok(())
}

} // verus!
