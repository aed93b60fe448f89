//! The entry point of the client: it keeps the state, and for every
//! registration it says which bytes are to go to the daemon.

use vstd::prelude::*;
use vstd::utf8::encode_utf8;
use crate::client::{
    dltinitcommon, with_environment, ClientView, Context, ContextRecord, DltUserInner, EnvSettings,
};
use crate::text::text_of;
use crate::error::DltError;
use crate::user_header::user_control_message::{
    app_id_of, wire_length, RegisterApplication, RegisterContext, UnRegisterApplication,
    UnRegisterContext,
};
use crate::user_header::{
    magic_pattern, UserHeader, UserMessageType, DLT_USER_LOG_LEVEL_NOT_SET,
    DLT_USER_TRACE_STATUS_NOT_SET,
};
use crate::wire::{i32_bits, i8_byte, u32_bytes, ByteOrder};

verus! {

/// Major version of the protocol that this client speaks.
pub const DLT_PACKAGE_MAJOR_VERSION: u32 = 2;

/// Minor version of the protocol that this client speaks.
pub const DLT_PACKAGE_MINOR_VERSION: u32 = 18;

/// The bytes that carry a message of the given type: the magic pattern and
/// the number of the type.
pub open spec fn header_bytes(message_type: UserMessageType, order: ByteOrder) -> Seq<u8> {
    magic_pattern() + u32_bytes(message_type.code(), order)
}

/// The bytes that announce the client's application: header, message, and
/// then the description as it is.
pub open spec fn register_application_frame(state: ClientView) -> Seq<u8> {
    header_bytes(UserMessageType::RegisterApplication, state.byte_order) + (app_id_of(state)
        + u32_bytes(state.pid, state.byte_order) + u32_bytes(
        wire_length(state.application_description),
        state.byte_order,
    )) + encode_utf8(state.application_description)
}

/// The bytes that tell the daemon that the client's application is gone.
pub open spec fn unregister_application_frame(state: ClientView) -> Seq<u8> {
    header_bytes(UserMessageType::UnRegisterApplication, state.byte_order) + (app_id_of(state)
        + u32_bytes(state.pid, state.byte_order))
}

/// The bytes that announce a logging context: header, message, and then the
/// context's description as it is. Log level and trace status go out as
/// "not set".
pub open spec fn register_context_frame(state: ClientView, context: ContextRecord) -> Seq<u8> {
    header_bytes(UserMessageType::RegisterContext, state.byte_order) + (app_id_of(state)
        + context.context_id + u32_bytes(i32_bits(0), state.byte_order) + seq![
        i8_byte(DLT_USER_LOG_LEVEL_NOT_SET),
        i8_byte(DLT_USER_TRACE_STATUS_NOT_SET),
    ] + u32_bytes(state.pid, state.byte_order) + u32_bytes(
        wire_length(context.description),
        state.byte_order,
    )) + encode_utf8(context.description)
}

/// The bytes that tell the daemon that a logging context is gone.
pub open spec fn unregister_context_frame(state: ClientView, context: ContextRecord) -> Seq<u8> {
    header_bytes(UserMessageType::UnRegisterContext, state.byte_order) + (app_id_of(state)
        + context.context_id + u32_bytes(state.pid, state.byte_order))
}

/// Frames the announcement of an application for the control endpoint:
/// header, message and description, to be written in one piece. Without a
/// control endpoint there is nothing to write to, which is an error.
pub fn user_log_send_register_application(
    inner: &DltUserInner,
    user_header: &UserHeader,
    register_application: &RegisterApplication,
) -> (sent: Result<Vec<u8>, DltError>)
    ensures
        match sent {
            Ok(bytes) => inner@.dlt_log_handle is Some && bytes@ == user_header.wire(
                inner@.byte_order,
            ) + register_application.wire(inner@.byte_order) + encode_utf8(
                inner@.application_description,
            ),
            Err(error) => inner@.dlt_log_handle is None && error is FileSizeError,
        },
{
    if inner.dlt_log_handle().is_some() {
        let order = inner.byte_order();
        let mut bytes = user_header.to_bytes(order);
        let mut body = register_application.to_bytes(order);
        bytes.append(&mut body);
        bytes.extend_from_slice(inner.application_description().as_bytes());
        Ok(bytes)
    } else {
        Err(DltError::FileSizeError)
    }
}

/// Frames the announcement of a logging context for the control endpoint:
/// header, message and the context's description, to be written in one
/// piece. Without a control endpoint there is nothing to write to, which is
/// an error.
pub fn user_log_send_register_context(
    inner: &DltUserInner,
    context: &Context,
    user_header: &UserHeader,
    register_context: &RegisterContext,
) -> (sent: Result<Vec<u8>, DltError>)
    ensures
        match sent {
            Ok(bytes) => inner@.dlt_log_handle is Some && bytes@ == user_header.wire(
                inner@.byte_order,
            ) + register_context.wire(inner@.byte_order) + encode_utf8(context@.description),
            Err(error) => inner@.dlt_log_handle is None && error is FileSizeError,
        },
{
    if inner.dlt_log_handle().is_some() {
        let order = inner.byte_order();
        let mut bytes = user_header.to_bytes(order);
        let mut body = register_context.to_bytes(order);
        bytes.append(&mut body);
        bytes.extend_from_slice(context.description().as_bytes());
        Ok(bytes)
    } else {
        Err(DltError::FileSizeError)
    }
}

/// Frames the message that an application is gone for the control
/// endpoint. Without a control endpoint there is nothing to write to, which
/// is an error.
pub fn user_log_send_unregister_app(
    inner: &DltUserInner,
    user_header: &UserHeader,
    unregister_application: &UnRegisterApplication,
) -> (sent: Result<Vec<u8>, DltError>)
    ensures
        match sent {
            Ok(bytes) => inner@.dlt_log_handle is Some && bytes@ == user_header.wire(
                inner@.byte_order,
            ) + unregister_application.wire(inner@.byte_order),
            Err(error) => inner@.dlt_log_handle is None && error is FileSizeError,
        },
{
    if inner.dlt_log_handle().is_some() {
        let order = inner.byte_order();
        let mut bytes = user_header.to_bytes(order);
        let mut body = unregister_application.to_bytes(order);
        bytes.append(&mut body);
        Ok(bytes)
    } else {
        Err(DltError::FileSizeError)
    }
}

/// Frames the message that a logging context is gone for the control
/// endpoint. Without a control endpoint there is nothing to write to, which
/// is an error.
pub fn user_log_send_unregister_context(
    inner: &DltUserInner,
    user_header: &UserHeader,
    unregister_context: &UnRegisterContext,
) -> (sent: Result<Vec<u8>, DltError>)
    ensures
        match sent {
            Ok(bytes) => inner@.dlt_log_handle is Some && bytes@ == user_header.wire(
                inner@.byte_order,
            ) + unregister_context.wire(inner@.byte_order),
            Err(error) => inner@.dlt_log_handle is None && error is FileSizeError,
        },
{
    if inner.dlt_log_handle().is_some() {
        let order = inner.byte_order();
        let mut bytes = user_header.to_bytes(order);
        let mut body = unregister_context.to_bytes(order);
        bytes.append(&mut body);
        Ok(bytes)
    } else {
        Err(DltError::FileSizeError)
    }
}

/// The client of one process.
pub struct DltUser {
    inner: DltUserInner,
}

impl View for DltUser {
    type V = ClientView;

    closed spec fn view(&self) -> ClientView {
        self.inner@
    }
}

impl DltUser {
    /// The client is well formed when its state is: its contexts have
    /// identifiers of four bytes, no two of them the same.
    pub open spec fn wf(&self) -> bool {
        self@.valid()
    }

    /// Makes a client of a state that has been set up.
    pub fn new(inner: DltUserInner) -> (user: Self)
        requires
            inner.wf(),
        ensures
            user.wf(),
            user@ == inner@,
    {
        DltUser { inner }
    }

    /// The state of the client.
    pub fn inner(&self) -> (inner: &DltUserInner)
        ensures
            inner@ == self@,
    {
        &self.inner
    }

    /// Gives the client's state back.
    pub fn into_inner(self) -> (inner: DltUserInner)
        ensures
            inner@ == self@,
    {
        self.inner
    }

    /// Records the descriptor of the endpoint on which control messages go
    /// to the daemon, or that there is none.
    pub fn set_dlt_log_handle(&mut self, handle: Option<i32>)
        ensures
            final(self)@ == (ClientView { dlt_log_handle: handle, ..old(self)@ }),
    {
        self.inner.set_dlt_log_handle(handle);
    }

    /// Records the descriptor of the endpoint on which the daemon reaches
    /// this process, and the path under which that endpoint was made.
    pub fn set_dlt_user_handle(&mut self, handle: Option<i32>, user_path: Option<String>)
        ensures
            final(self)@ == (ClientView {
                dlt_user_handle: handle,
                user_path: text_of(user_path),
                ..old(self)@
            }),
    {
        self.inner.set_dlt_user_handle(handle, user_path);
    }

    /// Adjusts the client's settings to what the process environment asks
    /// for.
    pub fn apply_environment(&mut self, env: &EnvSettings) -> (done: Result<(), DltError>)
        requires
            old(self).wf(),
        ensures
            final(self).wf(),
            done is Ok,
            final(self)@ == with_environment(old(self)@, *env),
    {
        dltinitcommon(&mut self.inner, env)
    }

    pub fn set_ecu_id(&mut self, ecu_id: String)
        ensures
            final(self)@ == (ClientView { ecu_id: Some(ecu_id@), ..old(self)@ }),
    {
        self.inner.set_ecu_id(ecu_id);
    }

    pub fn set_app_info(&mut self, app_id: String, description: String)
        ensures
            final(self)@ == (ClientView {
                app_id: Some(app_id@),
                application_description: description@,
                ..old(self)@
            }),
    {
        self.inner.set_app_info(app_id, description);
    }

    /// Registers a logging context without telling the daemon.
    pub fn new_context(&mut self, context_id: &str, description: &str) -> (handle: Option<Context>)
        requires
            old(self).wf(),
        ensures
            final(self).wf(),
            final(self)@ == old(self)@.register(context_id@, description@).0,
            match handle {
                Some(context) => Some(context@),
                None => None,
            } == old(self)@.register(context_id@, description@).1,
    {
        self.inner.new_context(context_id, description)
    }

    /// True when the library speaks the given version of the protocol.
    pub fn dlt_check_library_version(&self, minor_version: u32, major_version: u32) -> (supported:
        bool)
        ensures
            supported == (major_version == DLT_PACKAGE_MAJOR_VERSION && minor_version
                == DLT_PACKAGE_MINOR_VERSION),
    {
        !(major_version != DLT_PACKAGE_MAJOR_VERSION || minor_version
            != DLT_PACKAGE_MINOR_VERSION)
    }

    /// Takes the application's name and description, the name also as the
    /// ECU's, and frames the announcement of the application. Without a
    /// control endpoint the announcement cannot go out, which is an error;
    /// the name and the description are taken all the same.
    pub fn dlt_register_app(&mut self, app_id: &str, description: &str) -> (sent: Result<
        Vec<u8>,
        DltError,
    >)
        requires
            old(self).wf(),
        ensures
            final(self).wf(),
            final(self)@ == (ClientView {
                ecu_id: Some(app_id@),
                app_id: Some(app_id@),
                application_description: description@,
                ..old(self)@
            }),
            match sent {
                Ok(bytes) => final(self)@.dlt_log_handle is Some && bytes@
                    == register_application_frame(final(self)@),
                Err(error) => final(self)@.dlt_log_handle is None && error is FileSizeError,
            },
    {
        let _supported = self.dlt_check_library_version(
            DLT_PACKAGE_MINOR_VERSION,
            DLT_PACKAGE_MAJOR_VERSION,
        );
        self.set_app_info(app_id.to_owned(), description.to_owned());
        self.set_ecu_id(app_id.to_owned());
        let user_header = UserHeader::new(UserMessageType::RegisterApplication);
        let register_application = RegisterApplication::new(&self.inner);
        user_log_send_register_application(&self.inner, &user_header, &register_application)
    }

    /// Registers a logging context and frames its announcement. A context
    /// that the registry turns down is a wrong parameter. Without a control
    /// endpoint the announcement cannot go out, which is an error too. An
    /// error leaves the registry as it is.
    pub fn register_context(&mut self, context_id: &str, description: &str) -> (registered: Result<
        (Context, Vec<u8>),
        DltError,
    >)
        requires
            old(self).wf(),
        ensures
            final(self).wf(),
            match registered {
                Ok((context, bytes)) => {
                    &&& old(self)@.dlt_log_handle is Some
                    &&& old(self)@.register(context_id@, description@).1 == Some(context@)
                    &&& final(self)@ == old(self)@.register(context_id@, description@).0
                    &&& bytes@ == register_context_frame(final(self)@, context@)
                },
                Err(error) => {
                    &&& final(self)@ == old(self)@
                    &&& if old(self)@.register(context_id@, description@).1 is None {
                        error is DltReturnWrongParameter
                    } else {
                        old(self)@.dlt_log_handle is None && error is FileSizeError
                    }
                },
            },
    {
        if !self.inner.accepts_context(context_id, description) {
            return Err(DltError::DltReturnWrongParameter);
        }
        if self.inner.dlt_log_handle().is_none() {
            return Err(DltError::FileSizeError);
        }
        let context = match self.new_context(context_id, description) {
            Some(context) => context,
            None => {
                return Err(DltError::DltReturnWrongParameter);
            },
        };
        let user_header = UserHeader::new(UserMessageType::RegisterContext);
        let register_context = RegisterContext::new(&self.inner, &context);
        match user_log_send_register_context(
            &self.inner,
            &context,
            &user_header,
            &register_context,
        ) {
            Ok(bytes) => Ok((context, bytes)),
            Err(error) => Err(error),
        }
    }

    /// Frames the message that the application is gone. The client's state
    /// keeps the application's identity. Without a control endpoint the
    /// message cannot go out, which is an error.
    pub fn unregister_application(&self) -> (sent: Result<Vec<u8>, DltError>)
        ensures
            match sent {
                Ok(bytes) => self@.dlt_log_handle is Some && bytes@ == unregister_application_frame(
                    self@,
                ),
                Err(error) => self@.dlt_log_handle is None && error is FileSizeError,
            },
    {
        let user_header = UserHeader::new(UserMessageType::UnRegisterApplication);
        let unregister_application = UnRegisterApplication::new(&self.inner);
        user_log_send_unregister_app(&self.inner, &user_header, &unregister_application)
    }

    /// Frames the message that a logging context is gone. The registry
    /// keeps the context: its identifier stays taken, and the handle stays
    /// usable. Without a control endpoint the message cannot go out, which
    /// is an error.
    pub fn unregister_context(&self, context: &Context) -> (sent: Result<Vec<u8>, DltError>)
        ensures
            match sent {
                Ok(bytes) => self@.dlt_log_handle is Some && bytes@ == unregister_context_frame(
                    self@,
                    context@,
                ),
                Err(error) => self@.dlt_log_handle is None && error is FileSizeError,
            },
    {
        let user_header = UserHeader::new(UserMessageType::UnRegisterContext);
        let unregister_context = UnRegisterContext::new(&self.inner, context);
        user_log_send_unregister_context(&self.inner, &user_header, &unregister_context)
    }
}

} // verus!
