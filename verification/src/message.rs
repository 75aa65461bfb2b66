//! Decoded incoming message.
//!
//! Given a protocol message-type tag and the raw (already decrypted) payload
//! bytes, [`MessageBody::decode`] produces a strongly-typed body variant or
//! fails with a typed error. [`MessageBody::properties`] resolves, for the
//! type behind a decoded body, the fixed record of protocol-behavior
//! properties that the delivery pipeline depends on.

use core::str::Utf8Error;
use vstd::prelude::*;

use crate::bytes::{ByteReader, SliceByteReader};
use crate::common::{MessageId, ThreemaId};
use crate::message_type::CspE2eMessageType;
use crate::utf8::{decode_utf8, utf8_decode};

verus! {

/// An error occurred while processing an incoming message.
#[derive(Clone, Copy, Debug)]
pub enum IncomingMessageError {
    /// Invalid UTF-8.
    InvalidString(Utf8Error),
    /// The message type has no decode routine.
    ///
    /// Wire type tags reach this crate from an untrusted peer, so a type
    /// without a decode routine must surface as a typed error, never as a
    /// crash.
    UnsupportedType(CspE2eMessageType),
}

/// A text message.
#[derive(Clone)]
pub struct TextMessage {
    /// Text of the message.
    pub text: String,
}

impl TextMessage {
    /// Decode a text message: the entire remaining payload must be valid
    /// UTF-8.
    pub fn decode<R: ByteReader>(reader: &mut R) -> (result: Result<Self, IncomingMessageError>)
        ensures
            result is Ok <==> utf8_decode(old(reader).remaining()) is Some,
            result matches Ok(message) ==> message.text@ == utf8_decode(
                old(reader).remaining(),
            )->0,
            result matches Err(error) ==> error is InvalidString,
            final(reader).remaining() == Seq::<u8>::empty(),
    {
        let data = reader.read_remaining();
        match decode_utf8(data.as_slice()) {
            Ok(text) => Ok(TextMessage { text }),
            Err(error) => Err(IncomingMessageError::InvalidString(error)),
        }
    }
}

/// A control message from the web client, requesting a session to be
/// resumed.
#[derive(Clone)]
pub struct WebSessionResume(pub Vec<u8>);

impl WebSessionResume {
    /// Decode a web-session-resume message: the remaining payload is kept
    /// verbatim as an opaque byte sequence, so decoding cannot fail.
    pub fn decode<R: ByteReader>(reader: &mut R) -> (message: Self)
        ensures
            message.0@ == old(reader).remaining(),
            final(reader).remaining() == Seq::<u8>::empty(),
    {
        WebSessionResume(reader.read_remaining())
    }
}

/// Lifetime of the message on the server.
#[derive(Clone, Copy, PartialEq, Eq, Debug)]
pub enum MessageLifetime {
    /// The message is kept indefinitely until received.
    Indefinite,

    /// The message is kept for a short amount of time until it is silently
    /// dropped (usually 30s).
    Brief,

    /// The message is only transmitted if the receiver is currently online.
    ///
    /// This is a combination of the _no server queuing_ and _no server
    /// acknowledgement_ flags which are only used in conjunction.
    Ephemeral,
}

/// Message properties associated to a message type.
///
/// Exactly one such record exists per message type; it is pure data, fixed
/// by the protocol, and never mutated at runtime.
#[derive(Clone, PartialEq, Eq, Debug)]
pub struct MessageProperties {
    /// The message's protocol type.
    pub message_type: CspE2eMessageType,

    /// Whether the message should be/has been pushed.
    pub push: bool,

    /// Lifetime of the message on the server.
    pub lifetime: MessageLifetime,

    /// Whether the message requires user profile distribution.
    pub user_profile_distribution: bool,

    /// Whether the message is exempt from blocking.
    pub exempt_from_blocking: bool,

    /// Whether the message requires to create a _direct_ contact upon
    /// reception.
    pub contact_creation: bool,

    /// Whether the message requires replay protection (by storing the
    /// nonce).
    pub replay_protection: bool,

    /// Whether the message should be reflected in case it is incoming.
    pub reflect_incoming: bool,

    /// Whether the message should be reflected in case it is outgoing.
    pub reflect_outgoing: bool,

    /// Whether an update that the message has been _sent_ should be
    /// reflected (in case it is outgoing).
    pub reflect_sent_update: bool,

    /// Whether delivery receipts should be sent (if the message is
    /// incoming).
    pub delivery_receipts: bool,
}

/// The message's body.
#[derive(Clone)]
pub enum MessageBody {
    /// See [`TextMessage`].
    Text(TextMessage),
    /// See [`WebSessionResume`].
    WebSessionResume(WebSessionResume),
}

impl MessageBody {
    /// The message-type tag that this body variant corresponds to.
    pub open spec fn spec_message_type(&self) -> CspE2eMessageType {
        match self {
            MessageBody::Text(_) => CspE2eMessageType::Text,
            MessageBody::WebSessionResume(_) => CspE2eMessageType::WebSessionResume,
        }
    }

    /// The stable name of this body's variant.
    pub open spec fn spec_variant_name(&self) -> Seq<char> {
        match self {
            MessageBody::Text(_) => "Text"@,
            MessageBody::WebSessionResume(_) => "WebSessionResume"@,
        }
    }

    /// The fixed properties record of this body's message type.
    pub open spec fn spec_properties(&self) -> MessageProperties {
        match self {
            MessageBody::Text(_) => MessageProperties {
                message_type: CspE2eMessageType::Text,
                push: true,
                lifetime: MessageLifetime::Indefinite,
                user_profile_distribution: true,
                exempt_from_blocking: false,
                contact_creation: true,
                replay_protection: true,
                reflect_incoming: true,
                reflect_outgoing: true,
                reflect_sent_update: true,
                delivery_receipts: true,
            },
            MessageBody::WebSessionResume(_) => MessageProperties {
                message_type: CspE2eMessageType::WebSessionResume,
                push: false,
                lifetime: MessageLifetime::Ephemeral,
                user_profile_distribution: false,
                exempt_from_blocking: true,
                contact_creation: false,
                replay_protection: true,
                reflect_incoming: false,
                reflect_outgoing: false,
                reflect_sent_update: false,
                delivery_receipts: false,
            },
        }
    }

    /// Try to decode the message's body from the protocol type and the raw
    /// data.
    ///
    /// `message_data` is the exact remaining bytes of the message body after
    /// any outer framing has been stripped by the caller.
    pub fn decode(message_type: CspE2eMessageType, message_data: &[u8]) -> (result: Result<
        Self,
        IncomingMessageError,
    >)
        ensures
            message_type == CspE2eMessageType::Text ==> {
                &&& result is Ok <==> utf8_decode(message_data@) is Some
                &&& result matches Ok(body) ==> (body matches MessageBody::Text(message)
                    && message.text@ == utf8_decode(message_data@)->0)
                &&& result matches Err(error) ==> error is InvalidString
            },
            message_type == CspE2eMessageType::WebSessionResume ==> (result matches Ok(body)
                && body matches MessageBody::WebSessionResume(message) && message.0@
                == message_data@),
            message_type != CspE2eMessageType::Text && message_type
                != CspE2eMessageType::WebSessionResume ==> (result matches Err(error) && (
            error matches IncomingMessageError::UnsupportedType(unsupported) && unsupported
                == message_type)),
            result matches Ok(body) ==> body.spec_message_type() == message_type,
    {
        let mut reader = SliceByteReader::new(message_data);
        match message_type {
            CspE2eMessageType::Text => match TextMessage::decode(&mut reader) {
                Ok(message) => Ok(MessageBody::Text(message)),
                Err(error) => Err(error),
            },
            CspE2eMessageType::WebSessionResume => Ok(
                MessageBody::WebSessionResume(WebSessionResume::decode(&mut reader)),
            ),
            _ => Err(IncomingMessageError::UnsupportedType(message_type)),
        }
    }

    /// Stable, debuggable identifier of the variant, for diagnostics and
    /// logging by the surrounding pipeline.
    pub fn variant_name(&self) -> (name: &'static str)
        ensures
            name@ == self.spec_variant_name(),
    {
        match self {
            MessageBody::Text(_) => "Text",
            MessageBody::WebSessionResume(_) => "WebSessionResume",
        }
    }

    /// Get the properties of this body's message type.
    pub fn properties(&self) -> (properties: MessageProperties)
        ensures
            properties == self.spec_properties(),
    {
        match self {
            MessageBody::Text(_) => MessageProperties {
                message_type: CspE2eMessageType::Text,
                push: true,
                lifetime: MessageLifetime::Indefinite,
                user_profile_distribution: true,
                exempt_from_blocking: false,
                contact_creation: true,
                replay_protection: true,
                reflect_incoming: true,
                reflect_outgoing: true,
                reflect_sent_update: true,
                delivery_receipts: true,
            },
            MessageBody::WebSessionResume(_) => MessageProperties {
                message_type: CspE2eMessageType::WebSessionResume,
                push: false,
                lifetime: MessageLifetime::Ephemeral,
                user_profile_distribution: false,
                exempt_from_blocking: true,
                contact_creation: false,
                replay_protection: true,
                reflect_incoming: false,
                reflect_outgoing: false,
                reflect_sent_update: false,
                delivery_receipts: false,
            },
        }
    }
}

/// The properties record is attached to a message type, not to an instance:
/// two bodies of the same type resolve to the same record.
pub proof fn lemma_properties_determined_by_type(left: MessageBody, right: MessageBody)
    requires
        left.spec_message_type() == right.spec_message_type(),
    ensures
        left.spec_properties() == right.spec_properties(),
{
}

/// The `message_type` field of a body's properties record always agrees
/// with the body's own variant tag.
pub proof fn lemma_properties_tag_agreement(body: MessageBody)
    ensures
        body.spec_properties().message_type == body.spec_message_type(),
{
}

/// An incoming message.
#[derive(Clone)]
pub struct IncomingMessage {
    /// Identity of the sender.
    pub sender_identity: ThreemaId,

    /// The ID of the message.
    pub id: MessageId,

    /// Unix-ish timestamp in milliseconds for when the message has been
    /// created.
    pub created_at: u64,

    /// The message's body.
    pub body: MessageBody,
}

impl IncomingMessage {
    /// Get the message's properties.
    ///
    /// The properties are resolved through the owned body, never through a
    /// caller-supplied type tag, so they always agree with the body's
    /// variant.
    pub fn properties(&self) -> (properties: MessageProperties)
        ensures
            properties == self.body.spec_properties(),
    {
        self.body.properties()
    }
}

} // verus!
