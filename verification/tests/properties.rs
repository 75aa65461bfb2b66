use libthreema::common::{MessageId, ThreemaId};
use libthreema::message::{
    IncomingMessage, MessageBody, MessageLifetime, MessageProperties, TextMessage,
    WebSessionResume,
};
use libthreema::message_type::CspE2eMessageType;

fn text_body() -> MessageBody {
    MessageBody::Text(TextMessage { text: "hello".to_string() })
}

fn web_session_resume_body() -> MessageBody {
    MessageBody::WebSessionResume(WebSessionResume(vec![1, 2, 3]))
}

#[test]
fn properties_of_text() {
    let expected = MessageProperties {
        message_type: CspE2eMessageType::Text,
        push: true,
        lifetime: MessageLifetime::Indefinite,
        user_profile_distribution: true,
        exempt_from_blocking: false,
        contact_creation: true,
        replay_protection: true,
        reflect_incoming: true,
        reflect_outgoing: true,
        reflect_sent_update: true,
        delivery_receipts: true,
    };
    assert_eq!(text_body().properties(), expected);
}

#[test]
fn properties_of_web_session_resume() {
    let expected = MessageProperties {
        message_type: CspE2eMessageType::WebSessionResume,
        push: false,
        lifetime: MessageLifetime::Ephemeral,
        user_profile_distribution: false,
        exempt_from_blocking: true,
        contact_creation: false,
        replay_protection: true,
        reflect_incoming: false,
        reflect_outgoing: false,
        reflect_sent_update: false,
        delivery_receipts: false,
    };
    assert_eq!(web_session_resume_body().properties(), expected);
}

#[test]
fn properties_are_deterministic() {
    let body = text_body();
    assert_eq!(body.properties(), body.properties());
    let body = web_session_resume_body();
    assert_eq!(body.properties(), body.properties());
}

#[test]
fn properties_depend_on_the_type_not_the_instance() {
    let short = MessageBody::Text(TextMessage { text: String::new() });
    let long = MessageBody::Text(TextMessage { text: "a much longer text".to_string() });
    assert_eq!(short.properties(), long.properties());

    let empty = MessageBody::WebSessionResume(WebSessionResume(Vec::new()));
    let full = MessageBody::WebSessionResume(WebSessionResume(vec![0xff; 32]));
    assert_eq!(empty.properties(), full.properties());
}

#[test]
fn properties_record_carries_the_body_type() {
    assert_eq!(text_body().properties().message_type, CspE2eMessageType::Text);
    assert_eq!(
        web_session_resume_body().properties().message_type,
        CspE2eMessageType::WebSessionResume
    );
}

#[test]
fn incoming_message_properties_forward_to_the_body() {
    let body = MessageBody::decode(CspE2eMessageType::Text, b"ping").unwrap();
    let message = IncomingMessage {
        sender_identity: ThreemaId(*b"AAAAAAAA"),
        id: MessageId(0x0123_4567_89ab_cdef),
        created_at: 1_700_000_000_000,
        body,
    };
    assert_eq!(message.properties(), message.body.properties());
    assert_eq!(message.properties().message_type, CspE2eMessageType::Text);
    assert_eq!(message.sender_identity, ThreemaId(*b"AAAAAAAA"));
    assert_eq!(message.id, MessageId(0x0123_4567_89ab_cdef));
    assert_eq!(message.created_at, 1_700_000_000_000);
}
