use file_storage::chat::{
    clamp_to_i32, clamp_to_u32, message_from_row, message_text, message_to_row,
    part_type_from_entity, part_type_to_entity, role_from_entity, role_to_entity, Message,
    MessagePart, MessagePartType, MessageRole, MessageRow, StoredMessagePartType,
    StoredMessageRole,
};
use uuid::Uuid;

fn decode_file_ids(v: &serde_json::Value) -> Option<Vec<u128>> {
    let items = v.as_array()?;
    let mut ids = Vec::new();
    for item in items {
        ids.push(Uuid::parse_str(item.as_str()?).ok()?.as_u128());
    }
    Some(ids)
}

fn sample_model() -> MessageRow {
    let json = serde_json::Value::Array(vec![serde_json::Value::String(
        "00000000-0000-0000-0000-000000000001".to_owned(),
    )]);
    MessageRow {
        message_id: 0,
        session_id: 0,
        tenant_id: Some("tenant-1".to_string()),
        user_id: Some("user-1".to_string()),
        parent_message_id: None,
        role: StoredMessageRole::Assistant,
        file_ids: decode_file_ids(&json),
        variant_index: 2,
        is_active: true,
        is_complete: false,
        is_hidden_from_user: false,
        is_hidden_from_backend: false,
        metadata: None,
        created_at: 0,
    }
}

fn message(role: MessageRole, variant_index: u32, parts: Vec<MessagePart>, file_ids: Vec<u128>) -> Message {
    Message {
        message_id: 0,
        session_id: 0,
        tenant_id: Some("tenant-1".to_owned()),
        user_id: Some("user-1".to_owned()),
        parent_message_id: None,
        variant_index,
        is_active: false,
        role,
        parts,
        file_ids,
        metadata: None,
        is_complete: true,
        is_hidden_from_user: false,
        is_hidden_from_backend: false,
        created_at: 0,
        updated_at: 0,
    }
}

#[test]
fn model_to_message_decodes_role_and_file_ids() {
    let msg = message_from_row(sample_model());
    assert_eq!(msg.role, MessageRole::Assistant);
    assert_eq!(msg.file_ids.len(), 1);
    assert_eq!(msg.variant_index, 2);
    assert_eq!(msg.created_at, msg.updated_at);
}

#[test]
fn tenant_and_user_round_trip_through_conversions() {
    let msg = message_from_row(sample_model());
    assert_eq!(msg.tenant_id.as_deref(), Some("tenant-1"));
    assert_eq!(msg.user_id.as_deref(), Some("user-1"));
    let am = message_to_row(msg);
    assert!(matches!(am.tenant_id, Some(ref t) if t == "tenant-1"));
    assert!(matches!(am.user_id, Some(ref u) if u == "user-1"));
}

#[test]
fn null_and_empty_string_tenant_user_decode_to_none() {
    let mut model = sample_model();
    model.tenant_id = None;
    model.user_id = Some(String::new());
    let msg = message_from_row(model);
    assert!(msg.tenant_id.is_none());
    assert!(msg.user_id.is_none());
}

#[test]
fn message_to_active_model_encodes_role_and_file_ids() {
    let msg = message(
        MessageRole::User,
        3,
        vec![MessagePart::text(0, 0, 0, "hello")],
        vec![0],
    );
    let am = message_to_row(msg);
    assert_eq!(am.role, StoredMessageRole::User);
    assert_eq!(am.variant_index, 3);
}

#[test]
fn empty_file_ids_round_trip_as_none() {
    let msg = message(MessageRole::System, 0, vec![], vec![]);
    let am = message_to_row(msg);
    match am.file_ids {
        None => {}
        other => panic!("expected None, got {other:?}"),
    }
}

#[test]
fn undecodable_file_ids_read_as_empty() {
    let mut model = sample_model();
    model.file_ids = decode_file_ids(&serde_json::Value::String("nope".to_owned()));
    assert!(model.file_ids.is_none());
    assert!(message_from_row(model).file_ids.is_empty());
}

#[test]
fn counters_are_clamped_at_the_boundary() {
    assert_eq!(clamp_to_u32(-1), 0);
    assert_eq!(clamp_to_u32(7), 7);
    assert_eq!(clamp_to_i32(u32::MAX), i32::MAX);
    assert_eq!(clamp_to_i32(7), 7);
    let mut model = sample_model();
    model.variant_index = -5;
    assert_eq!(message_from_row(model).variant_index, 0);
}

#[test]
fn role_and_part_type_mappings_invert() {
    for r in [MessageRole::User, MessageRole::Assistant, MessageRole::System] {
        assert_eq!(role_from_entity(&role_to_entity(&r)), r);
    }
    for t in [
        MessagePartType::Text,
        MessagePartType::Code,
        MessagePartType::Images,
        MessagePartType::Videos,
        MessagePartType::Links,
        MessagePartType::Statuses,
    ] {
        assert_eq!(part_type_from_entity(&part_type_to_entity(&t)), t);
    }
    assert_eq!(part_type_to_entity(&MessagePartType::Links), StoredMessagePartType::Links);
}

#[test]
fn message_text_joins_text_parts_with_newlines() {
    let code = MessagePart {
        id: 0,
        message_id: 0,
        part_type: MessagePartType::Code,
        text: Some("fn main() {}".to_owned()),
        number: 1,
    };
    let no_text = MessagePart {
        id: 0,
        message_id: 0,
        part_type: MessagePartType::Text,
        text: None,
        number: 3,
    };
    let parts = vec![
        MessagePart::text(0, 0, 0, "first"),
        code,
        MessagePart::text(0, 0, 2, "second"),
        no_text,
    ];
    assert_eq!(message_text(&parts), "first\nsecond");
    assert_eq!(message_text(&[]), "");
    assert_eq!(message_text(&parts[..1]), "first");
}

#[test]
fn message_text_orders_text_parts_by_number() {
    let parts = vec![MessagePart::text(0, 0, 1, "b"), MessagePart::text(0, 0, 0, "a")];
    assert_eq!(message_text(&parts), "a\nb");
    let ties = vec![
        MessagePart::text(0, 0, 2, "z"),
        MessagePart::text(0, 0, 1, "x"),
        MessagePart::text(0, 0, 2, "y"),
    ];
    assert_eq!(message_text(&ties), "x\nz\ny");
}
