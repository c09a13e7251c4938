use edge_api::cache::{cache_set_reply, handle_cache_get, handle_cache_set, CachePut};
use edge_api::compute::{handle_compute, parse_operation, ComputePlan, ComputeRequest, Operation};
use edge_api::envelope::{ApiResponse, ErrorKind, JsonReply, Rejection, TextReply};
use edge_api::files::{
    content_type_or_default, file_upload_reply, handle_file_get, handle_file_upload, FileReply,
    FileUpload, StoredFile,
};
use edge_api::sql::{Query, SqlValue};
use edge_api::status::{handle_health, handle_index, health_report};

fn compute(data_len: usize, operation: &str) -> Result<ComputePlan, JsonReply<()>> {
    handle_compute(Some(ComputeRequest { data_len, operation: operation.to_string() }))
}

#[test]
fn test_compute_sum() {
    let data = vec![1.0, 2.0, 3.0, 4.0, 5.0];
    let plan = compute(data.len(), "sum").unwrap();
    assert_eq!(plan.operation, Operation::Sum);
    assert_eq!(plan.count, 5);
    let sum: f64 = data.iter().sum();
    assert_eq!(sum, 15.0);
}

#[test]
fn test_compute_mean() {
    let data = vec![1.0, 2.0, 3.0, 4.0, 5.0];
    let plan = compute(data.len(), "mean").unwrap();
    assert_eq!(plan.operation, Operation::Mean);
    let mean = data.iter().sum::<f64>() / plan.count as f64;
    assert_eq!(mean, 3.0);
}

#[test]
fn compute_with_unparsed_body_is_400() {
    let reply = handle_compute(None).unwrap_err();
    assert_eq!(reply.status, 400);
    assert_eq!(reply.body.error, Some("Invalid JSON".to_string()));
}

#[test]
fn compute_with_empty_data_is_400_whatever_the_operation() {
    for name in ["sum", "mean", "max", "min", "std", "bogus", ""] {
        let reply = compute(0, name).unwrap_err();
        assert_eq!(reply.status, 400);
        assert!(!reply.body.success);
        assert_eq!(reply.body.data, None);
        assert_eq!(reply.body.error, Some("Data array is empty".to_string()));
    }
}

#[test]
fn compute_with_unknown_operation_names_it() {
    let reply = compute(5, "bogus").unwrap_err();
    assert_eq!(reply.status, 400);
    assert!(!reply.body.success);
    assert_eq!(reply.body.error, Some("Unknown operation: bogus".to_string()));
    let reply = compute(1, "SUM").unwrap_err();
    assert_eq!(reply.body.error, Some("Unknown operation: SUM".to_string()));
    let reply = compute(1, "").unwrap_err();
    assert_eq!(reply.body.error, Some("Unknown operation: ".to_string()));
}

#[test]
fn compute_accepts_the_five_operations() {
    let offered = [
        ("sum", Operation::Sum),
        ("mean", Operation::Mean),
        ("max", Operation::Max),
        ("min", Operation::Min),
        ("std", Operation::Std),
    ];
    for (name, operation) in offered {
        assert_eq!(parse_operation(name), Some(operation));
        assert_eq!(operation.name(), name);
        assert_eq!(
            compute(3, name),
            Ok(ComputePlan { operation, name: name.to_string(), count: 3 })
        );
    }
    assert_eq!(parse_operation("sum "), None);
    assert_eq!(parse_operation("Std"), None);
}

#[test]
fn rejections_carry_status_and_text() {
    let expected = [
        (Rejection::InvalidJsonBody, 400, "Invalid JSON body"),
        (Rejection::NameRequired, 400, "Name is required"),
        (Rejection::NameEmpty, 400, "Name cannot be empty"),
        (Rejection::InvalidEmail, 400, "Invalid email"),
        (Rejection::EmailExists, 409, "Email already exists"),
        (Rejection::UserNotFound, 404, "User not found"),
        (Rejection::InvalidJson, 400, "Invalid JSON"),
        (Rejection::EmptyData, 400, "Data array is empty"),
        (Rejection::UnknownOperation("x".to_string()), 400, "Unknown operation: x"),
        (Rejection::NotFound, 404, "Not found"),
    ];
    for (reason, status, text) in expected {
        assert_eq!(reason.status(), status);
        assert_eq!(reason.message(), text);
        let reply: JsonReply<u8> = JsonReply::rejected(&reason);
        assert_eq!(reply.status, status);
        assert_eq!(reply.body, ApiResponse { success: false, data: None, error: Some(text.to_string()) });
    }
}

#[test]
fn error_kinds_map_to_status_codes() {
    assert_eq!(ErrorKind::InvalidInput.status(), 400);
    assert_eq!(ErrorKind::NotFound.status(), 404);
    assert_eq!(ErrorKind::Conflict.status(), 409);
    assert_eq!(Rejection::EmailExists.kind(), ErrorKind::Conflict);
    assert_eq!(Rejection::UserNotFound.kind(), ErrorKind::NotFound);
    assert_eq!(Rejection::NotFound.kind(), ErrorKind::NotFound);
    assert_eq!(Rejection::EmptyData.kind(), ErrorKind::InvalidInput);
}

#[test]
fn envelopes_are_success_or_failure() {
    let ok = ApiResponse::ok(7u8);
    assert_eq!(ok, ApiResponse { success: true, data: Some(7), error: None });
    let empty: ApiResponse<u8> = ApiResponse::empty();
    assert_eq!(empty, ApiResponse { success: true, data: None, error: None });
    let fail: ApiResponse<u8> = ApiResponse::fail(&Rejection::InvalidEmail);
    assert_eq!(
        fail,
        ApiResponse { success: false, data: None, error: Some("Invalid email".to_string()) }
    );
    assert_eq!(JsonReply::ok(1u8).status, 200);
    assert_eq!(JsonReply::created(1u8).status, 201);
    let done: JsonReply<u8> = JsonReply::done();
    assert_eq!(done.status, 200);
    assert_eq!(done.body.data, None);
}

#[test]
fn cache_get_hands_the_value_out_as_text() {
    assert_eq!(
        handle_cache_get(Some("stored".to_string())),
        TextReply { status: 200, text: "stored".to_string() }
    );
    assert_eq!(
        handle_cache_get(Some(String::new())),
        TextReply { status: 200, text: String::new() }
    );
    assert_eq!(handle_cache_get(None), TextReply { status: 404, text: "Not found".to_string() });
}

#[test]
fn cache_set_stores_for_an_hour() {
    assert_eq!(
        handle_cache_set("k", "body".to_string()),
        CachePut { key: "k".to_string(), value: "body".to_string(), expiration_ttl: 3600 }
    );
    assert_eq!(cache_set_reply(), TextReply { status: 200, text: "Cached".to_string() });
}

#[test]
fn file_get_uses_the_stored_content_type_or_the_default() {
    let with_type = StoredFile { bytes: vec![1, 2, 3], content_type: Some("image/png".to_string()) };
    assert_eq!(
        handle_file_get(Some(with_type)),
        FileReply::Found { bytes: vec![1, 2, 3], content_type: "image/png".to_string() }
    );
    let without = StoredFile { bytes: vec![], content_type: None };
    assert_eq!(
        handle_file_get(Some(without)),
        FileReply::Found { bytes: vec![], content_type: "application/octet-stream".to_string() }
    );
    assert_eq!(
        handle_file_get(None),
        FileReply::Missing(TextReply { status: 404, text: "Not found".to_string() })
    );
}

#[test]
fn file_upload_takes_the_header_or_the_default() {
    assert_eq!(
        handle_file_upload("a.txt", Some("text/plain".to_string()), vec![104, 105]),
        FileUpload {
            key: "a.txt".to_string(),
            bytes: vec![104, 105],
            content_type: "text/plain".to_string(),
        }
    );
    assert_eq!(
        handle_file_upload("a.bin", None, vec![]).content_type,
        "application/octet-stream"
    );
    assert_eq!(content_type_or_default(Some(String::new())), "");
    assert_eq!(file_upload_reply(), TextReply { status: 200, text: "Uploaded".to_string() });
}

#[test]
fn index_and_health_answer() {
    assert_eq!(handle_index(), TextReply { status: 200, text: "Rust Worker API v1.0".to_string() });
    let report = health_report("2024-01-01T00:00:00+00:00".to_string());
    assert_eq!(report.status, "healthy");
    assert_eq!(report.timestamp, "2024-01-01T00:00:00+00:00");
    let now = handle_health();
    assert_eq!(now.status, "healthy");
    assert!(chrono::DateTime::parse_from_rfc3339(&now.timestamp).is_ok());
}

#[test]
fn statements_have_one_value_per_placeholder() {
    let queries = vec![
        Query::ListUsers { limit: 10, offset: 20 },
        Query::CountUsers,
        Query::FindUserByEmail { email: "a@b".to_string() },
        Query::FindUserById { id: "1".to_string() },
        Query::InsertUser {
            id: "1".to_string(),
            name: "n".to_string(),
            email: "e".to_string(),
            created_at: "t".to_string(),
        },
        Query::UpdateUser { name: "n".to_string(), email: "e".to_string(), id: "1".to_string() },
        Query::DeleteUser { id: "1".to_string() },
    ];
    for query in &queries {
        let placeholders = query.sql().chars().filter(|c| *c == '?').count();
        assert_eq!(query.binds().len(), placeholders);
    }
    assert_eq!(
        queries[0].sql(),
        "SELECT * FROM users ORDER BY created_at DESC LIMIT ? OFFSET ?"
    );
    assert_eq!(queries[0].binds(), vec![SqlValue::Integer(10), SqlValue::Integer(20)]);
    assert_eq!(queries[1].sql(), "SELECT COUNT(*) as count FROM users");
    assert_eq!(queries[2].sql(), "SELECT id FROM users WHERE email = ?");
    assert_eq!(queries[3].sql(), "SELECT * FROM users WHERE id = ?");
    assert_eq!(
        queries[4].sql(),
        "INSERT INTO users (id, name, email, created_at) VALUES (?, ?, ?, ?)"
    );
    assert_eq!(queries[5].sql(), "UPDATE users SET name = ?, email = ? WHERE id = ?");
    assert_eq!(
        queries[5].binds(),
        vec![
            SqlValue::Text("n".to_string()),
            SqlValue::Text("e".to_string()),
            SqlValue::Text("1".to_string()),
        ]
    );
    assert_eq!(queries[6].sql(), "DELETE FROM users WHERE id = ?");
}
