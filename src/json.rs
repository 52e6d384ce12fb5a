//! A JSON document as plain values, and the reading of decoded claims from it.
use vstd::prelude::*;
use crate::primitives::{
    environment_from_name, Environment, JWSTransactionDecodedPayload, NotificationData,
    NotificationSummary, ResponseBodyV2DecodedPayload,
};

verus! {

/// A JSON value. A number keeps its value where it is an integer that fits
/// an `i64`; an object keeps its members in order.
#[derive(Debug)]
pub enum JsonValue {
    Null,
    Bool(bool),
    Number(Option<i64>),
    String(String),
    Array(Vec<JsonValue>),
    Object(Vec<(String, JsonValue)>),
}

/// The value of the first member named `key`.
pub open spec fn member_of(members: Seq<(String, JsonValue)>, key: Seq<char>) -> Option<JsonValue>
    decreases members.len(),
{
    if members.len() == 0 {
        None
    } else if members[0].0@ == key {
        Some(members[0].1)
    } else {
        member_of(members.drop_first(), key)
    }
}

/// The member `key` of an object; `None` for a missing member or a value that
/// is not an object.
pub open spec fn field_of(value: JsonValue, key: Seq<char>) -> Option<JsonValue> {
    match value {
        JsonValue::Object(members) => member_of(members@, key),
        _ => None,
    }
}

/// An optional string member: absent or null is `Some(None)`; a value of
/// another kind is `None`.
pub open spec fn string_field(value: JsonValue, key: Seq<char>) -> Option<Option<String>> {
    match field_of(value, key) {
        None => Some(None),
        Some(JsonValue::Null) => Some(None),
        Some(JsonValue::String(s)) => Some(Some(s)),
        Some(_) => None,
    }
}

/// An optional integer member, read as `string_field` reads a string.
pub open spec fn integer_field(value: JsonValue, key: Seq<char>) -> Option<Option<i64>> {
    match field_of(value, key) {
        None => Some(None),
        Some(JsonValue::Null) => Some(None),
        Some(JsonValue::Number(Some(n))) => Some(Some(n)),
        Some(_) => None,
    }
}

/// An optional environment member given by its wire name; an unknown name is `None`.
pub open spec fn environment_field(value: JsonValue, key: Seq<char>) -> Option<Option<Environment>> {
    match string_field(value, key) {
        None => None,
        Some(None) => Some(None),
        Some(Some(s)) => match environment_from_name(s@) {
            Some(e) => Some(Some(e)),
            None => None,
        },
    }
}

/// An optional object member: absent or null is `Some(None)`; a value that
/// is not an object is `None`.
pub open spec fn object_field(value: JsonValue, key: Seq<char>) -> Option<Option<JsonValue>> {
    match field_of(value, key) {
        None => Some(None),
        Some(JsonValue::Null) => Some(None),
        Some(JsonValue::Object(m)) => Some(Some(JsonValue::Object(m))),
        Some(_) => None,
    }
}

/// The transaction claims that a JSON document holds, or `None` where it is
/// not an object or a member has the wrong kind.
pub open spec fn transaction_of_json(value: JsonValue) -> Option<JWSTransactionDecodedPayload> {
    if value is Object && string_field(value, "bundleId"@) is Some && environment_field(
        value,
        "environment"@,
    ) is Some && string_field(value, "transactionId"@) is Some && string_field(
        value,
        "productId"@,
    ) is Some {
        Some(
            JWSTransactionDecodedPayload {
                bundle_id: string_field(value, "bundleId"@)->Some_0,
                environment: environment_field(value, "environment"@)->Some_0,
                transaction_id: string_field(value, "transactionId"@)->Some_0,
                product_id: string_field(value, "productId"@)->Some_0,
            },
        )
    } else {
        None
    }
}

/// Whether the identity members of a notification record all have their kind.
pub open spec fn record_readable(value: JsonValue) -> bool {
    string_field(value, "bundleId"@) is Some && integer_field(value, "appAppleId"@) is Some
        && environment_field(value, "environment"@) is Some && string_field(
        value,
        "signedTransactionInfo"@,
    ) is Some
}

/// The `data` record of a notification.
pub open spec fn data_of_json(value: JsonValue) -> Option<NotificationData> {
    if record_readable(value) {
        Some(
            NotificationData {
                bundle_id: string_field(value, "bundleId"@)->Some_0,
                app_apple_id: integer_field(value, "appAppleId"@)->Some_0,
                environment: environment_field(value, "environment"@)->Some_0,
                signed_transaction_info: string_field(value, "signedTransactionInfo"@)->Some_0,
            },
        )
    } else {
        None
    }
}

/// The `summary` record of a notification.
pub open spec fn summary_of_json(value: JsonValue) -> Option<NotificationSummary> {
    if record_readable(value) {
        Some(
            NotificationSummary {
                bundle_id: string_field(value, "bundleId"@)->Some_0,
                app_apple_id: integer_field(value, "appAppleId"@)->Some_0,
                environment: environment_field(value, "environment"@)->Some_0,
                signed_transaction_info: string_field(value, "signedTransactionInfo"@)->Some_0,
            },
        )
    } else {
        None
    }
}

/// An optional record member read by `read`: `Some(None)` where it is absent.
pub open spec fn record_field<T>(
    value: JsonValue,
    key: Seq<char>,
    read: spec_fn(JsonValue) -> Option<T>,
) -> Option<Option<T>> {
    match object_field(value, key) {
        None => None,
        Some(None) => Some(None),
        Some(Some(o)) => match read(o) {
            Some(r) => Some(Some(r)),
            None => None,
        },
    }
}

/// The notification claims that a JSON document holds, or `None` where it is
/// not an object or a member has the wrong kind.
pub open spec fn notification_of_json(value: JsonValue) -> Option<ResponseBodyV2DecodedPayload> {
    let data = record_field(value, "data"@, |o: JsonValue| data_of_json(o));
    let summary = record_field(value, "summary"@, |o: JsonValue| summary_of_json(o));
    if value is Object && data is Some && summary is Some && string_field(
        value,
        "notificationType"@,
    ) is Some && string_field(value, "subtype"@) is Some {
        Some(
            ResponseBodyV2DecodedPayload {
                notification_type: string_field(value, "notificationType"@)->Some_0,
                subtype: string_field(value, "subtype"@)->Some_0,
                data: data->Some_0,
                summary: summary->Some_0,
            },
        )
    } else {
        None
    }
}

/// Looks up the first member named `key` of an object.
pub fn field<'a>(value: &'a JsonValue, key: &str) -> (r: Option<&'a JsonValue>)
    ensures
        match r {
            Some(x) => field_of(*value, key@) == Some(*x),
            None => field_of(*value, key@) is None,
        },
{
    match value {
        JsonValue::Object(members) => {
            let wanted = String::from_str(key);
            let mut i: usize = 0;
            assert(members@.subrange(0, members.len() as int) =~= members@);
            while i < members.len()
                invariant
                    i <= members.len(),
                    wanted@ == key@,
                    field_of(*value, key@) == member_of(members@, key@),
                    member_of(members@.subrange(i as int, members.len() as int), key@)
                        == member_of(members@, key@),
                decreases members.len() - i,
            {
                let ghost rest = members@.subrange(i as int, members.len() as int);
                assert(rest[0] == members@[i as int]);
                assert(rest.drop_first() =~= members@.subrange(i + 1, members.len() as int));
                let entry = &members[i];
                if entry.0 == wanted {
                    assert(member_of(rest, key@) == Some(entry.1));
                    return Some(&entry.1);
                }
                i = i + 1;
            }
            None
        },
        _ => None,
    }
}

/// Reads an optional string member.
pub fn string_member(value: &JsonValue, key: &str) -> (r: Option<Option<String>>)
    ensures
        r == string_field(*value, key@),
{
    match field(value, key) {
        None => Some(None),
        Some(JsonValue::Null) => Some(None),
        Some(JsonValue::String(s)) => Some(Some(s.clone())),
        Some(_) => None,
    }
}

/// Reads an optional integer member.
pub fn integer_member(value: &JsonValue, key: &str) -> (r: Option<Option<i64>>)
    ensures
        r == integer_field(*value, key@),
{
    match field(value, key) {
        None => Some(None),
        Some(JsonValue::Null) => Some(None),
        Some(JsonValue::Number(Some(n))) => Some(Some(*n)),
        Some(_) => None,
    }
}

/// Reads an optional environment member by its wire name.
pub fn environment_member(value: &JsonValue, key: &str) -> (r: Option<Option<Environment>>)
    ensures
        r == environment_field(*value, key@),
{
    match string_member(value, key) {
        None => None,
        Some(None) => Some(None),
        Some(Some(name)) => match Environment::from_wire_name(name.as_str()) {
            Some(e) => Some(Some(e)),
            None => None,
        },
    }
}

/// Reads an optional object member.
pub fn object_member<'a>(value: &'a JsonValue, key: &str) -> (r: Option<Option<&'a JsonValue>>)
    ensures
        match r {
            None => object_field(*value, key@) is None,
            Some(None) => object_field(*value, key@) == Some(None::<JsonValue>),
            Some(Some(o)) => object_field(*value, key@) == Some(Some(*o)),
        },
{
    match field(value, key) {
        None => Some(None),
        Some(JsonValue::Null) => Some(None),
        Some(o) => match o {
            JsonValue::Object(_) => Some(Some(o)),
            _ => None,
        },
    }
}

/// Reads the transaction claims of a JSON document.
pub fn transaction_from_json(value: &JsonValue) -> (r: Option<JWSTransactionDecodedPayload>)
    ensures
        r == transaction_of_json(*value),
{
    if !matches!(value, JsonValue::Object(_)) {
        return None;
    }
    let bundle_id = string_member(value, "bundleId");
    let environment = environment_member(value, "environment");
    let transaction_id = string_member(value, "transactionId");
    let product_id = string_member(value, "productId");
    match (bundle_id, environment, transaction_id, product_id) {
        (Some(bundle_id), Some(environment), Some(transaction_id), Some(product_id)) => Some(
            JWSTransactionDecodedPayload { bundle_id, environment, transaction_id, product_id },
        ),
        _ => None,
    }
}

/// Reads the `data` record of a notification.
pub fn data_from_json(value: &JsonValue) -> (r: Option<NotificationData>)
    ensures
        r == data_of_json(*value),
{
    let bundle_id = string_member(value, "bundleId");
    let app_apple_id = integer_member(value, "appAppleId");
    let environment = environment_member(value, "environment");
    let info = string_member(value, "signedTransactionInfo");
    match (bundle_id, app_apple_id, environment, info) {
        (Some(bundle_id), Some(app_apple_id), Some(environment), Some(signed_transaction_info)) => {
            Some(NotificationData { bundle_id, app_apple_id, environment, signed_transaction_info })
        },
        _ => None,
    }
}

/// Reads the `summary` record of a notification.
pub fn summary_from_json(value: &JsonValue) -> (r: Option<NotificationSummary>)
    ensures
        r == summary_of_json(*value),
{
    let bundle_id = string_member(value, "bundleId");
    let app_apple_id = integer_member(value, "appAppleId");
    let environment = environment_member(value, "environment");
    let info = string_member(value, "signedTransactionInfo");
    match (bundle_id, app_apple_id, environment, info) {
        (Some(bundle_id), Some(app_apple_id), Some(environment), Some(signed_transaction_info)) => {
            Some(NotificationSummary { bundle_id, app_apple_id, environment, signed_transaction_info })
        },
        _ => None,
    }
}

/// Reads the notification claims of a JSON document.
pub fn notification_from_json(value: &JsonValue) -> (r: Option<ResponseBodyV2DecodedPayload>)
    ensures
        r == notification_of_json(*value),
{
    if !matches!(value, JsonValue::Object(_)) {
        return None;
    }
    let data = match object_member(value, "data") {
        None => None,
        Some(None) => Some(None),
        Some(Some(o)) => match data_from_json(o) {
            Some(d) => Some(Some(d)),
            None => None,
        },
    };
    let summary = match object_member(value, "summary") {
        None => None,
        Some(None) => Some(None),
        Some(Some(o)) => match summary_from_json(o) {
            Some(d) => Some(Some(d)),
            None => None,
        },
    };
    let notification_type = string_member(value, "notificationType");
    let subtype = string_member(value, "subtype");
    match (data, summary, notification_type, subtype) {
        (Some(data), Some(summary), Some(notification_type), Some(subtype)) => Some(
            ResponseBodyV2DecodedPayload { notification_type, subtype, data, summary },
        ),
        _ => None,
    }
}

} // verus!
