use vstd::prelude::*;

use crate::errors::AppError;
use crate::server::{RegistryView, WsServer};

verus! {

/// Who a notification is for: everyone on the platform, or one user named by
/// the notification's `obj_id`.
#[derive(Debug, Clone, Copy, PartialEq, Eq, Structural)]
pub enum ObjCodeType {
    Platform,
    User,
}

/// A notification as persisted and fanned out. `created_at` is in
/// microseconds since the Unix epoch, UTC.
#[derive(Debug, Clone, PartialEq, Eq)]
pub struct Notification {
    pub id: u128,
    pub title: String,
    pub message: String,
    pub obj_code: ObjCodeType,
    pub obj_id: Option<u128>,
    pub created_at: i64,
}

/// Paging asked for when listing a user's notifications.
#[derive(Debug, Clone, Copy, PartialEq, Eq, Structural)]
pub struct NotificationQuery {
    pub limit: Option<usize>,
    pub offset: Option<usize>,
}

/// Page size used when a query names none.
pub const DEFAULT_PAGE_LIMIT: usize = 10;

impl NotificationQuery {
    /// The `(offset, limit)` to list with: the first page of ten unless the
    /// query says otherwise.
    pub fn page(&self) -> (r: (usize, usize))
        ensures
            r.0 == (match self.offset {
                Some(o) => o,
                None => 0,
            }),
            r.1 == (match self.limit {
                Some(l) => l,
                None => DEFAULT_PAGE_LIMIT,
            }),
    {
        let offset = match self.offset {
            Some(o) => o,
            None => 0,
        };
        let limit = match self.limit {
            Some(l) => l,
            None => DEFAULT_PAGE_LIMIT,
        };
        (offset, limit)
    }
}

/// `id` carries version 4 and the RFC 4122 variant, as a random UUID does.
pub open spec fn is_v4(id: u128) -> bool {
    &&& (id >> 76u128) & 0xfu128 == 4u128
    &&& (id >> 62u128) & 0x3u128 == 2u128
}

/// Relies on uuid::Uuid::new_v4 (and Uuid::as_u128): a random identifier
/// whose version nibble is 4 and whose variant bits are `10`.
#[verifier::external_body]
fn fresh_id() -> (r: u128)
    ensures
        is_v4(r),
{
    uuid::Uuid::new_v4().as_u128()
}

/// Relies on chrono::Utc::now (and DateTime::timestamp_micros): the current
/// time in microseconds since the Unix epoch. Nothing is known of its value.
#[verifier::external_body]
fn now_micros() -> (r: i64) {
    chrono::Utc::now().timestamp_micros()
}

impl Notification {
    /// A new notification with a fresh random identifier and the current time.
    pub fn new(title: &str, message: &str, obj_code: ObjCodeType, obj_id: Option<u128>) -> (r:
        Notification)
        ensures
            r.title@ == title@,
            r.message@ == message@,
            r.obj_code == obj_code,
            r.obj_id == obj_id,
            is_v4(r.id),
    {
        Notification {
            id: fresh_id(),
            title: title.to_owned(),
            message: message.to_owned(),
            obj_code,
            obj_id,
            created_at: now_micros(),
        }
    }
}

/// The registry after `payload` is fanned out for a notification addressed
/// by `obj_code` and `obj_id`: broadcast for the platform, routed for a user,
/// and nowhere for a user notification that names nobody.
pub open spec fn publish(
    h: RegistryView,
    obj_code: ObjCodeType,
    obj_id: Option<u128>,
    payload: String,
) -> RegistryView {
    match obj_code {
        ObjCodeType::Platform => h.broadcast(payload),
        ObjCodeType::User => match obj_id {
            Some(u) => h.route_to_user(u, payload),
            None => h,
        },
    }
}

/// Completes an emission once the persistence step has answered. A failed
/// write is returned as it is and nothing is delivered; a stored
/// notification has `payload`, its serialized form, fanned out to its
/// audience and is returned whatever became of the delivery.
pub fn create_notification_and_emit(
    server: &mut WsServer,
    persisted: Result<Notification, AppError>,
    payload: String,
) -> (r: Result<Notification, AppError>)
    requires
        old(server)@.wf(),
    ensures
        final(server)@.wf(),
        r == persisted,
        match persisted {
            Ok(n) => final(server)@ == publish(old(server)@, n.obj_code, n.obj_id, payload),
            Err(_) => final(server)@ == old(server)@,
        },
{
    match persisted {
        Ok(n) => {
            match n.obj_code {
                ObjCodeType::Platform => server.broadcast(payload),
                ObjCodeType::User => match n.obj_id {
                    Some(u) => server.send_message_to_user(u, payload),
                    None => {},
                },
            }
            Ok(n)
        },
        Err(e) => Err(e),
    }
}

} // verus!
