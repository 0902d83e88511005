//! The notification service: one remote method that takes a username and a
//! message, finds the operator in the registry and has the message shown by
//! the local notification service.
//!
//! This module decides what is shown and what the remote caller gets back.
//! The caller of this module owns the connection to the message bus.

use crate::slurm_bot::storage::{StorageError, TeleData, TeleDataView};
use vstd::prelude::*;

verus! {

/// The bus name that the relay claims, which is also the name of its
/// interface.
pub const SERVICE_NAME: &'static str = "ar.uba.fcen";

/// The object path that the relay serves.
pub const SERVICE_PATH: &'static str = "/ar/uba/fcen";

/// The one method of the relay.
pub const SERVICE_METHOD: &'static str = "TeleNotify";

/// The bus name of the local notification service, which is also the name
/// of its interface.
pub const SINK_NAME: &'static str = "org.freedesktop.Notifications";

/// The object path of the local notification service.
pub const SINK_PATH: &'static str = "/org/freedesktop/Notifications";

/// The method of the local notification service that shows a notification.
pub const SINK_METHOD: &'static str = "Notify";

/// The urgency level "normal".
pub const URGENCY_NORMAL: u32 = 1;

/// How long a notification of the relay stays, in milliseconds.
pub const EXPIRE_TIMEOUT_MS: i32 = 5000;

/// What a remote caller asks for: a message for an operator.
#[derive(Clone, Debug, PartialEq, Eq)]
pub struct DeliveryRequest {
    pub username: String,
    pub message: String,
}

/// The arguments of one call of the local notification service, in the
/// order in which the method takes them; `urgency` is the one hint.
#[derive(Clone, Debug, PartialEq, Eq)]
pub struct Notification {
    pub app_name: String,
    pub replaces_id: u32,
    pub icon: String,
    pub title: String,
    pub body: String,
    pub actions: Vec<String>,
    pub urgency: u32,
    pub expire_timeout_ms: i32,
}

/// What is done for a request that names a registered operator.
#[derive(Clone, Debug, PartialEq, Eq)]
pub struct Delivery {
    /// What the local notification service is called with.
    pub notification: Notification,
    /// The chat to relay the message to: none while the operator has paused
    /// the delivery.
    pub chat_id: Option<i64>,
}

/// Why a remote call fails. The remote caller sees none of the difference:
/// each is reported as a failed call, without a receipt.
#[derive(Clone, Copy, Debug, PartialEq, Eq, Structural)]
pub enum RpcFault {
    /// The request names nobody who is registered.
    NotFound,
    /// The registry could not be loaded.
    Registry(StorageError),
    /// The local notification service did not take the notification.
    Sink,
}

/// How the message bus answered the claim of the relay's name.
#[derive(Clone, Copy, Debug, PartialEq, Eq, Structural)]
pub enum NameClaim {
    PrimaryOwner,
    InQueue,
    Exists,
    AlreadyOwner,
}

/// Why the notification service does not start.
#[derive(Clone, Copy, Debug, PartialEq, Eq, Structural)]
pub enum StartupError {
    /// The name belongs to somebody else: another relay is running.
    NotPrimaryOwner,
}

/// `notification` shows `title` and `body` for `expire_timeout_ms`
/// milliseconds, with normal urgency and nothing else set.
pub open spec fn is_simple_notification(
    notification: Notification,
    title: Seq<char>,
    body: Seq<char>,
    expire_timeout_ms: i32,
) -> bool {
    &&& notification.app_name@ == Seq::<char>::empty()
    &&& notification.replaces_id == 0
    &&& notification.icon@ == Seq::<char>::empty()
    &&& notification.title@ == title
    &&& notification.body@ == body
    &&& notification.actions@.len() == 1
    &&& notification.actions@[0]@ == Seq::<char>::empty()
    &&& notification.urgency == URGENCY_NORMAL
    &&& notification.expire_timeout_ms == expire_timeout_ms
}

/// What a request comes to in a registry: the fault, or the chat to relay
/// to (none while paused).
pub open spec fn resolve(
    loaded: Result<TeleDataView, StorageError>,
    username: Seq<char>,
) -> Result<Option<i64>, RpcFault> {
    match loaded {
        Err(error) => Err(RpcFault::Registry(error)),
        Ok(registry) => if registry.users.dom().contains(username) {
            if registry.users[username].active {
                Ok(Some(registry.users[username].chat_id))
            } else {
                Ok(None)
            }
        } else {
            Err(RpcFault::NotFound)
        },
    }
}

/// What loading gave, as the contracts speak of it.
pub open spec fn loaded_view(loaded: Result<TeleData, StorageError>) -> Result<
    TeleDataView,
    StorageError,
> {
    match loaded {
        Ok(teledata) => Ok(teledata@),
        Err(error) => Err(error),
    }
}

/// The call of the local notification service that shows `title` and
/// `content`.
pub fn local_simple_notification(title: &str, content: &str, expire_timeout_ms: i32) -> (notification:
    Notification)
    ensures
        is_simple_notification(notification, title@, content@, expire_timeout_ms),
{
    let mut actions: Vec<String> = Vec::new();
    actions.push(String::new());
    Notification {
        app_name: String::new(),
        replaces_id: 0,
        icon: String::new(),
        title: String::from_str(title),
        body: String::from_str(content),
        actions,
        urgency: URGENCY_NORMAL,
        expire_timeout_ms,
    }
}

/// Whether the notification service may start: only as the primary owner
/// of its name.
pub fn check_name_claim(claim: NameClaim) -> (started: Result<(), StartupError>)
    ensures
        started == (if claim == NameClaim::PrimaryOwner {
            Ok::<(), StartupError>(())
        } else {
            Err::<(), StartupError>(StartupError::NotPrimaryOwner)
        }),
{
    match claim {
        NameClaim::PrimaryOwner => Ok(()),
        _ => Err(StartupError::NotPrimaryOwner),
    }
}

/// One call of the remote method, up to the call of the local notification
/// service. `loaded` is the registry as it was loaded for this call.
///
/// The operator is looked up by username. Where there is one, the
/// notification carries the username as its title and the message as its
/// body, whether or not the operator has paused the delivery: a pause only
/// keeps the message from the chat.
pub fn tele_notify(loaded: &Result<TeleData, StorageError>, request: &DeliveryRequest) -> (planned:
    Result<Delivery, RpcFault>)
    ensures
        match planned {
            Ok(delivery) => {
                &&& resolve(loaded_view(*loaded), request.username@) == Ok::<
                    Option<i64>,
                    RpcFault,
                >(delivery.chat_id)
                &&& is_simple_notification(
                    delivery.notification,
                    request.username@,
                    request.message@,
                    EXPIRE_TIMEOUT_MS,
                )
            },
            Err(fault) => resolve(loaded_view(*loaded), request.username@) == Err::<
                Option<i64>,
                RpcFault,
            >(fault),
        },
{
    match loaded {
        Err(error) => Err(RpcFault::Registry(*error)),
        Ok(teledata) => match teledata.get(request.username.as_str()) {
            None => Err(RpcFault::NotFound),
            Some(record) => {
                let notification = local_simple_notification(
                    request.username.as_str(),
                    request.message.as_str(),
                    EXPIRE_TIMEOUT_MS,
                );
                let chat_id = if record.active {
                    Some(record.chat_id)
                } else {
                    None
                };
                Ok(Delivery { notification, chat_id })
            },
        },
    }
}

/// What the remote caller gets back once the local notification service
/// was called: its receipt, or a fault where it gave none.
pub fn receipt(shown: Option<u32>) -> (reply: Result<u32, RpcFault>)
    ensures
        reply == (match shown {
            Some(id) => Ok::<u32, RpcFault>(id),
            None => Err::<u32, RpcFault>(RpcFault::Sink),
        }),
{
    match shown {
        Some(id) => Ok(id),
        None => Err(RpcFault::Sink),
    }
}

} // verus!
