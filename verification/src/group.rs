//! The group: the third link of the ownership chain. It owns its group
//! handle, hands out items and registers the observer of a subscription.
//! The notification entry point turns what the backend hands over into one
//! typed call of the observer.

use crate::backend::{Event, HandleReply, NativeBackend, ReadReply};
use crate::codec::{decode_events, decode_value};
use crate::error::{outcome, ErrorView, OpcError, OpcResult};
use crate::item::{reading, sync_reading, writing, OpcItem};
use crate::memory::{RawValue, WideText};
use crate::text::push_str;
use crate::types::{OpcCallbackContainer, OpcDataCallback, OpcQuality, OpcValue, ValueView};
use crate::utils::{from_wide_text, text_or_empty, to_wide_string, wide_string};
use std::sync::Arc;
use vstd::prelude::*;

verus! {

/// The error for an item that could not be added.
pub open spec fn item_failure(name: Seq<char>) -> ErrorView {
    ErrorView::ItemNotFound("Failed to add item '"@ + name + "' to group"@)
}

/// The error for a subscription that was refused.
pub open spec fn subscription_failure() -> ErrorView {
    ErrorView::AsyncSubscriptionFailed("Failed to enable async subscription"@)
}

/// The error for a refresh that was refused.
pub open spec fn refresh_failure() -> ErrorView {
    ErrorView::OperationFailed("Failed to refresh group"@)
}

/// The value that an undecodable notification carries in place of its own.
pub open spec fn fallback_value() -> ValueView {
    ValueView::Int32(0)
}

/// The value of a notification: the decoded value, or the fallback where
/// decoding fails, so that one malformed notification does not end the
/// stream.
pub open spec fn notified_value(value: RawValue, tag: u32) -> ValueView {
    match decode_value(value, tag) {
        Ok(v) => v,
        Err(_) => fallback_value(),
    }
}

/// Judges the answer to adding an item: the item handle, or the error that
/// names the item.
pub fn item_from_reply(reply: HandleReply, name: &str) -> (r: OpcResult<usize>)
    ensures
        reply.code == 0 && reply.handle != 0 ==> (r matches Ok(item) && item == reply.handle),
        !(reply.code == 0 && reply.handle != 0) ==> (r matches Err(e) && e@ == item_failure(
            name@,
        )),
{
    if reply.code == 0 && reply.handle != 0 {
        Ok(reply.handle)
    } else {
        let mut msg = "Failed to add item '".to_string();
        push_str(&mut msg, name);
        push_str(&mut msg, "' to group");
        Err(OpcError::ItemNotFound(msg))
    }
}

/// Judges the return code of registering an observer.
pub fn subscription_outcome(code: u32) -> (r: OpcResult<()>)
    ensures
        outcome(r) == subscribed(code),
{
    if code == 0 {
        Ok(())
    } else {
        Err(OpcError::AsyncSubscriptionFailed("Failed to enable async subscription".to_string()))
    }
}

/// Judges the return code of a refresh.
pub fn refresh_outcome(code: u32) -> (r: OpcResult<()>)
    ensures
        outcome(r) == refreshed(code),
{
    if code == 0 {
        Ok(())
    } else {
        Err(OpcError::operation_failed("Failed to refresh group"))
    }
}

/// What the return code of registering an observer amounts to.
pub open spec fn subscribed(code: u32) -> Result<(), ErrorView> {
    if code == 0 {
        Ok(())
    } else {
        Err(subscription_failure())
    }
}

/// What the return code of a refresh amounts to.
pub open spec fn refreshed(code: u32) -> Result<(), ErrorView> {
    if code == 0 {
        Ok(())
    } else {
        Err(refresh_failure())
    }
}

/// Adding an item, given what the backend answers.
pub open spec fn item_addition(group: usize, name: Seq<char>, reply: HandleReply) -> (
    Seq<Event>,
    Result<usize, ErrorView>,
) {
    (
        seq![Event::AddItem { group, name: wide_string(name), reply }],
        if reply.code == 0 && reply.handle != 0 {
            Ok(reply.handle)
        } else {
            Err(item_failure(name))
        },
    )
}

/// Registering an observer, given the pointer that pinning its container
/// gives and the code that the backend answers: where the backend refuses
/// the registration, the container is taken back before the error is
/// returned.
pub open spec fn subscribing(group: usize, user_data: usize, code: u32) -> (
    Seq<Event>,
    Result<(), ErrorView>,
) {
    let pin = Event::PinObserver { user_data };
    let enable = Event::EnableAsync { group, user_data, code };
    (
        if code == 0 {
            seq![pin, enable]
        } else {
            seq![pin, enable, Event::UnpinObserver { user_data }]
        },
        subscribed(code),
    )
}

/// Refreshing a group, given the code that the backend answers.
pub open spec fn refreshing(group: usize, code: u32) -> (Seq<Event>, Result<(), ErrorView>) {
    (seq![Event::Refresh { group, code }], refreshed(code))
}

/// A registration that the backend refuses is a subscription failure, and
/// the container that was pinned for it is taken back by the last call made;
/// one that the backend accepts leaves the container with the backend.
pub proof fn lemma_refused_subscription_is_unpinned(group: usize, user_data: usize, code: u32)
    ensures
        ({
            let (calls, result) = subscribing(group, user_data, code);
            &&& calls[0] == Event::PinObserver { user_data }
            &&& calls[1] == Event::EnableAsync { group, user_data, code }
            &&& code != 0 ==> result == Err::<(), ErrorView>(subscription_failure())
                && calls.len() == 3 && calls[2] == Event::UnpinObserver { user_data }
            &&& code == 0 ==> result == Ok::<(), ErrorView>(()) && calls.len() == 2
        }),
{
}

/// A group of items on a server. It is owned by one owner at a time and is
/// released once, by [`OpcGroup::release`].
pub struct OpcGroup {
    ptr: usize,
}

impl View for OpcGroup {
    type V = usize;

    /// The group handle.
    closed spec fn view(&self) -> usize {
        self.ptr
    }
}

impl OpcGroup {
    pub(crate) fn new(group_ptr: usize) -> (group: Self)
        ensures
            group@ == group_ptr,
    {
        OpcGroup { ptr: group_ptr }
    }

    /// Adds the item with the given path to the group.
    pub fn add_item<B: NativeBackend>(&self, backend: &mut B, name: &str) -> (r: OpcResult<OpcItem>)
        ensures
            exists|reply: HandleReply|
                #![trigger item_addition(self@, name@, reply)]
                final(backend).log() == old(backend).log() + item_addition(self@, name@, reply).0
                    && outcome(r) == item_addition(self@, name@, reply).1,
            B::unavailable() ==> outcome(r) == Err::<usize, ErrorView>(item_failure(name@)),
    {
        let item_name_wide = to_wide_string(name);
        let reply = backend.add_item(self.ptr, item_name_wide.as_slice());
        let r = match item_from_reply(reply, name) {
            Ok(item) => Ok(OpcItem::new(item)),
            Err(e) => Err(e),
        };
        proof {
            assert(backend.log() =~= old(backend).log() + item_addition(self@, name@, reply).0);
            assert(outcome(r) == item_addition(self@, name@, reply).1);
        }
        r
    }

    /// Registers an observer for the value changes of the group. The
    /// observer is placed in a container that the backend keeps a pointer to;
    /// where the backend refuses the registration the container is taken
    /// back at once.
    pub fn enable_async_subscription<B: NativeBackend, C: OpcDataCallback + ?Sized + 'static>(
        &self,
        backend: &mut B,
        callback: Arc<C>,
    ) -> (r: OpcResult<()>)
        ensures
            exists|user_data: usize, code: u32|
                #![trigger subscribing(self@, user_data, code)]
                final(backend).log() == old(backend).log() + subscribing(self@, user_data, code).0
                    && outcome(r) == subscribing(self@, user_data, code).1,
            B::unavailable() ==> outcome(r) == Err::<(), ErrorView>(subscription_failure()),
    {
        let user_data = backend.pin_observer(OpcCallbackContainer { callback });
        let code = backend.enable_async(self.ptr, user_data);
        let r = subscription_outcome(code);
        if code != 0 {
            backend.unpin_observer(user_data);
        }
        proof {
            assert(backend.log() =~= old(backend).log() + subscribing(self@, user_data, code).0);
            assert(outcome(r) == subscribing(self@, user_data, code).1);
        }
        r
    }

    /// Asks the backend to notify the observer of every item of the group.
    pub fn refresh<B: NativeBackend>(&self, backend: &mut B) -> (r: OpcResult<()>)
        ensures
            exists|code: u32|
                #![trigger refreshing(self@, code)]
                final(backend).log() == old(backend).log() + refreshing(self@, code).0 && outcome(r)
                    == refreshing(self@, code).1,
            B::unavailable() ==> outcome(r) == Err::<(), ErrorView>(refresh_failure()),
    {
        let code = backend.group_refresh(self.ptr);
        let r = refresh_outcome(code);
        proof {
            assert(backend.log() =~= old(backend).log() + refreshing(self@, code).0);
            assert(outcome(r) == refreshing(self@, code).1);
        }
        r
    }

    /// Reads an item of the group and waits for the value.
    pub fn read_sync<B: NativeBackend>(&self, backend: &mut B, item: &OpcItem) -> (r: OpcResult<
        (OpcValue, OpcQuality, u64),
    >)
        ensures
            exists|reply: ReadReply|
                #![trigger sync_reading(item@, reply)]
                final(backend).log() == old(backend).log() + sync_reading(item@, reply).0
                    && reading(r) == sync_reading(item@, reply).1,
            B::unavailable() ==> (r matches Err(e) && e@ == crate::item::read_failure()),
    {
        item.read_sync(backend)
    }

    /// Writes an item of the group and waits for the outcome.
    pub fn write_sync<B: NativeBackend>(
        &self,
        backend: &mut B,
        item: &OpcItem,
        value: &OpcValue,
    ) -> (r: OpcResult<()>)
        ensures
            exists|code: u32|
                #![trigger writing(item@, value@, false, code)]
                final(backend).log() == old(backend).log() + writing(item@, value@, false, code).0
                    && outcome(r) == writing(item@, value@, false, code).1,
            B::unavailable() ==> r is Err,
    {
        item.write_sync(backend, value)
    }

    /// The group handle, as the native side knows it.
    pub fn as_ptr(&self) -> (ptr: usize)
        ensures
            ptr == self@,
    {
        self.ptr
    }

    /// Releases the group handle; the backend releases the items that are
    /// still alive with it.
    pub fn release<B: NativeBackend>(self, backend: &mut B)
        ensures
            final(backend).log() == old(backend).log() + seq![Event::FreeGroup { group: self@ }],
    {
        backend.free_group(self.ptr);
        assert(backend.log() =~= old(backend).log() + seq![Event::FreeGroup { group: self@ }]);
    }
}

/// One decoded notification.
pub struct Notification {
    pub group_name: String,
    pub item_name: String,
    pub value: OpcValue,
    pub quality: OpcQuality,
    pub timestamp: u64,
}

/// Mathematical content of a [`Notification`].
pub struct NotificationView {
    pub group_name: Seq<char>,
    pub item_name: Seq<char>,
    pub value: ValueView,
    pub quality: OpcQuality,
    pub timestamp: u64,
}

impl View for Notification {
    type V = NotificationView;

    open spec fn view(&self) -> NotificationView {
        NotificationView {
            group_name: self.group_name@,
            item_name: self.item_name@,
            value: self.value@,
            quality: self.quality,
            timestamp: self.timestamp,
        }
    }
}

/// What the notification entry point makes of what the backend hands over.
pub open spec fn notification_of(
    group_name: Option<WideText>,
    item_name: Option<WideText>,
    value: RawValue,
    quality: i32,
    value_type: u32,
    timestamp_ms: u64,
) -> NotificationView {
    NotificationView {
        group_name: text_or_empty(group_name),
        item_name: text_or_empty(item_name),
        value: notified_value(value, value_type),
        quality: OpcQuality::spec_from_raw(quality),
        timestamp: timestamp_ms,
    }
}

/// Decodes what the backend hands to the notification entry point: the two
/// names, the value and the quality. The buffers of the notification belong
/// to the receiver, so the string buffers of the value are handed back once
/// their text is copied. A value that cannot be decoded is replaced by the
/// fallback.
pub fn decode_notification<B: NativeBackend>(
    backend: &mut B,
    group_name: &Option<WideText>,
    item_name: &Option<WideText>,
    value: &RawValue,
    quality: i32,
    value_type: u32,
    timestamp_ms: u64,
) -> (n: Notification)
    ensures
        n@ == notification_of(
            *group_name,
            *item_name,
            *value,
            quality,
            value_type,
            timestamp_ms,
        ),
        final(backend).log() == old(backend).log() + decode_events(*value, value_type, true),
{
    let decoded_value = match OpcValue::from_raw(backend, value, value_type, true) {
        Ok(v) => v,
        Err(_) => OpcValue::Int32(0),
    };
    Notification {
        group_name: from_wide_text(group_name),
        item_name: from_wide_text(item_name),
        value: decoded_value,
        quality: OpcQuality::from_raw(quality),
        timestamp: timestamp_ms,
    }
}

/// The notification entry point: decodes what the backend hands over and
/// calls the observer once with it. Without a container nothing happens.
pub fn opc_data_change_callback<B: NativeBackend, C: OpcDataCallback + ?Sized + 'static>(
    backend: &mut B,
    container: Option<&OpcCallbackContainer<C>>,
    group_name: &Option<WideText>,
    item_name: &Option<WideText>,
    value: &RawValue,
    quality: i32,
    value_type: u32,
    timestamp_ms: u64,
)
    ensures
        final(backend).log() == old(backend).log() + decode_events(
            *value,
            value_type,
            container is Some,
        ),
{
    match container {
        None => {
            assert(backend.log() =~= old(backend).log() + decode_events(
                *value,
                value_type,
                false,
            ));
        },
        Some(container) => {
            let n = decode_notification(
                backend,
                group_name,
                item_name,
                value,
                quality,
                value_type,
                timestamp_ms,
            );
            container.callback.on_data_change(
                n.group_name.as_str(),
                n.item_name.as_str(),
                n.value,
                n.quality,
                n.timestamp,
            );
        },
    }
}

} // verus!
