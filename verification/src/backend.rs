//! The native call boundary: the fixed set of entry points of the native
//! data-access library, as an interface with two kinds of implementation.
//! One forwards to the native library; the other, [`StubBackend`], stands in
//! where that library is absent and reports failure from every entry point.
//!
//! Handles and addresses are the native side's own identifiers; zero is the
//! null handle. Return code zero is success, and any other code means no
//! more than that the call failed.
//!
//! A backend has a record of the calls that were made through it: what was
//! handed over and what came back, in order. The record is ghost state: it
//! exists for the contracts, which say which calls an operation makes by
//! what it adds to the record.

use crate::memory::{RawValue, WideText};
use crate::types::{Float64, OpcCallbackContainer, OpcDataCallback};
use vstd::prelude::*;

verus! {

/// The answer of an entry point that hands out a handle.
#[derive(Debug, Clone, Copy, PartialEq, Eq, Structural)]
pub struct HandleReply {
    pub code: u32,
    pub handle: usize,
}

/// The answer of the status query: a state code and the vendor string, if
/// the backend supplied one.
#[derive(Debug, Clone, PartialEq)]
pub struct StatusReply {
    pub code: u32,
    pub state: u32,
    pub vendor: Option<WideText>,
}

/// The answer of group creation: the update interval that the backend
/// settled on, and the handle of the group.
#[derive(Debug, Clone, Copy, PartialEq, Eq, Structural)]
pub struct GroupReply {
    pub code: u32,
    pub actual_ms: u32,
    pub handle: usize,
}

/// The answer of a synchronous read: what the value slot leads to, the
/// status code of the quality, the type tag and the timestamp.
#[derive(Debug, PartialEq)]
pub struct ReadReply {
    pub code: u32,
    pub value: RawValue,
    pub quality: i32,
    pub type_tag: u32,
    pub timestamp_ms: u64,
}

/// The answer of the browse query: the address of the string array, the
/// number of its entries and the strings that the entries point to, `None`
/// for a null entry. A null array has address zero.
#[derive(Debug, Clone, PartialEq)]
pub struct NamesReply {
    pub code: u32,
    pub address: usize,
    pub count: u32,
    pub names: Vec<Option<WideText>>,
}

/// What a write hands to the native side behind the value pointer.
#[derive(Debug, Clone, PartialEq)]
pub enum EncodedPayload {
    /// The bytes of a payload of fixed width.
    Bytes(Vec<u8>),
    /// A pointer to this NUL-terminated wide string, which stays alive for
    /// the duration of the call.
    Text(Vec<u16>),
}

/// A value laid out for the native side, with its type tag.
#[derive(Debug, Clone, PartialEq)]
pub struct EncodedValue {
    pub type_tag: u32,
    pub payload: EncodedPayload,
}

/// Mathematical content of an [`EncodedPayload`].
pub enum PayloadView {
    Bytes(Seq<u8>),
    Text(Seq<u16>),
}

/// Mathematical content of an [`EncodedValue`].
pub struct EncodedView {
    pub type_tag: u32,
    pub payload: PayloadView,
}

impl View for EncodedPayload {
    type V = PayloadView;

    open spec fn view(&self) -> PayloadView {
        match self {
            EncodedPayload::Bytes(bytes) => PayloadView::Bytes(bytes@),
            EncodedPayload::Text(units) => PayloadView::Text(units@),
        }
    }
}

impl View for EncodedValue {
    type V = EncodedView;

    open spec fn view(&self) -> EncodedView {
        EncodedView { type_tag: self.type_tag, payload: self.payload@ }
    }
}

/// One call of an entry point: what was handed over and what came back.
#[allow(inconsistent_fields)]
pub enum Event {
    Init { code: u32 },
    Stop,
    MakeHost { name: Seq<u16>, reply: HandleReply },
    FreeHost { host: usize },
    ConnectServer { host: usize, name: Seq<u16>, reply: HandleReply },
    FreeServer { server: usize },
    GetStatus { server: usize, reply: StatusReply },
    MakeGroup {
        server: usize,
        name: Seq<u16>,
        active_flag: i32,
        requested_ms: u32,
        deadband: Float64,
        reply: GroupReply,
    },
    FreeGroup { group: usize },
    AddItem { group: usize, name: Seq<u16>, reply: HandleReply },
    FreeItem { item: usize },
    ReadSync { item: usize, reply: ReadReply },
    WriteSync { item: usize, value: EncodedView, code: u32 },
    ReadAsync { item: usize, code: u32 },
    WriteAsync { item: usize, value: EncodedView, code: u32 },
    Refresh { group: usize, code: u32 },
    PinObserver { user_data: usize },
    UnpinObserver { user_data: usize },
    EnableAsync { group: usize, user_data: usize, code: u32 },
    GetItemNames { server: usize, reply: NamesReply },
    FreeStringArray { address: usize, count: u32 },
    FreeWideString { address: usize },
    FreeAnsiString { address: usize },
}

/// The entry points of the native library.
pub trait NativeBackend {
    /// The calls made through this backend so far, oldest first. A backend
    /// that is not reasoned about keeps none.
    open spec fn log(&self) -> Seq<Event> {
        Seq::empty()
    }

    /// Whether the native library is absent, so that every entry point that
    /// returns a code reports failure. A backend is taken to be present
    /// unless it says otherwise.
    open spec fn unavailable() -> bool {
        false
    }

    /// Initialises the library.
    fn init(&mut self) -> (code: u32)
        ensures
            final(self).log() == old(self).log().push(Event::Init { code }),
            Self::unavailable() ==> code != 0,
    ;

    /// Stops the library.
    fn stop(&mut self)
        ensures
            final(self).log() == old(self).log().push(Event::Stop),
    ;

    /// Resolves a host name.
    fn make_host(&mut self, wide_name: &[u16]) -> (reply: HandleReply)
        ensures
            final(self).log() == old(self).log().push(Event::MakeHost { name: wide_name@, reply }),
            Self::unavailable() ==> reply.code != 0,
    ;

    /// Releases a host handle.
    fn free_host(&mut self, host: usize)
        ensures
            final(self).log() == old(self).log().push(Event::FreeHost { host }),
    ;

    /// Connects to a named server on a host.
    fn connect_server(&mut self, host: usize, wide_name: &[u16]) -> (reply: HandleReply)
        ensures
            final(self).log() == old(self).log().push(Event::ConnectServer { host, name: wide_name@, reply }),
            Self::unavailable() ==> reply.code != 0,
    ;

    /// Releases a server handle.
    fn free_server(&mut self, server: usize)
        ensures
            final(self).log() == old(self).log().push(Event::FreeServer { server }),
    ;

    /// Queries the state of a server.
    fn get_status(&mut self, server: usize) -> (reply: StatusReply)
        ensures
            final(self).log() == old(self).log().push(Event::GetStatus { server, reply }),
            Self::unavailable() ==> reply.code != 0,
    ;

    /// Creates a group on a server.
    fn make_group(&mut self, server: usize, wide_name: &[u16], active_flag: i32, requested_ms: u32, deadband: Float64) -> (reply: GroupReply)
        ensures
            final(self).log() == old(self).log().push(Event::MakeGroup { server, name: wide_name@, active_flag, requested_ms, deadband, reply }),
            Self::unavailable() ==> reply.code != 0,
    ;

    /// Releases a group handle.
    fn free_group(&mut self, group: usize)
        ensures
            final(self).log() == old(self).log().push(Event::FreeGroup { group }),
    ;

    /// Adds an item to a group.
    fn add_item(&mut self, group: usize, wide_name: &[u16]) -> (reply: HandleReply)
        ensures
            final(self).log() == old(self).log().push(Event::AddItem { group, name: wide_name@, reply }),
            Self::unavailable() ==> reply.code != 0,
    ;

    /// Releases an item handle.
    fn free_item(&mut self, item: usize)
        ensures
            final(self).log() == old(self).log().push(Event::FreeItem { item }),
    ;

    /// Reads an item and waits for the value.
    fn read_sync(&mut self, item: usize) -> (reply: ReadReply)
        ensures
            final(self).log() == old(self).log().push(Event::ReadSync { item, reply }),
            Self::unavailable() ==> reply.code != 0,
    ;

    /// Writes an item and waits for the outcome.
    fn write_sync(&mut self, item: usize, value: &EncodedValue) -> (code: u32)
        ensures
            final(self).log() == old(self).log().push(Event::WriteSync { item, value: value@, code }),
            Self::unavailable() ==> code != 0,
    ;

    /// Requests a read whose value arrives as a notification.
    fn read_async(&mut self, item: usize) -> (code: u32)
        ensures
            final(self).log() == old(self).log().push(Event::ReadAsync { item, code }),
            Self::unavailable() ==> code != 0,
    ;

    /// Requests a write without waiting for the outcome.
    fn write_async(&mut self, item: usize, value: &EncodedValue) -> (code: u32)
        ensures
            final(self).log() == old(self).log().push(Event::WriteAsync { item, value: value@, code }),
            Self::unavailable() ==> code != 0,
    ;

    /// Asks for a notification of every item of a group.
    fn group_refresh(&mut self, group: usize) -> (code: u32)
        ensures
            final(self).log() == old(self).log().push(Event::Refresh { group, code }),
            Self::unavailable() ==> code != 0,
    ;

    /// Places the container of an observer where the native side can keep a
    /// pointer to it, and returns that pointer.
    fn pin_observer<C: OpcDataCallback + ?Sized + 'static>(&mut self, container: OpcCallbackContainer<C>) -> (user_data: usize)
        ensures
            final(self).log() == old(self).log().push(Event::PinObserver { user_data }),
    ;

    /// Takes back and drops a container that was pinned.
    fn unpin_observer(&mut self, user_data: usize)
        ensures
            final(self).log() == old(self).log().push(Event::UnpinObserver { user_data }),
    ;

    /// Registers the notification entry point of this library, with the
    /// pointer to a pinned container as its user data.
    fn enable_async(&mut self, group: usize, user_data: usize) -> (code: u32)
        ensures
            final(self).log() == old(self).log().push(Event::EnableAsync { group, user_data, code }),
            Self::unavailable() ==> code != 0,
    ;

    /// Lists the item names of a server.
    fn get_item_names(&mut self, server: usize) -> (reply: NamesReply)
        ensures
            final(self).log() == old(self).log().push(Event::GetItemNames { server, reply }),
            Self::unavailable() ==> reply.code != 0,
    ;

    /// Releases a string array and its strings.
    fn free_string_array(&mut self, address: usize, count: u32)
        ensures
            final(self).log() == old(self).log().push(Event::FreeStringArray { address, count }),
    ;

    /// Releases a wide string.
    fn free_wide_string(&mut self, address: usize)
        ensures
            final(self).log() == old(self).log().push(Event::FreeWideString { address }),
    ;

    /// Releases a single-byte string.
    fn free_ansi_string(&mut self, address: usize)
        ensures
            final(self).log() == old(self).log().push(Event::FreeAnsiString { address }),
    ;
}

/// The backend of a platform without the native library: every entry point
/// exists and reports failure, and releasing does nothing.
pub struct StubBackend {
    record: Ghost<Seq<Event>>,
}

/// The code that the stub reports.
pub const STUB_FAILURE: u32 = 1;

impl StubBackend {
    /// A stub through which no call was made yet.
    pub fn new() -> (backend: StubBackend)
        ensures
            backend.log() == Seq::<Event>::empty(),
    {
        StubBackend { record: Ghost(Seq::empty()) }
    }
}

impl NativeBackend for StubBackend {
    closed spec fn log(&self) -> Seq<Event> {
        self.record@
    }

    open spec fn unavailable() -> bool {
        true
    }

    fn init(&mut self) -> (code: u32)
        ensures
            code == STUB_FAILURE,
    {
        let code: u32 = STUB_FAILURE;
        proof {
            self.record@ = self.record@.push(Event::Init { code });
        }
        code
    }

    fn stop(&mut self)
    {
        proof {
            self.record@ = self.record@.push(Event::Stop);
        }
    }

    fn make_host(&mut self, wide_name: &[u16]) -> (reply: HandleReply)
        ensures
            reply == (HandleReply { code: STUB_FAILURE, handle: 0 }),
    {
        let reply = HandleReply { code: STUB_FAILURE, handle: 0 };
        proof {
            self.record@ = self.record@.push(Event::MakeHost { name: wide_name@, reply });
        }
        reply
    }

    fn free_host(&mut self, host: usize)
    {
        proof {
            self.record@ = self.record@.push(Event::FreeHost { host });
        }
    }

    fn connect_server(&mut self, host: usize, wide_name: &[u16]) -> (reply: HandleReply)
        ensures
            reply == (HandleReply { code: STUB_FAILURE, handle: 0 }),
    {
        let reply = HandleReply { code: STUB_FAILURE, handle: 0 };
        proof {
            self.record@ = self.record@.push(Event::ConnectServer { host, name: wide_name@, reply });
        }
        reply
    }

    fn free_server(&mut self, server: usize)
    {
        proof {
            self.record@ = self.record@.push(Event::FreeServer { server });
        }
    }

    fn get_status(&mut self, server: usize) -> (reply: StatusReply)
        ensures
            reply.code == STUB_FAILURE,
    {
        let reply = StatusReply { code: STUB_FAILURE, state: 0, vendor: None };
        proof {
            self.record@ = self.record@.push(Event::GetStatus { server, reply });
        }
        reply
    }

    fn make_group(&mut self, server: usize, wide_name: &[u16], active_flag: i32, requested_ms: u32, deadband: Float64) -> (reply: GroupReply)
        ensures
            reply == (GroupReply { code: STUB_FAILURE, actual_ms: 0, handle: 0 }),
    {
        let reply = GroupReply { code: STUB_FAILURE, actual_ms: 0, handle: 0 };
        proof {
            self.record@ = self.record@.push(Event::MakeGroup { server, name: wide_name@, active_flag, requested_ms, deadband, reply });
        }
        reply
    }

    fn free_group(&mut self, group: usize)
    {
        proof {
            self.record@ = self.record@.push(Event::FreeGroup { group });
        }
    }

    fn add_item(&mut self, group: usize, wide_name: &[u16]) -> (reply: HandleReply)
        ensures
            reply == (HandleReply { code: STUB_FAILURE, handle: 0 }),
    {
        let reply = HandleReply { code: STUB_FAILURE, handle: 0 };
        proof {
            self.record@ = self.record@.push(Event::AddItem { group, name: wide_name@, reply });
        }
        reply
    }

    fn free_item(&mut self, item: usize)
    {
        proof {
            self.record@ = self.record@.push(Event::FreeItem { item });
        }
    }

    fn read_sync(&mut self, item: usize) -> (reply: ReadReply)
        ensures
            reply.code == STUB_FAILURE,
    {
        let reply = ReadReply { code: STUB_FAILURE, value: RawValue::Null, quality: 0, type_tag: 0, timestamp_ms: 0 };
        proof {
            self.record@ = self.record@.push(Event::ReadSync { item, reply });
        }
        reply
    }

    fn write_sync(&mut self, item: usize, value: &EncodedValue) -> (code: u32)
        ensures
            code == STUB_FAILURE,
    {
        let code: u32 = STUB_FAILURE;
        proof {
            self.record@ = self.record@.push(Event::WriteSync { item, value: value@, code });
        }
        code
    }

    fn read_async(&mut self, item: usize) -> (code: u32)
        ensures
            code == STUB_FAILURE,
    {
        let code: u32 = STUB_FAILURE;
        proof {
            self.record@ = self.record@.push(Event::ReadAsync { item, code });
        }
        code
    }

    fn write_async(&mut self, item: usize, value: &EncodedValue) -> (code: u32)
        ensures
            code == STUB_FAILURE,
    {
        let code: u32 = STUB_FAILURE;
        proof {
            self.record@ = self.record@.push(Event::WriteAsync { item, value: value@, code });
        }
        code
    }

    fn group_refresh(&mut self, group: usize) -> (code: u32)
        ensures
            code == STUB_FAILURE,
    {
        let code: u32 = STUB_FAILURE;
        proof {
            self.record@ = self.record@.push(Event::Refresh { group, code });
        }
        code
    }

    fn pin_observer<C: OpcDataCallback + ?Sized + 'static>(&mut self, container: OpcCallbackContainer<C>) -> (user_data: usize)
        ensures
            user_data == 0,
    {
        let user_data: usize = 0;
        proof {
            self.record@ = self.record@.push(Event::PinObserver { user_data });
        }
        user_data
    }

    fn unpin_observer(&mut self, user_data: usize)
    {
        proof {
            self.record@ = self.record@.push(Event::UnpinObserver { user_data });
        }
    }

    fn enable_async(&mut self, group: usize, user_data: usize) -> (code: u32)
        ensures
            code == STUB_FAILURE,
    {
        let code: u32 = STUB_FAILURE;
        proof {
            self.record@ = self.record@.push(Event::EnableAsync { group, user_data, code });
        }
        code
    }

    fn get_item_names(&mut self, server: usize) -> (reply: NamesReply)
        ensures
            reply.code == STUB_FAILURE,
    {
        let reply = NamesReply { code: STUB_FAILURE, address: 0, count: 0, names: Vec::new() };
        proof {
            self.record@ = self.record@.push(Event::GetItemNames { server, reply });
        }
        reply
    }

    fn free_string_array(&mut self, address: usize, count: u32)
    {
        proof {
            self.record@ = self.record@.push(Event::FreeStringArray { address, count });
        }
    }

    fn free_wide_string(&mut self, address: usize)
    {
        proof {
            self.record@ = self.record@.push(Event::FreeWideString { address });
        }
    }

    fn free_ansi_string(&mut self, address: usize)
    {
        proof {
            self.record@ = self.record@.push(Event::FreeAnsiString { address });
        }
    }
}

} // verus!
