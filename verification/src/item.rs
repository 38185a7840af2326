//! The item: the last link of the ownership chain. It owns its item handle
//! and reads and writes the value of one data point.

use crate::backend::{Event, NativeBackend, ReadReply};
use crate::codec::{decode_value, encode_value, release_event};
use crate::error::{outcome, ErrorView, OpcError, OpcResult};
use crate::memory::{RawValue, Release};
use crate::types::{OpcQuality, OpcValue, ValueView, VT_BSTR, VT_LPSTR, VT_LPWSTR};
use vstd::prelude::*;

verus! {

/// The error for a synchronous read that failed.
pub open spec fn read_failure() -> ErrorView {
    ErrorView::OperationFailed("Failed to read item synchronously"@)
}

/// The error for an asynchronous read that was refused.
pub open spec fn read_async_failure() -> ErrorView {
    ErrorView::OperationFailed("Failed to read item asynchronously"@)
}

/// The error for a write that failed or was refused.
pub open spec fn write_failure(asynchronous: bool) -> ErrorView {
    if asynchronous {
        ErrorView::OperationFailed("Failed to write item asynchronously"@)
    } else {
        ErrorView::OperationFailed("Failed to write item synchronously"@)
    }
}

/// What a synchronous read yields, in mathematical terms: the value, the
/// quality and the timestamp in milliseconds.
pub type Reading = Result<(ValueView, OpcQuality, u64), ErrorView>;

/// The mathematical content of the result of a read.
pub open spec fn reading(r: OpcResult<(OpcValue, OpcQuality, u64)>) -> Reading {
    match r {
        Ok((value, quality, timestamp)) => Ok((value@, quality, timestamp)),
        Err(e) => Err(e@),
    }
}

/// What the answer to a synchronous read amounts to: a failed call is a
/// failed operation; otherwise the value is decoded, and a value that cannot
/// be decoded is reported as the conversion error it is.
pub open spec fn reading_of(reply: ReadReply) -> Reading {
    if reply.code != 0 {
        Err(read_failure())
    } else {
        match decode_value(reply.value, reply.type_tag) {
            Ok(value) => Ok(
                (value, OpcQuality::spec_from_raw(reply.quality), reply.timestamp_ms),
            ),
            Err(e) => Err(ErrorView::ValueConversionError(e)),
        }
    }
}

/// The string buffer that a synchronous read leaves to its caller: the
/// backend allocates the string of a value whose tag is exactly one of the
/// string kinds.
pub open spec fn sync_release_of(value: RawValue, tag: u32) -> Option<Release> {
    if tag == VT_BSTR || tag == VT_LPWSTR {
        match value {
            RawValue::Wide(text) => if text.address != 0 {
                Some(Release::WideString(text.address))
            } else {
                None
            },
            _ => None,
        }
    } else if tag == VT_LPSTR {
        match value {
            RawValue::Ansi(text) => if text.address != 0 {
                Some(Release::AnsiString(text.address))
            } else {
                None
            },
            _ => None,
        }
    } else {
        None
    }
}

/// Judges the answer to a synchronous read.
pub fn value_from_reply(reply: &ReadReply) -> (r: OpcResult<(OpcValue, OpcQuality, u64)>)
    ensures
        reading(r) == reading_of(*reply),
{
    if reply.code == 0 {
        match OpcValue::decode(&reply.value, reply.type_tag) {
            Ok(value) => Ok((value, OpcQuality::from_raw(reply.quality), reply.timestamp_ms)),
            Err(e) => Err(OpcError::ValueConversionError(e)),
        }
    } else {
        Err(OpcError::operation_failed("Failed to read item synchronously"))
    }
}

/// Tells which string buffer is to be handed back after a synchronous read.
pub fn sync_release(value: &RawValue, value_type: u32) -> (release: Option<Release>)
    ensures
        release == sync_release_of(*value, value_type),
{
    if value_type == VT_BSTR || value_type == VT_LPWSTR {
        match value {
            RawValue::Wide(text) => if text.address != 0 {
                Some(Release::WideString(text.address))
            } else {
                None
            },
            _ => None,
        }
    } else if value_type == VT_LPSTR {
        match value {
            RawValue::Ansi(text) => if text.address != 0 {
                Some(Release::AnsiString(text.address))
            } else {
                None
            },
            _ => None,
        }
    } else {
        None
    }
}

/// Judges the return code of a write.
pub fn write_outcome(code: u32, asynchronous: bool) -> (r: OpcResult<()>)
    ensures
        outcome(r) == written(code, asynchronous),
{
    if code == 0 {
        Ok(())
    } else if asynchronous {
        Err(OpcError::operation_failed("Failed to write item asynchronously"))
    } else {
        Err(OpcError::operation_failed("Failed to write item synchronously"))
    }
}

/// Judges the return code of a request for an asynchronous read.
pub fn read_async_outcome(code: u32) -> (r: OpcResult<()>)
    ensures
        outcome(r) == requested(code),
{
    if code == 0 {
        Ok(())
    } else {
        Err(OpcError::operation_failed("Failed to read item asynchronously"))
    }
}

/// What the return code of a write amounts to.
pub open spec fn written(code: u32, asynchronous: bool) -> Result<(), ErrorView> {
    if code == 0 {
        Ok(())
    } else {
        Err(write_failure(asynchronous))
    }
}

/// What the return code of a request for an asynchronous read amounts to.
pub open spec fn requested(code: u32) -> Result<(), ErrorView> {
    if code == 0 {
        Ok(())
    } else {
        Err(read_async_failure())
    }
}

/// The call that hands back the string of a synchronous read, if there is
/// one to hand back.
pub open spec fn sync_release_events(value: RawValue, tag: u32) -> Seq<Event> {
    match sync_release_of(value, tag) {
        Some(buffer) => seq![release_event(buffer)],
        None => Seq::empty(),
    }
}

/// Reading an item, given what the backend answers: the read, and the
/// release of the string that a read whose value was decoded handed over.
pub open spec fn sync_reading(item: usize, reply: ReadReply) -> (Seq<Event>, Reading) {
    let read = seq![Event::ReadSync { item, reply }];
    (
        if reading_of(reply) is Ok {
            read + sync_release_events(reply.value, reply.type_tag)
        } else {
            read
        },
        reading_of(reply),
    )
}

/// Writing an item, given the code that the backend answers: a value that
/// cannot be laid out is refused before any call is made.
pub open spec fn writing(item: usize, value: ValueView, asynchronous: bool, code: u32) -> (
    Seq<Event>,
    Result<(), ErrorView>,
) {
    match encode_value(value) {
        Err(refusal) => (Seq::empty(), Err(refusal)),
        Ok(laid_out) => (
            if asynchronous {
                seq![Event::WriteAsync { item, value: laid_out, code }]
            } else {
                seq![Event::WriteSync { item, value: laid_out, code }]
            },
            written(code, asynchronous),
        ),
    }
}

/// Requesting an asynchronous read, given the code that the backend answers.
pub open spec fn async_reading(item: usize, code: u32) -> (Seq<Event>, Result<(), ErrorView>) {
    (seq![Event::ReadAsync { item, code }], requested(code))
}

/// An item of a group. It is owned by one owner at a time and is released
/// once, by [`OpcItem::release`].
pub struct OpcItem {
    ptr: usize,
}

impl View for OpcItem {
    type V = usize;

    /// The item handle.
    closed spec fn view(&self) -> usize {
        self.ptr
    }
}

impl OpcItem {
    pub(crate) fn new(item_ptr: usize) -> (item: Self)
        ensures
            item@ == item_ptr,
    {
        OpcItem { ptr: item_ptr }
    }

    /// Reads the value, the quality and the timestamp of the item, and waits
    /// for them. A value that cannot be decoded is reported, not replaced.
    /// The string that the backend allocated for a string value is handed
    /// back once it is copied.
    pub fn read_sync<B: NativeBackend>(&self, backend: &mut B) -> (r: OpcResult<
        (OpcValue, OpcQuality, u64),
    >)
        ensures
            exists|reply: ReadReply|
                #![trigger sync_reading(self@, reply)]
                final(backend).log() == old(backend).log() + sync_reading(self@, reply).0
                    && reading(r) == sync_reading(self@, reply).1,
            B::unavailable() ==> (r matches Err(e) && e@ == read_failure()),
    {
        let reply = backend.read_sync(self.ptr);
        let r = value_from_reply(&reply);
        if r.is_ok() {
            Self::free_allocated_string_memory(backend, &reply.value, reply.type_tag);
        }
        proof {
            assert(backend.log() =~= old(backend).log() + sync_reading(self@, reply).0);
            assert(reading(r) == sync_reading(self@, reply).1);
        }
        r
    }

    /// Hands back the string that the backend allocated for the value of a
    /// synchronous read, if the tag is a string kind and the string is not
    /// null.
    pub fn free_allocated_string_memory<B: NativeBackend>(
        backend: &mut B,
        value: &RawValue,
        value_type: u32,
    )
        ensures
            final(backend).log() == old(backend).log() + sync_release_events(*value, value_type),
    {
        match sync_release(value, value_type) {
            Some(Release::WideString(address)) => backend.free_wide_string(address),
            Some(Release::AnsiString(address)) => backend.free_ansi_string(address),
            None => {},
        }
        assert(backend.log() =~= old(backend).log() + sync_release_events(*value, value_type));
    }

    /// Writes a value and waits for the outcome. Decimals and arrays are
    /// refused before anything is sent.
    pub fn write_sync<B: NativeBackend>(&self, backend: &mut B, value: &OpcValue) -> (r: OpcResult<
        (),
    >)
        ensures
            exists|code: u32|
                #![trigger writing(self@, value@, false, code)]
                final(backend).log() == old(backend).log() + writing(self@, value@, false, code).0
                    && outcome(r) == writing(self@, value@, false, code).1,
            B::unavailable() ==> r is Err,
    {
        let encoded = match value.encode() {
            Ok(encoded) => encoded,
            Err(e) => {
                let r = Err(e);
                proof {
                    assert(backend.log() =~= old(backend).log() + writing(
                        self@,
                        value@,
                        false,
                        0,
                    ).0);
                    assert(outcome(r) == writing(self@, value@, false, 0).1);
                }
                return r;
            },
        };
        let code = backend.write_sync(self.ptr, &encoded);
        let r = write_outcome(code, false);
        proof {
            assert(backend.log() =~= old(backend).log() + writing(self@, value@, false, code).0);
            assert(outcome(r) == writing(self@, value@, false, code).1);
        }
        r
    }

    /// Requests a read whose value arrives as a notification.
    pub fn read_async<B: NativeBackend>(&self, backend: &mut B) -> (r: OpcResult<()>)
        ensures
            exists|code: u32|
                #![trigger async_reading(self@, code)]
                final(backend).log() == old(backend).log() + async_reading(self@, code).0
                    && outcome(r) == async_reading(self@, code).1,
            B::unavailable() ==> outcome(r) == Err::<(), ErrorView>(read_async_failure()),
    {
        let code = backend.read_async(self.ptr);
        let r = read_async_outcome(code);
        proof {
            assert(backend.log() =~= old(backend).log() + async_reading(self@, code).0);
            assert(outcome(r) == async_reading(self@, code).1);
        }
        r
    }

    /// Requests a write without waiting for the outcome. Decimals and arrays
    /// are refused before anything is sent.
    pub fn write_async<B: NativeBackend>(&self, backend: &mut B, value: &OpcValue) -> (r: OpcResult<
        (),
    >)
        ensures
            exists|code: u32|
                #![trigger writing(self@, value@, true, code)]
                final(backend).log() == old(backend).log() + writing(self@, value@, true, code).0
                    && outcome(r) == writing(self@, value@, true, code).1,
            B::unavailable() ==> r is Err,
    {
        let encoded = match value.encode() {
            Ok(encoded) => encoded,
            Err(e) => {
                let r = Err(e);
                proof {
                    assert(backend.log() =~= old(backend).log() + writing(self@, value@, true, 0).0);
                    assert(outcome(r) == writing(self@, value@, true, 0).1);
                }
                return r;
            },
        };
        let code = backend.write_async(self.ptr, &encoded);
        let r = write_outcome(code, true);
        proof {
            assert(backend.log() =~= old(backend).log() + writing(self@, value@, true, code).0);
            assert(outcome(r) == writing(self@, value@, true, code).1);
        }
        r
    }

    /// The item handle, as the native side knows it.
    pub fn as_ptr(&self) -> (ptr: usize)
        ensures
            ptr == self@,
    {
        self.ptr
    }

    /// Releases the item handle.
    pub fn release<B: NativeBackend>(self, backend: &mut B)
        ensures
            final(backend).log() == old(backend).log() + seq![Event::FreeItem { item: self@ }],
    {
        backend.free_item(self.ptr);
        assert(backend.log() =~= old(backend).log() + seq![Event::FreeItem { item: self@ }]);
    }
}

} // verus!
