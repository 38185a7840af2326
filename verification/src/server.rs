//! The server: the second link of the ownership chain. It owns its server
//! handle and the host handle it was reached through, and it hands out
//! groups.

use crate::backend::{Event, GroupReply, NamesReply, NativeBackend, StatusReply};
use crate::error::{outcome, ErrorView, OpcError, OpcResult};
use crate::group::OpcGroup;
use crate::memory::WideText;
use crate::text::push_str;
use crate::types::Float64;
use crate::utils::{
    free_wide_string, free_wide_string_array, from_wide_string, from_wide_text,
    string_array_release, text_or_empty, to_wide_string, wide_string, wide_string_release,
    wide_text,
};
use vstd::prelude::*;

verus! {

/// The error for a status query that failed.
pub open spec fn status_failure() -> ErrorView {
    ErrorView::OperationFailed("Failed to get server status"@)
}

/// The error for a group that could not be created.
pub open spec fn group_failure(name: Seq<char>) -> ErrorView {
    ErrorView::GroupCreationFailed("Failed to create group '"@ + name + "'"@)
}

/// The error for a browse query that failed.
pub open spec fn names_failure() -> ErrorView {
    ErrorView::OperationFailed("Failed to get item names"@)
}

/// The texts of the entries that are not null, in order.
pub open spec fn present_names(entries: Seq<Option<WideText>>) -> Seq<Seq<char>>
    decreases entries.len(),
{
    if entries.len() == 0 {
        Seq::empty()
    } else {
        present_names(entries.drop_last()) + match entries.last() {
            Some(text) => seq![wide_text(text.units@)],
            None => Seq::empty(),
        }
    }
}

/// How many entries of a browse answer are looked at: as many as the backend
/// counted, and no more than were read.
pub open spec fn listed(reply: NamesReply) -> int {
    if reply.count <= reply.names@.len() {
        reply.count as int
    } else {
        reply.names@.len() as int
    }
}

/// Judges the answer to the status query: the state code and the vendor
/// string, empty where the backend supplied none.
pub fn status_from_reply(reply: &StatusReply) -> (r: OpcResult<(u32, String)>)
    ensures
        outcome(r) == status_of(*reply),
{
    if reply.code == 0 {
        Ok((reply.state, from_wide_text(&reply.vendor)))
    } else {
        Err(OpcError::operation_failed("Failed to get server status"))
    }
}

/// Judges the answer to group creation: the group handle, or the error that
/// names the group. The update interval that the backend settled on is not
/// passed on.
pub fn group_from_reply(reply: GroupReply, name: &str) -> (r: OpcResult<usize>)
    ensures
        reply.code == 0 && reply.handle != 0 ==> (r matches Ok(group) && group == reply.handle),
        !(reply.code == 0 && reply.handle != 0) ==> (r matches Err(e) && e@ == group_failure(
            name@,
        )),
{
    if reply.code == 0 && reply.handle != 0 {
        Ok(reply.handle)
    } else {
        let mut msg = "Failed to create group '".to_string();
        push_str(&mut msg, name);
        push_str(&mut msg, "'");
        Err(OpcError::GroupCreationFailed(msg))
    }
}

/// Judges the answer to the browse query: the names behind the entries that
/// are not null, in order.
pub fn names_from_reply(reply: &NamesReply) -> (r: OpcResult<Vec<String>>)
    ensures
        named(r) == names_of(*reply),
{
    if reply.code == 0 && reply.address != 0 {
        let mut items: Vec<String> = Vec::new();
        let mut i: usize = 0;
        let limit: usize = if (reply.count as usize) <= reply.names.len() {
            reply.count as usize
        } else {
            reply.names.len()
        };
        assert(reply.names@.take(0) =~= Seq::<Option<WideText>>::empty());
        assert(items.deep_view() =~= Seq::<Seq<char>>::empty());
        while i < limit
            invariant
                i <= limit <= reply.names.len(),
                limit == listed(*reply),
                items.deep_view() == present_names(reply.names@.take(i as int)),
            decreases limit - i,
        {
            let ghost before = items.deep_view();
            assert(reply.names@.take(i + 1).drop_last() =~= reply.names@.take(i as int));
            assert(reply.names@.take(i + 1).last() == reply.names@[i as int]);
            match &reply.names[i] {
                Some(text) => {
                    let name = from_wide_string(text.units.as_slice());
                    items.push(name);
                    assert(items.deep_view() =~= before + seq![wide_text(text.units@)]);
                },
                None => {
                    assert(before + Seq::<Seq<char>>::empty() =~= before);
                },
            }
            i = i + 1;
        }
        Ok(items)
    } else {
        Err(OpcError::operation_failed("Failed to get item names"))
    }
}

/// Mathematical content of an [`OpcServer`]: the server handle and the host
/// handle that the server was reached through.
pub struct ServerView {
    pub handle: usize,
    pub host: usize,
}

/// The mathematical content of a list of names, or of the error in its
/// place.
pub open spec fn named(r: OpcResult<Vec<String>>) -> Result<Seq<Seq<char>>, ErrorView> {
    match r {
        Ok(names) => Ok(names.deep_view()),
        Err(e) => Err(e@),
    }
}

/// What the answer to the status query amounts to.
pub open spec fn status_of(reply: StatusReply) -> Result<(u32, Seq<char>), ErrorView> {
    if reply.code == 0 {
        Ok((reply.state, text_or_empty(reply.vendor)))
    } else {
        Err(status_failure())
    }
}

/// Querying the status, given what the backend answers: the query, and the
/// release of the vendor string that a successful query handed over.
pub open spec fn status_query(server: usize, reply: StatusReply) -> (
    Seq<Event>,
    Result<(u32, Seq<char>), ErrorView>,
) {
    let query = seq![Event::GetStatus { server, reply }];
    (
        match reply.vendor {
            Some(vendor) => if reply.code == 0 {
                query + wide_string_release(vendor.address)
            } else {
                query
            },
            None => query,
        },
        status_of(reply),
    )
}

/// The flag that carries the activation of a group to the native side.
pub open spec fn activation(active: bool) -> i32 {
    if active {
        1
    } else {
        0
    }
}

/// Creating a group, given what the backend answers.
pub open spec fn group_creation(
    server: usize,
    name: Seq<char>,
    active: bool,
    requested_ms: u32,
    deadband: Float64,
    reply: GroupReply,
) -> (Seq<Event>, Result<usize, ErrorView>) {
    (
        seq![
            Event::MakeGroup {
                server,
                name: wide_string(name),
                active_flag: activation(active),
                requested_ms,
                deadband,
                reply,
            },
        ],
        if reply.code == 0 && reply.handle != 0 {
            Ok(reply.handle)
        } else {
            Err(group_failure(name))
        },
    )
}

/// What the answer to the browse query amounts to.
pub open spec fn names_of(reply: NamesReply) -> Result<Seq<Seq<char>>, ErrorView> {
    if reply.code == 0 && reply.address != 0 {
        Ok(present_names(reply.names@.take(listed(reply))))
    } else {
        Err(names_failure())
    }
}

/// Browsing, given what the backend answers: the query, and the release of
/// the string array that a successful query handed over.
pub open spec fn browsing(server: usize, reply: NamesReply) -> (
    Seq<Event>,
    Result<Seq<Seq<char>>, ErrorView>,
) {
    let query = seq![Event::GetItemNames { server, reply }];
    (
        if reply.code == 0 {
            query + string_array_release(reply.address, reply.count)
        } else {
            query
        },
        names_of(reply),
    )
}

/// Releasing a server: its own handle first, then the host handle.
pub open spec fn server_release(server: ServerView) -> Seq<Event> {
    seq![Event::FreeServer { server: server.handle }, Event::FreeHost { host: server.host }]
}

/// A connected server. It is owned by one owner at a time and is released
/// once, by [`OpcServer::release`].
pub struct OpcServer {
    ptr: usize,
    host_ptr: usize,
}

impl View for OpcServer {
    type V = ServerView;

    closed spec fn view(&self) -> ServerView {
        ServerView { handle: self.ptr, host: self.host_ptr }
    }
}

impl OpcServer {
    pub(crate) fn new(server_ptr: usize, host_ptr: usize) -> (server: Self)
        ensures
            server@ == (ServerView { handle: server_ptr, host: host_ptr }),
    {
        OpcServer { ptr: server_ptr, host_ptr }
    }

    /// Reads the state code and the vendor string of the server. The vendor
    /// string of the backend is handed back once it is copied.
    pub fn get_status<B: NativeBackend>(&self, backend: &mut B) -> (r: OpcResult<(u32, String)>)
        ensures
            exists|reply: StatusReply|
                #![trigger status_query(self@.handle, reply)]
                final(backend).log() == old(backend).log() + status_query(self@.handle, reply).0
                    && outcome(r) == status_query(self@.handle, reply).1,
            B::unavailable() ==> outcome(r) == Err::<(u32, Seq<char>), ErrorView>(status_failure()),
    {
        let reply = backend.get_status(self.ptr);
        let r = status_from_reply(&reply);
        if reply.code == 0 {
            if let Some(vendor) = &reply.vendor {
                free_wide_string(backend, vendor.address);
            }
        }
        proof {
            assert(backend.log() =~= old(backend).log() + status_query(self@.handle, reply).0);
            assert(outcome(r) == status_query(self@.handle, reply).1);
        }
        r
    }

    /// Creates a group of items that share an activation flag, a requested
    /// update interval in milliseconds and a deadband.
    pub fn create_group<B: NativeBackend>(
        &self,
        backend: &mut B,
        name: &str,
        active: bool,
        requested_update_rate: u32,
        deadband: Float64,
    ) -> (r: OpcResult<OpcGroup>)
        ensures
            exists|reply: GroupReply|
                #![trigger group_creation(self@.handle, name@, active, requested_update_rate, deadband, reply)]
                final(backend).log() == old(backend).log() + group_creation(
                    self@.handle,
                    name@,
                    active,
                    requested_update_rate,
                    deadband,
                    reply,
                ).0 && outcome(r) == group_creation(
                    self@.handle,
                    name@,
                    active,
                    requested_update_rate,
                    deadband,
                    reply,
                ).1,
            B::unavailable() ==> outcome(r) == Err::<usize, ErrorView>(group_failure(name@)),
    {
        let group_name_wide = to_wide_string(name);
        let active_flag: i32 = if active {
            1
        } else {
            0
        };
        let reply = backend.make_group(
            self.ptr,
            group_name_wide.as_slice(),
            active_flag,
            requested_update_rate,
            deadband,
        );
        let r = match group_from_reply(reply, name) {
            Ok(group) => Ok(OpcGroup::new(group)),
            Err(e) => Err(e),
        };
        proof {
            let run = group_creation(
                self@.handle,
                name@,
                active,
                requested_update_rate,
                deadband,
                reply,
            );
            assert(backend.log() =~= old(backend).log() + run.0);
            assert(outcome(r) == run.1);
        }
        r
    }

    /// Lists the names of the items that the server offers. The string array
    /// of the backend is handed back once the names are copied.
    pub fn get_item_names<B: NativeBackend>(&self, backend: &mut B) -> (r: OpcResult<Vec<String>>)
        ensures
            exists|reply: NamesReply|
                #![trigger browsing(self@.handle, reply)]
                final(backend).log() == old(backend).log() + browsing(self@.handle, reply).0
                    && named(r) == browsing(self@.handle, reply).1,
            B::unavailable() ==> named(r) == Err::<Seq<Seq<char>>, ErrorView>(names_failure()),
    {
        let reply = backend.get_item_names(self.ptr);
        let r = names_from_reply(&reply);
        if reply.code == 0 && reply.address != 0 {
            free_wide_string_array(backend, reply.address, reply.count);
        }
        proof {
            assert(backend.log() =~= old(backend).log() + browsing(self@.handle, reply).0);
            assert(named(r) == browsing(self@.handle, reply).1);
        }
        r
    }

    /// The server handle, as the native side knows it.
    pub fn as_ptr(&self) -> (ptr: usize)
        ensures
            ptr == self@.handle,
    {
        self.ptr
    }

    /// Releases the server: its own handle first, then the host handle.
    pub fn release<B: NativeBackend>(self, backend: &mut B)
        ensures
            final(backend).log() == old(backend).log() + server_release(self@),
    {
        backend.free_server(self.ptr);
        backend.free_host(self.host_ptr);
        assert(backend.log() =~= old(backend).log() + server_release(self@));
    }
}

} // verus!
