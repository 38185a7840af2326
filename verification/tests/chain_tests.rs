use opc_da_client::backend::{
    EncodedPayload, EncodedValue, GroupReply, HandleReply, NamesReply, NativeBackend, ReadReply,
    StatusReply, StubBackend,
};
use opc_da_client::client::{check_host, check_init, check_server};
use opc_da_client::error::OpcError;
use opc_da_client::group::{
    decode_notification, item_from_reply, opc_data_change_callback, refresh_outcome,
    subscription_outcome,
};
use opc_da_client::item::{read_async_outcome, sync_release, value_from_reply, write_outcome};
use opc_da_client::memory::{AnsiText, ArrayData, RawValue, Release, SafeArrayImage, WideText};
use opc_da_client::server::{group_from_reply, names_from_reply, status_from_reply};
use opc_da_client::types::{
    Float64, OpcCallbackContainer, OpcDataCallback, OpcQuality, OpcValue, OpcValueError, VT_ARRAY,
    VT_BSTR, VT_BYREF, VT_I4, VT_LPSTR, VT_LPWSTR, VT_R8,
};
use opc_da_client::utils::{free_wide_string, free_wide_string_array};
use opc_da_client::{connect_to_server, connect_to_server_on_host, OpcClient, OpcItem};
use std::sync::{Arc, Mutex};

fn wide(address: usize, text: &str) -> WideText {
    let mut units: Vec<u16> = text.encode_utf16().collect();
    units.push(0);
    WideText { address, units }
}

fn narrow(units: &[u16]) -> String {
    String::from_utf16_lossy(&units[..units.len() - 1])
}

struct Change {
    group: Option<WideText>,
    item: Option<WideText>,
    value: RawValue,
    quality: i32,
    tag: u32,
    timestamp: u64,
}

fn no_change() -> Vec<Change> {
    Vec::new()
}

fn no_value() -> ReadReply {
    ReadReply { code: 0, value: RawValue::Null, quality: 0, type_tag: VT_BSTR, timestamp_ms: 0 }
}

/// A backend that answers from a script and keeps a log of every call.
struct Scripted {
    log: Vec<String>,
    init_code: u32,
    host: HandleReply,
    server: HandleReply,
    group: GroupReply,
    item: HandleReply,
    status: StatusReply,
    names: NamesReply,
    read: fn() -> ReadReply,
    write_code: u32,
    read_async_code: u32,
    enable_code: u32,
    refresh_code: u32,
    changes: fn() -> Vec<Change>,
    pinned: Vec<Option<Box<dyn Fn(&mut Scripted, &Change)>>>,
    enabled: Vec<usize>,
}

impl Scripted {
    fn new() -> Self {
        Scripted {
            log: Vec::new(),
            init_code: 0,
            host: HandleReply { code: 0, handle: 0x100 },
            server: HandleReply { code: 0, handle: 0x200 },
            group: GroupReply { code: 0, actual_ms: 250, handle: 0x300 },
            item: HandleReply { code: 0, handle: 0x400 },
            status: StatusReply { code: 0, state: 1, vendor: Some(wide(0x500, "Acme")) },
            names: NamesReply {
                code: 0,
                address: 0x600,
                count: 3,
                names: vec![Some(wide(0x601, "X.Y")), None, Some(wide(0x603, "X.Z"))],
            },
            read: no_value,
            write_code: 0,
            read_async_code: 0,
            enable_code: 0,
            refresh_code: 0,
            changes: no_change,
            pinned: Vec::new(),
            enabled: Vec::new(),
        }
    }

    fn note(&mut self, line: String) {
        self.log.push(line);
    }

    fn log(&self) -> Vec<String> {
        self.log.clone()
    }

    fn count(&self, prefix: &str) -> usize {
        self.log.iter().filter(|l| l.starts_with(prefix)).count()
    }
}

impl NativeBackend for Scripted {
    fn init(&mut self) -> u32 {
        self.note("init".to_string());
        self.init_code
    }

    fn stop(&mut self) {
        self.note("stop".to_string());
    }

    fn make_host(&mut self, wide_name: &[u16]) -> HandleReply {
        self.note(format!("make_host {}", narrow(wide_name)));
        self.host
    }

    fn free_host(&mut self, host: usize) {
        self.note(format!("free_host {:#x}", host));
    }

    fn connect_server(&mut self, host: usize, wide_name: &[u16]) -> HandleReply {
        self.note(format!("connect_server {:#x} {}", host, narrow(wide_name)));
        self.server
    }

    fn free_server(&mut self, server: usize) {
        self.note(format!("free_server {:#x}", server));
    }

    fn get_status(&mut self, server: usize) -> StatusReply {
        self.note(format!("get_status {:#x}", server));
        self.status.clone()
    }

    fn make_group(
        &mut self,
        server: usize,
        wide_name: &[u16],
        active_flag: i32,
        requested_ms: u32,
        deadband: Float64,
    ) -> GroupReply {
        self.note(format!(
            "make_group {:#x} {} {} {} {}",
            server,
            narrow(wide_name),
            active_flag,
            requested_ms,
            f64::from_bits(deadband.to_bits())
        ));
        self.group
    }

    fn free_group(&mut self, group: usize) {
        self.note(format!("free_group {:#x}", group));
    }

    fn add_item(&mut self, group: usize, wide_name: &[u16]) -> HandleReply {
        self.note(format!("add_item {:#x} {}", group, narrow(wide_name)));
        self.item
    }

    fn free_item(&mut self, item: usize) {
        self.note(format!("free_item {:#x}", item));
    }

    fn read_sync(&mut self, item: usize) -> ReadReply {
        self.note(format!("read_sync {:#x}", item));
        (self.read)()
    }

    fn write_sync(&mut self, item: usize, value: &EncodedValue) -> u32 {
        self.note(format!("write_sync {:#x} {:?}", item, value));
        self.write_code
    }

    fn read_async(&mut self, item: usize) -> u32 {
        self.note(format!("read_async {:#x}", item));
        self.read_async_code
    }

    fn write_async(&mut self, item: usize, value: &EncodedValue) -> u32 {
        self.note(format!("write_async {:#x} {:?}", item, value));
        self.write_code
    }

    fn group_refresh(&mut self, group: usize) -> u32 {
        self.note(format!("group_refresh {:#x}", group));
        if self.refresh_code == 0 {
            let pinned = std::mem::take(&mut self.pinned);
            for user_data in self.enabled.clone() {
                if let Some(observer) = &pinned[user_data - 1] {
                    for change in (self.changes)() {
                        observer(self, &change);
                    }
                }
            }
            self.pinned = pinned;
        }
        self.refresh_code
    }

    fn pin_observer<C: OpcDataCallback + ?Sized + 'static>(
        &mut self,
        container: OpcCallbackContainer<C>,
    ) -> usize {
        let observer = move |backend: &mut Scripted, change: &Change| {
            opc_data_change_callback(
                backend,
                Some(&container),
                &change.group,
                &change.item,
                &change.value,
                change.quality,
                change.tag,
                change.timestamp,
            )
        };
        self.pinned.push(Some(Box::new(observer)));
        let user_data = self.pinned.len();
        self.note(format!("pin_observer {}", user_data));
        user_data
    }

    fn unpin_observer(&mut self, user_data: usize) {
        self.note(format!("unpin_observer {}", user_data));
        self.pinned[user_data - 1] = None;
    }

    fn enable_async(&mut self, group: usize, user_data: usize) -> u32 {
        self.note(format!("enable_async {:#x} {}", group, user_data));
        if self.enable_code == 0 {
            self.enabled.push(user_data);
        }
        self.enable_code
    }

    fn get_item_names(&mut self, server: usize) -> NamesReply {
        self.note(format!("get_item_names {:#x}", server));
        self.names.clone()
    }

    fn free_string_array(&mut self, address: usize, count: u32) {
        self.note(format!("free_string_array {:#x} {}", address, count));
    }

    fn free_wide_string(&mut self, address: usize) {
        self.note(format!("free_wide_string {:#x}", address));
    }

    fn free_ansi_string(&mut self, address: usize) {
        self.note(format!("free_ansi_string {:#x}", address));
    }
}

struct Recorder {
    calls: Mutex<Vec<(String, String, OpcValue, OpcQuality, u64)>>,
}

impl Recorder {
    fn new() -> Self {
        Recorder { calls: Mutex::new(Vec::new()) }
    }

    fn calls(&self) -> Vec<(String, String, OpcValue, OpcQuality, u64)> {
        self.calls.lock().unwrap().clone()
    }
}

impl OpcDataCallback for Recorder {
    fn on_data_change(
        &self,
        group_name: &str,
        item_name: &str,
        value: OpcValue,
        quality: OpcQuality,
        timestamp: u64,
    ) {
        self.calls.lock().unwrap().push((
            group_name.to_string(),
            item_name.to_string(),
            value,
            quality,
            timestamp,
        ));
    }
}

fn failed<T>(r: Result<T, OpcError>) -> OpcError {
    match r {
        Ok(_) => panic!("expected an error"),
        Err(e) => e,
    }
}

#[test]
fn test_client_initialization() {
    let _client = OpcClient::new(&mut StubBackend::new());
}

#[test]
fn test_connect_to_server() {
    let mut backend = Scripted::new();
    let client = OpcClient::new(&mut backend).unwrap();
    let _result = client.connect_to_local_server(&mut backend, "Matrikon.OPC.Simulation.1");
    assert_eq!(
        backend.log(),
        vec!["init", "make_host localhost", "connect_server 0x100 Matrikon.OPC.Simulation.1"]
    );
}

fn double_reading() -> ReadReply {
    ReadReply {
        code: 0,
        value: RawValue::Bytes(21.5f64.to_le_bytes().to_vec()),
        quality: 192,
        type_tag: VT_R8,
        timestamp_ms: 1_700_000_000_123,
    }
}

#[test]
fn open_connect_group_item_read() {
    let mut backend = Scripted::new();
    backend.read = double_reading;
    {
        let client = OpcClient::new(&mut backend).unwrap();
        assert!(client.is_initialized());
        let server = client.connect_to_local_server(&mut backend, "Sim.Server").unwrap();
        let group = server.create_group(&mut backend, "G1", true, 1000, Float64::from_bits(0.0f64.to_bits())).unwrap();
        let item = group.add_item(&mut backend, "X.Y").unwrap();
        assert_eq!((server.as_ptr(), group.as_ptr(), item.as_ptr()), (0x200, 0x300, 0x400));
        let (value, quality, timestamp) = item.read_sync(&mut backend).unwrap();
        assert_eq!(value, OpcValue::Double(Float64::from_bits(21.5f64.to_bits())));
        assert_eq!(quality, OpcQuality::Good);
        assert_eq!(timestamp, 1_700_000_000_123);
        assert_eq!(OpcQuality::from_raw(quality.to_raw()), quality);
        item.release(&mut backend);
        group.release(&mut backend);
        server.release(&mut backend);
        client.close(&mut backend);
    }
    assert_eq!(
        backend.log(),
        vec![
            "init",
            "make_host localhost",
            "connect_server 0x100 Sim.Server",
            "make_group 0x200 G1 1 1000 0",
            "add_item 0x300 X.Y",
            "read_sync 0x400",
            "free_item 0x400",
            "free_group 0x300",
            "free_server 0x200",
            "free_host 0x100",
            "stop",
        ]
    );
}

#[test]
fn group_read_and_write_go_to_the_item() {
    let mut backend = Scripted::new();
    backend.read = double_reading;
    let client = OpcClient::new(&mut backend).unwrap();
    let server = client.connect_to_server(&mut backend, "plant7", "Sim.Server").unwrap();
    let group = server.create_group(&mut backend, "G", false, 0, Float64::from_bits(1.5f64.to_bits())).unwrap();
    let item = group.add_item(&mut backend, "A").unwrap();
    assert_eq!(
        group.read_sync(&mut backend, &item),
        Ok((OpcValue::Double(Float64::from_bits(21.5f64.to_bits())), OpcQuality::Good, 1_700_000_000_123))
    );
    assert_eq!(group.write_sync(&mut backend, &item, &OpcValue::Int16(7)), Ok(()));
    assert_eq!(
        backend.log()[3..].to_vec(),
        vec![
            "make_group 0x200 G 0 0 1.5".to_string(),
            "add_item 0x300 A".to_string(),
            "read_sync 0x400".to_string(),
            format!(
                "write_sync 0x400 {:?}",
                EncodedValue { type_tag: 2, payload: EncodedPayload::Bytes(vec![7, 0]) }
            ),
        ]
    );
}

#[test]
fn unknown_host_fails_without_a_host_handle_to_release() {
    let mut backend = Scripted::new();
    backend.host = HandleReply { code: 0x800706ba, handle: 0 };
    let client = OpcClient::new(&mut backend).unwrap();
    let e = failed(client.connect_to_server(&mut backend, "no-such-host", "Sim.Server"));
    assert_eq!(e, OpcError::ConnectionFailed("Failed to connect to host 'no-such-host'".to_string()));
    client.close(&mut backend);
    assert_eq!(backend.log(), vec!["init", "make_host no-such-host", "stop"]);
    assert_eq!(backend.count("free_host"), 0);
    assert_eq!(backend.count("connect_server"), 0);
}

#[test]
fn a_null_host_handle_is_a_failure_whatever_the_code() {
    let mut backend = Scripted::new();
    backend.host = HandleReply { code: 0, handle: 0 };
    let client = OpcClient::new(&mut backend).unwrap();
    let e = failed(client.connect_to_server(&mut backend, "h", "s"));
    assert_eq!(e, OpcError::ConnectionFailed("Failed to connect to host 'h'".to_string()));
    assert_eq!(backend.count("free_host"), 0);
}

#[test]
fn unreachable_server_releases_the_host_handle_once() {
    let mut backend = Scripted::new();
    backend.server = HandleReply { code: 5, handle: 0 };
    let client = OpcClient::new(&mut backend).unwrap();
    let e = failed(client.connect_to_server(&mut backend, "plant7", "Sim.Server"));
    assert_eq!(
        e,
        OpcError::ConnectionFailed(
            "Failed to connect to server 'Sim.Server' on host 'plant7'".to_string()
        )
    );
    assert_eq!(
        backend.log(),
        vec!["init", "make_host plant7", "connect_server 0x100 Sim.Server", "free_host 0x100"]
    );
}

#[test]
fn refused_initialisation_reports_the_code() {
    let mut backend = Scripted::new();
    backend.init_code = 0x80004005;
    let e = failed(OpcClient::new(&mut backend));
    assert_eq!(
        e,
        OpcError::ComInitializationFailed(
            "Failed to initialize OPC client with error code: 2147500037".to_string()
        )
    );
    assert_eq!(backend.log(), vec!["init"]);
}

#[test]
fn convenience_connection_keeps_the_client_with_the_server() {
    let mut backend = Scripted::new();
    let (client, server) = connect_to_server(&mut backend, "Sim.Server").unwrap();
    assert!(client.is_initialized());
    server.release(&mut backend);
    client.close(&mut backend);
    assert_eq!(
        backend.log(),
        vec![
            "init",
            "make_host localhost",
            "connect_server 0x100 Sim.Server",
            "free_server 0x200",
            "free_host 0x100",
            "stop",
        ]
    );
}

#[test]
fn convenience_connection_closes_the_client_on_failure() {
    let mut backend = Scripted::new();
    backend.host = HandleReply { code: 1, handle: 0 };
    let e = failed(connect_to_server_on_host(&mut backend, "nowhere", "Sim.Server"));
    assert_eq!(e, OpcError::ConnectionFailed("Failed to connect to host 'nowhere'".to_string()));
    assert_eq!(backend.log(), vec!["init", "make_host nowhere", "stop"]);
}

#[test]
fn without_a_backend_every_operation_fails() {
    let mut backend = StubBackend::new();
    assert_eq!(
        failed(OpcClient::new(&mut backend)),
        OpcError::ComInitializationFailed(
            "Failed to initialize OPC client with error code: 1".to_string()
        )
    );
    assert!(connect_to_server(&mut backend, "Sim.Server").is_err());
    assert!(connect_to_server_on_host(&mut backend, "h", "Sim.Server").is_err());
    assert_ne!(backend.init(), 0);
    assert_ne!(backend.make_host(&[0]).code, 0);
    assert_ne!(backend.connect_server(1, &[0]).code, 0);
    assert_ne!(backend.get_status(1).code, 0);
    assert_ne!(backend.make_group(1, &[0], 1, 100, Float64::from_bits(0)).code, 0);
    assert_ne!(backend.add_item(1, &[0]).code, 0);
    assert_ne!(backend.read_sync(1).code, 0);
    assert_ne!(backend.read_async(1), 0);
    assert_ne!(backend.group_refresh(1), 0);
    assert_ne!(backend.enable_async(1, 1), 0);
    assert_ne!(backend.get_item_names(1).code, 0);
    let value = EncodedValue { type_tag: 2, payload: EncodedPayload::Bytes(vec![1, 0]) };
    assert_ne!(backend.write_sync(1, &value), 0);
    assert_ne!(backend.write_async(1, &value), 0);
    assert_eq!(subscription_outcome(backend.enable_async(1, 1)), Err(OpcError::AsyncSubscriptionFailed(
        "Failed to enable async subscription".to_string()
    )));
    assert_eq!(
        refresh_outcome(backend.group_refresh(1)),
        Err(OpcError::OperationFailed("Failed to refresh group".to_string()))
    );
}

fn string_reading() -> ReadReply {
    ReadReply {
        code: 0,
        value: RawValue::Wide(wide(0x700, "running")),
        quality: 64,
        type_tag: VT_BSTR,
        timestamp_ms: 9,
    }
}

fn ansi_reading() -> ReadReply {
    ReadReply {
        code: 0,
        value: RawValue::Ansi(AnsiText { address: 0x701, bytes: vec![b'o', b'n', 0] }),
        quality: 0,
        type_tag: VT_LPSTR,
        timestamp_ms: 10,
    }
}

fn unknown_reading() -> ReadReply {
    ReadReply {
        code: 0,
        value: RawValue::Wide(wide(0x702, "x")),
        quality: 192,
        type_tag: 9,
        timestamp_ms: 11,
    }
}

fn failed_reading() -> ReadReply {
    ReadReply {
        code: 3,
        value: RawValue::Wide(wide(0x703, "x")),
        quality: 192,
        type_tag: VT_BSTR,
        timestamp_ms: 12,
    }
}

fn item_of(backend: &mut Scripted) -> OpcItem {
    let client = OpcClient::new(backend).unwrap();
    let server = client.connect_to_local_server(backend, "Sim.Server").unwrap();
    let group = server.create_group(backend, "G", true, 100, Float64::from_bits(0)).unwrap();
    let item = group.add_item(backend, "X.Y").unwrap();
    backend.log.clear();
    item
}

#[test]
fn a_string_read_hands_the_string_back() {
    let mut backend = Scripted::new();
    backend.read = string_reading;
    let item = item_of(&mut backend);
    assert_eq!(
        item.read_sync(&mut backend),
        Ok((OpcValue::String("running".to_string()), OpcQuality::Uncertain, 9))
    );
    assert_eq!(backend.log(), vec!["read_sync 0x400", "free_wide_string 0x700"]);

    let mut backend = Scripted::new();
    backend.read = ansi_reading;
    let item = item_of(&mut backend);
    assert_eq!(item.read_sync(&mut backend), Ok((OpcValue::String("on".to_string()), OpcQuality::Bad, 10)));
    assert_eq!(backend.log(), vec!["read_sync 0x400", "free_ansi_string 0x701"]);
}

#[test]
fn a_failed_read_is_reported_and_frees_nothing() {
    let mut backend = Scripted::new();
    backend.read = unknown_reading;
    let item = item_of(&mut backend);
    assert_eq!(
        item.read_sync(&mut backend),
        Err(OpcError::ValueConversionError(OpcValueError::InvalidValueType(9)))
    );
    assert_eq!(backend.log(), vec!["read_sync 0x400"]);

    let mut backend = Scripted::new();
    backend.read = failed_reading;
    let item = item_of(&mut backend);
    assert_eq!(
        item.read_sync(&mut backend),
        Err(OpcError::OperationFailed("Failed to read item synchronously".to_string()))
    );
    assert_eq!(backend.log(), vec!["read_sync 0x400"]);
}

#[test]
fn value_from_reply_on_each_outcome() {
    assert_eq!(
        value_from_reply(&double_reading()),
        Ok((OpcValue::Double(Float64::from_bits(21.5f64.to_bits())), OpcQuality::Good, 1_700_000_000_123))
    );
    assert_eq!(
        value_from_reply(&failed_reading()),
        Err(OpcError::OperationFailed("Failed to read item synchronously".to_string()))
    );
    assert_eq!(
        value_from_reply(&ReadReply {
            code: 0,
            value: RawValue::Null,
            quality: 192,
            type_tag: VT_I4,
            timestamp_ms: 0,
        }),
        Err(OpcError::ValueConversionError(OpcValueError::ConversionError(
            "Null pointer for Int32".to_string()
        )))
    );
}

#[test]
fn sync_release_only_for_exact_string_tags() {
    let text = RawValue::Wide(wide(0x10, "a"));
    assert_eq!(sync_release(&text, VT_BSTR), Some(Release::WideString(0x10)));
    assert_eq!(sync_release(&text, VT_LPWSTR), Some(Release::WideString(0x10)));
    assert_eq!(sync_release(&text, VT_LPSTR), None);
    assert_eq!(sync_release(&text, VT_I4), None);
    assert_eq!(sync_release(&text, VT_BYREF | VT_BSTR), None);
    assert_eq!(sync_release(&RawValue::Wide(wide(0, "a")), VT_BSTR), None);
    assert_eq!(sync_release(&RawValue::Null, VT_BSTR), None);
    let ansi = RawValue::Ansi(AnsiText { address: 0x20, bytes: vec![0] });
    assert_eq!(sync_release(&ansi, VT_LPSTR), Some(Release::AnsiString(0x20)));
    assert_eq!(sync_release(&ansi, VT_BSTR), None);
}

#[test]
fn free_allocated_string_memory_calls_the_matching_entry_point() {
    let mut backend = Scripted::new();
    OpcItem::free_allocated_string_memory(&mut backend, &RawValue::Wide(wide(0x10, "a")), VT_BSTR);
    OpcItem::free_allocated_string_memory(
        &mut backend,
        &RawValue::Ansi(AnsiText { address: 0x20, bytes: vec![0] }),
        VT_LPSTR,
    );
    OpcItem::free_allocated_string_memory(&mut backend, &RawValue::Null, VT_BSTR);
    OpcItem::free_allocated_string_memory(&mut backend, &RawValue::Bytes(vec![0; 4]), VT_I4);
    assert_eq!(backend.log(), vec!["free_wide_string 0x10", "free_ansi_string 0x20"]);
}

#[test]
fn writes_are_encoded_before_they_are_sent() {
    let mut backend = Scripted::new();
    let item = item_of(&mut backend);
    assert_eq!(item.write_sync(&mut backend, &OpcValue::Int32(-2)), Ok(()));
    assert_eq!(item.write_async(&mut backend, &OpcValue::String("go".to_string())), Ok(()));
    assert_eq!(item.read_async(&mut backend), Ok(()));
    assert_eq!(
        backend.log(),
        vec![
            format!(
                "write_sync 0x400 {:?}",
                EncodedValue {
                    type_tag: 3,
                    payload: EncodedPayload::Bytes(vec![0xfe, 0xff, 0xff, 0xff]),
                }
            ),
            format!(
                "write_async 0x400 {:?}",
                EncodedValue { type_tag: 8, payload: EncodedPayload::Text(vec![103, 111, 0]) }
            ),
            "read_async 0x400".to_string(),
        ]
    );
}

#[test]
fn refused_writes_reach_no_entry_point() {
    let mut backend = Scripted::new();
    let item = item_of(&mut backend);
    assert_eq!(
        item.write_sync(&mut backend, &OpcValue::Decimal("1".to_string())),
        Err(OpcError::OperationFailed("Decimal writes not implemented".to_string()))
    );
    assert_eq!(
        item.write_async(&mut backend, &OpcValue::ArrayBool(vec![true])),
        Err(OpcError::OperationFailed("Array writes not implemented".to_string()))
    );
    assert!(backend.log().is_empty());
}

#[test]
fn failed_writes_and_reads_name_the_operation() {
    let mut backend = Scripted::new();
    backend.write_code = 7;
    backend.read_async_code = 7;
    let item = item_of(&mut backend);
    assert_eq!(
        item.write_sync(&mut backend, &OpcValue::Bool(true)),
        Err(OpcError::OperationFailed("Failed to write item synchronously".to_string()))
    );
    assert_eq!(
        item.write_async(&mut backend, &OpcValue::Bool(true)),
        Err(OpcError::OperationFailed("Failed to write item asynchronously".to_string()))
    );
    assert_eq!(
        item.read_async(&mut backend),
        Err(OpcError::OperationFailed("Failed to read item asynchronously".to_string()))
    );
    assert_eq!(write_outcome(0, true), Ok(()));
    assert_eq!(write_outcome(0, false), Ok(()));
    assert_eq!(read_async_outcome(0), Ok(()));
}

#[test]
fn status_copies_the_vendor_and_hands_it_back() {
    let mut backend = Scripted::new();
    let client = OpcClient::new(&mut backend).unwrap();
    let server = client.connect_to_local_server(&mut backend, "Sim.Server").unwrap();
    backend.log.clear();
    assert_eq!(server.get_status(&mut backend), Ok((1, "Acme".to_string())));
    assert_eq!(backend.log(), vec!["get_status 0x200", "free_wide_string 0x500"]);
}

#[test]
fn status_outcomes() {
    assert_eq!(
        status_from_reply(&StatusReply { code: 0, state: 4, vendor: None }),
        Ok((4, String::new()))
    );
    assert_eq!(
        status_from_reply(&StatusReply { code: 2, state: 4, vendor: Some(wide(1, "Acme")) }),
        Err(OpcError::OperationFailed("Failed to get server status".to_string()))
    );
    let mut backend = Scripted::new();
    backend.status = StatusReply { code: 2, state: 0, vendor: Some(wide(0x500, "Acme")) };
    let client = OpcClient::new(&mut backend).unwrap();
    let server = client.connect_to_local_server(&mut backend, "Sim.Server").unwrap();
    assert!(server.get_status(&mut backend).is_err());
    assert_eq!(backend.count("free_wide_string"), 0);
}

#[test]
fn item_names_skip_null_entries_and_release_the_array() {
    let mut backend = Scripted::new();
    let client = OpcClient::new(&mut backend).unwrap();
    let server = client.connect_to_local_server(&mut backend, "Sim.Server").unwrap();
    backend.log.clear();
    assert_eq!(server.get_item_names(&mut backend), Ok(vec!["X.Y".to_string(), "X.Z".to_string()]));
    assert_eq!(backend.log(), vec!["get_item_names 0x200", "free_string_array 0x600 3"]);
}

#[test]
fn item_names_outcomes() {
    let names = vec![Some(wide(1, "a")), Some(wide(2, "b")), Some(wide(3, "c"))];
    assert_eq!(
        names_from_reply(&NamesReply { code: 0, address: 9, count: 2, names: names.clone() }),
        Ok(vec!["a".to_string(), "b".to_string()])
    );
    assert_eq!(
        names_from_reply(&NamesReply { code: 0, address: 9, count: 5, names: names.clone() }),
        Ok(vec!["a".to_string(), "b".to_string(), "c".to_string()])
    );
    assert_eq!(
        names_from_reply(&NamesReply { code: 0, address: 9, count: 0, names: vec![] }),
        Ok(vec![])
    );
    assert_eq!(
        names_from_reply(&NamesReply { code: 0, address: 0, count: 3, names: names.clone() }),
        Err(OpcError::OperationFailed("Failed to get item names".to_string()))
    );
    assert_eq!(
        names_from_reply(&NamesReply { code: 1, address: 9, count: 3, names }),
        Err(OpcError::OperationFailed("Failed to get item names".to_string()))
    );
}

#[test]
fn release_helpers_skip_null_addresses() {
    let mut backend = Scripted::new();
    free_wide_string(&mut backend, 0);
    free_wide_string_array(&mut backend, 0, 3);
    free_wide_string_array(&mut backend, 8, 0);
    assert!(backend.log().is_empty());
    free_wide_string(&mut backend, 8);
    free_wide_string_array(&mut backend, 8, 3);
    assert_eq!(backend.log(), vec!["free_wide_string 0x8", "free_string_array 0x8 3"]);
}

#[test]
fn handle_outcomes() {
    assert_eq!(check_init(0), Ok(()));
    assert_eq!(check_host(HandleReply { code: 0, handle: 5 }, "h"), Ok(5));
    assert_eq!(
        check_host(HandleReply { code: 1, handle: 5 }, "h"),
        Err(OpcError::ConnectionFailed("Failed to connect to host 'h'".to_string()))
    );
    assert_eq!(check_server(HandleReply { code: 0, handle: 6 }, "h", "s"), Ok(6));
    assert_eq!(
        check_server(HandleReply { code: 0, handle: 0 }, "h", "s"),
        Err(OpcError::ConnectionFailed("Failed to connect to server 's' on host 'h'".to_string()))
    );
    assert_eq!(group_from_reply(GroupReply { code: 0, actual_ms: 1, handle: 7 }, "g"), Ok(7));
    assert_eq!(
        group_from_reply(GroupReply { code: 1, actual_ms: 1, handle: 7 }, "g"),
        Err(OpcError::GroupCreationFailed("Failed to create group 'g'".to_string()))
    );
    assert_eq!(
        group_from_reply(GroupReply { code: 0, actual_ms: 1, handle: 0 }, "g"),
        Err(OpcError::GroupCreationFailed("Failed to create group 'g'".to_string()))
    );
    assert_eq!(item_from_reply(HandleReply { code: 0, handle: 8 }, "X.Y"), Ok(8));
    assert_eq!(
        item_from_reply(HandleReply { code: 0, handle: 0 }, "X.Y"),
        Err(OpcError::ItemNotFound("Failed to add item 'X.Y' to group".to_string()))
    );
    assert_eq!(subscription_outcome(0), Ok(()));
    assert_eq!(refresh_outcome(0), Ok(()));
}

#[test]
fn failed_group_and_item_leave_nothing_to_release() {
    let mut backend = Scripted::new();
    backend.group = GroupReply { code: 1, actual_ms: 0, handle: 0 };
    let client = OpcClient::new(&mut backend).unwrap();
    let server = client.connect_to_local_server(&mut backend, "Sim.Server").unwrap();
    assert_eq!(
        failed(server.create_group(&mut backend, "G", true, 100, Float64::from_bits(0))),
        OpcError::GroupCreationFailed("Failed to create group 'G'".to_string())
    );
    assert_eq!(backend.count("free_"), 0);

    let mut backend = Scripted::new();
    backend.item = HandleReply { code: 0, handle: 0 };
    let client = OpcClient::new(&mut backend).unwrap();
    let server = client.connect_to_local_server(&mut backend, "Sim.Server").unwrap();
    let group = server.create_group(&mut backend, "G", true, 100, Float64::from_bits(0)).unwrap();
    assert_eq!(
        failed(group.add_item(&mut backend, "No.Such")),
        OpcError::ItemNotFound("Failed to add item 'No.Such' to group".to_string())
    );
    assert_eq!(backend.count("free_"), 0);
}

fn two_changes() -> Vec<Change> {
    vec![
        Change {
            group: Some(wide(0x10, "G1")),
            item: Some(wide(0x11, "X.Y")),
            value: RawValue::Bytes(42i32.to_le_bytes().to_vec()),
            quality: 192,
            tag: VT_I4,
            timestamp: 1000,
        },
        Change {
            group: Some(wide(0x10, "G1")),
            item: None,
            value: RawValue::Wide(wide(0x12, "text")),
            quality: 0,
            tag: VT_BSTR,
            timestamp: 1001,
        },
    ]
}

#[test]
fn subscription_then_refresh_reaches_the_observer() {
    let mut backend = Scripted::new();
    backend.changes = two_changes;
    let client = OpcClient::new(&mut backend).unwrap();
    let server = client.connect_to_local_server(&mut backend, "Sim.Server").unwrap();
    let group = server.create_group(&mut backend, "G1", true, 100, Float64::from_bits(0)).unwrap();
    let _item = group.add_item(&mut backend, "X.Y").unwrap();
    backend.log.clear();

    let recorder = Arc::new(Recorder::new());
    assert_eq!(group.enable_async_subscription(&mut backend, recorder.clone()), Ok(()));
    assert!(recorder.calls().is_empty());
    assert_eq!(group.refresh(&mut backend), Ok(()));
    assert_eq!(
        recorder.calls(),
        vec![
            ("G1".to_string(), "X.Y".to_string(), OpcValue::Int32(42), OpcQuality::Good, 1000),
            (
                "G1".to_string(),
                String::new(),
                OpcValue::String("text".to_string()),
                OpcQuality::Bad,
                1001
            ),
        ]
    );
    assert_eq!(
        backend.log(),
        vec![
            "pin_observer 1",
            "enable_async 0x300 1",
            "group_refresh 0x300",
            "free_wide_string 0x12",
        ]
    );
}

#[test]
fn subscription_accepts_a_shared_trait_object() {
    let mut backend = Scripted::new();
    backend.changes = two_changes;
    let client = OpcClient::new(&mut backend).unwrap();
    let server = client.connect_to_local_server(&mut backend, "Sim.Server").unwrap();
    let group = server.create_group(&mut backend, "G1", true, 100, Float64::from_bits(0)).unwrap();
    let recorder = Arc::new(Recorder::new());
    let shared: Arc<dyn OpcDataCallback> = recorder.clone();
    assert_eq!(group.enable_async_subscription(&mut backend, shared), Ok(()));
    assert_eq!(group.refresh(&mut backend), Ok(()));
    assert_eq!(recorder.calls().len(), 2);
}

#[test]
fn refused_subscription_takes_the_container_back() {
    let mut backend = Scripted::new();
    backend.enable_code = 1;
    backend.changes = two_changes;
    let client = OpcClient::new(&mut backend).unwrap();
    let server = client.connect_to_local_server(&mut backend, "Sim.Server").unwrap();
    let group = server.create_group(&mut backend, "G1", true, 100, Float64::from_bits(0)).unwrap();
    backend.log.clear();

    let recorder = Arc::new(Recorder::new());
    assert_eq!(
        group.enable_async_subscription(&mut backend, recorder.clone()),
        Err(OpcError::AsyncSubscriptionFailed("Failed to enable async subscription".to_string()))
    );
    assert_eq!(backend.log(), vec!["pin_observer 1", "enable_async 0x300 1", "unpin_observer 1"]);
    assert_eq!(Arc::strong_count(&recorder), 1);
    assert_eq!(group.refresh(&mut backend), Ok(()));
    assert!(recorder.calls().is_empty());
}

#[test]
fn refused_refresh_is_an_operation_failure() {
    let mut backend = Scripted::new();
    backend.refresh_code = 1;
    backend.changes = two_changes;
    let client = OpcClient::new(&mut backend).unwrap();
    let server = client.connect_to_local_server(&mut backend, "Sim.Server").unwrap();
    let group = server.create_group(&mut backend, "G1", true, 100, Float64::from_bits(0)).unwrap();
    let recorder = Arc::new(Recorder::new());
    assert_eq!(group.enable_async_subscription(&mut backend, recorder.clone()), Ok(()));
    assert_eq!(
        group.refresh(&mut backend),
        Err(OpcError::OperationFailed("Failed to refresh group".to_string()))
    );
    assert!(recorder.calls().is_empty());
}

#[test]
fn an_undecodable_notification_carries_the_fallback() {
    let mut backend = Scripted::new();
    let n = decode_notification(
        &mut backend,
        &Some(wide(1, "G")),
        &Some(wide(2, "I")),
        &RawValue::Wide(wide(3, "x")),
        64,
        9,
        77,
    );
    assert_eq!(n.group_name, "G");
    assert_eq!(n.item_name, "I");
    assert_eq!(n.value, OpcValue::Int32(0));
    assert_eq!(n.quality, OpcQuality::Uncertain);
    assert_eq!(n.timestamp, 77);
    assert!(backend.log().is_empty());

    let n = decode_notification(&mut backend, &None, &None, &RawValue::Null, 192, VT_I4, 78);
    assert_eq!(n.group_name, "");
    assert_eq!(n.item_name, "");
    assert_eq!(n.value, OpcValue::Int32(0));
    assert_eq!(n.quality, OpcQuality::Good);
}

#[test]
fn a_notification_hands_back_every_string_it_copied() {
    let mut backend = Scripted::new();
    let array = RawValue::Array(SafeArrayImage {
        dims: 1,
        lower_bound: Some(0),
        upper_bound: Some(2),
        data: ArrayData::Texts(vec![Some(wide(0x31, "a")), None, Some(wide(0x33, "c"))]),
    });
    let n = decode_notification(&mut backend, &None, &None, &array, 192, VT_ARRAY | VT_BSTR, 0);
    assert_eq!(
        n.value,
        OpcValue::ArrayString(vec!["a".to_string(), String::new(), "c".to_string()])
    );
    assert_eq!(backend.log(), vec!["free_wide_string 0x31", "free_wide_string 0x33"]);

    let mut backend = Scripted::new();
    let by_ref = RawValue::Pointer(Box::new(RawValue::Ansi(AnsiText {
        address: 0x41,
        bytes: vec![b'z', 0],
    })));
    let n = decode_notification(&mut backend, &None, &None, &by_ref, 192, VT_BYREF | VT_LPSTR, 0);
    assert_eq!(n.value, OpcValue::String("z".to_string()));
    assert_eq!(backend.log(), vec!["free_ansi_string 0x41"]);

    let mut backend = Scripted::new();
    let text = RawValue::Wide(wide(0x51, "w"));
    let kept = OpcValue::from_raw(&mut backend, &text, VT_LPWSTR, false);
    assert_eq!(kept, Ok(OpcValue::String("w".to_string())));
    assert!(backend.log().is_empty());
    let freed = OpcValue::from_raw(&mut backend, &text, VT_LPWSTR, true);
    assert_eq!(freed, Ok(OpcValue::String("w".to_string())));
    assert_eq!(backend.log(), vec!["free_wide_string 0x51"]);
}

#[test]
fn the_entry_point_without_a_container_does_nothing() {
    let mut backend = Scripted::new();
    let none: Option<&OpcCallbackContainer<Recorder>> = None;
    opc_data_change_callback(
        &mut backend,
        none,
        &Some(wide(1, "G")),
        &Some(wide(2, "I")),
        &RawValue::Wide(wide(3, "x")),
        192,
        VT_BSTR,
        5,
    );
    assert!(backend.log().is_empty());
}

#[test]
fn the_entry_point_calls_the_observer_once() {
    let mut backend = Scripted::new();
    let recorder = Arc::new(Recorder::new());
    let container = OpcCallbackContainer { callback: recorder.clone() };
    opc_data_change_callback(
        &mut backend,
        Some(&container),
        &Some(wide(1, "G")),
        &Some(wide(2, "I")),
        &RawValue::Bytes(vec![1, 0, 0, 0]),
        192,
        VT_I4,
        5,
    );
    assert_eq!(
        recorder.calls(),
        vec![("G".to_string(), "I".to_string(), OpcValue::Int32(1), OpcQuality::Good, 5)]
    );
}
