use cloudreve_desktop::fetch::{file_url_entity, range_header, range_response_ok, FetchChunker, CHUNK_SIZE};
use cloudreve_desktop::inventory::FileMetadata;
use cloudreve_desktop::ipc::{
    fetch_data_response, item_state_category, placeholder_entry_to_ipc, placeholders_to_ipc,
    register_handler_for_mount, socket_path, validate_fetch_range, FetchRangeError, FetchWriterError,
    HandlerRegistry, InMemoryFetchDataWriter, IpcRequest, RequestFramer, MAX_FETCH_DATA_BYTES,
};
use cloudreve_desktop::platform::{FileProviderItemState, PlaceholderEntry};

fn entry(name: &str, blob: &[u8]) -> PlaceholderEntry {
    PlaceholderEntry {
        relative_path: name.to_string(),
        is_directory: false,
        size: 3,
        created_unix: 1,
        modified_unix: 2,
        blob: blob.to_vec(),
        mark_in_sync: true,
        overwrite: true,
    }
}

#[test]
fn fetch_ranges_checked() {
    assert_eq!(validate_fetch_range(10, 10), Err(FetchRangeError::EmptyRange));
    assert_eq!(validate_fetch_range(10, 5), Err(FetchRangeError::EmptyRange));
    assert_eq!(validate_fetch_range(0, 4096), Ok(4096));
    assert_eq!(validate_fetch_range(0, MAX_FETCH_DATA_BYTES), Ok(8 * 1024 * 1024));
    let too_large = validate_fetch_range(0, MAX_FETCH_DATA_BYTES + 1).unwrap_err();
    assert_eq!(too_large, FetchRangeError::TooLarge { total_bytes: 8_388_609 });
    assert_eq!(too_large.to_message(), "fetch range too large: 8388609 bytes");
    assert_eq!(FetchRangeError::EmptyRange.to_message(), "invalid fetch range: end <= start");
}

#[test]
fn item_state_categories() {
    assert_eq!(item_state_category(FileProviderItemState::CloudOnly), "CloudOnly");
    assert_eq!(item_state_category(FileProviderItemState::Syncing), "Syncing");
    assert_eq!(item_state_category(FileProviderItemState::Synced), "Synced");
    assert_eq!(item_state_category(FileProviderItemState::Error), "Error");
}

#[test]
fn fetch_writer_places_bytes_by_offset() {
    let mut w = InMemoryFetchDataWriter::new(6, 100).unwrap();
    assert_eq!(w.write_at(b"ab", 102), Ok(()));
    assert_eq!(w.write_at(b"z", 99), Err(FetchWriterError::OffsetUnderflow));
    assert_eq!(w.write_at(b"xyz", 105), Err(FetchWriterError::Overflow { end: 8, len: 6 }));
    assert_eq!(w.write_at(b"q", 105), Ok(()));
    assert_eq!(w.into_bytes(), vec![0, 0, b'a', b'b', 0, b'q']);
    assert_eq!(FetchWriterError::Overflow { end: 8, len: 6 }.to_message(), "fetch writer overflow: 8 > 6");
    assert_eq!(FetchWriterError::OffsetUnderflow.to_message(), "offset underflow in fetch writer");
}

#[test]
fn wire_entries_carry_base64_blobs() {
    let w = placeholder_entry_to_ipc(entry("d/a.txt", b"hi"));
    assert_eq!(w.relative_path, "d/a.txt");
    assert_eq!(w.blob_base64, "aGk=");
    assert_eq!((w.size, w.created_unix, w.modified_unix), (3, 1, 2));
    assert!(w.mark_in_sync && w.overwrite && !w.is_directory);
    let all = placeholders_to_ipc(&vec![entry("a", b""), entry("b", b"etag1")]);
    assert_eq!(all.len(), 2);
    assert_eq!(all[0].blob_base64, "");
    assert_eq!(all[1].relative_path, "b");
    assert_eq!(all[1].blob_base64, "ZXRhZzE=");
    assert_eq!(fetch_data_response(&[0xff, 0x00, 0x10]), "/wAQ");
}

#[test]
fn requests_framed_by_newline_or_close() {
    let mut f = RequestFramer::new();
    assert!(!f.feed(b"{\"a\":"));
    assert!(f.feed(b"1}\n"));
    assert_eq!(f.into_bytes(), b"{\"a\":1}\n".to_vec());
    let mut g = RequestFramer::new();
    assert!(!g.feed(b"{}"));
    assert!(g.feed(b""));
    assert_eq!(g.into_bytes(), b"{}".to_vec());
    let req = IpcRequest::FetchData { mount_id: "m9".to_string(), path: "/a".to_string(), range_start: 0, range_end: 1 };
    assert_eq!(req.mount_id(), "m9");
    assert_eq!(socket_path("/Users/me"), "/Users/me/.cloudreve/macos-file-provider/xpc.sock");
}

#[test]
fn handlers_registered_per_mount() {
    let mut reg: HandlerRegistry<u32> = HandlerRegistry::new();
    assert_eq!(reg.get("m1"), None);
    let s1 = register_handler_for_mount(&mut reg, "m1".to_string(), 1).unwrap();
    let _s2 = register_handler_for_mount(&mut reg, "m2".to_string(), 2).unwrap();
    let _again = register_handler_for_mount(&mut reg, "m1".to_string(), 3).unwrap();
    assert_eq!(reg.get("m1"), Some(&3));
    assert_eq!(reg.get("m2"), Some(&2));
    assert_eq!(s1.disconnect(&mut reg), Ok(()));
    assert_eq!(reg.get("m1"), None);
    assert_eq!(reg.get("m2"), Some(&2));
    reg.remove("m2");
    assert_eq!(reg.get("m2"), None);
}

#[test]
fn range_headers_and_statuses() {
    assert_eq!(range_header(0, 4096), "bytes=0-4095");
    assert_eq!(range_header(100, 101), "bytes=100-100");
    assert!(range_response_ok(200));
    assert!(range_response_ok(206));
    assert!(!range_response_ok(304));
    assert!(!range_response_ok(416));
}

#[test]
fn chunker_writes_whole_blocks_then_the_rest() {
    let mut c = FetchChunker::new(1000, 1000 + 10_000);
    assert!(c.feed(&vec![1u8; 100]).is_none());
    let w = c.feed(&vec![2u8; 5000]).unwrap();
    assert_eq!(w.offset, 1000);
    assert_eq!(w.data.len(), CHUNK_SIZE);
    assert_eq!(w.transferred_bytes, 4096);
    assert_eq!(w.total_bytes, 10_000);
    let w = c.feed(&vec![3u8; 4900]).unwrap();
    assert_eq!(w.offset, 1000 + 4096);
    assert_eq!(w.data.len(), 4096);
    let last = c.finish().unwrap();
    assert_eq!(last.offset, 1000 + 8192);
    assert_eq!(last.data.len(), 10_000 - 8192);
    assert_eq!(last.transferred_bytes, 10_000);
    assert!(FetchChunker::new(0, 0).finish().is_none());
}

#[test]
fn download_entity_from_inventory() {
    let mut m = FileMetadata {
        id: 1,
        drive_id: "d".to_string(),
        is_folder: false,
        local_path: "/s/a".to_string(),
        created_at: 0,
        updated_at: 0,
        etag: "v2".to_string(),
        metadata: vec![],
        permissions: String::new(),
        shared: false,
        size: 0,
        conflict_state: None,
    };
    assert_eq!(file_url_entity(Some(&m)), Some("v2".to_string()));
    m.etag.clear();
    assert_eq!(file_url_entity(Some(&m)), None);
    assert_eq!(file_url_entity(None), None);
}
