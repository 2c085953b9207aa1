//! Tests of the trace-control library: control-structure construction,
//! session-lifecycle decisions, provider enumeration, identifier parsing,
//! and path validation.

use etw_control::etw::{
    interpret_enable, interpret_query, interpret_start, interpret_stop, start_properties,
    EventTraceProperties, QueryOutcome, EVENT_TRACE_FILE_MODE_SEQUENTIAL, LOGGER_NAME_OFFSET,
    LOG_FILE_NAME_OFFSET, PROPERTIES_TOTAL_BYTES, START_BUFFER_SIZE, START_FLUSH_TIMER,
    START_MINIMUM_BUFFERS, TEXT_REGION_CAPACITY, WNODE_FLAG_TRACED_GUID,
};
use etw_control::guid::{parse_guid, Guid, TryParse};
use etw_control::paths::validate_path;
use etw_control::providers::{
    decode_provider_buffer, fill_step, finish_enumeration, sizing_step, FillStep, SizingStep,
    FILL_RETRY_LIMIT,
};
use etw_control::result::TraceError;

const ERROR_SUCCESS: u32 = 0;
const ERROR_INSUFFICIENT_BUFFER: u32 = 122;
const ERROR_WMI_INSTANCE_NOT_FOUND: u32 = 4201;

fn region_text(region: &[u16]) -> String {
    let end = region.iter().position(|&u| u == 0).unwrap_or(region.len());
    String::from_utf16(&region[..end]).unwrap()
}

#[test]
fn build_round_trips_name_and_path() {
    let p = EventTraceProperties::new_with_file("MySession", "out/trace.etl").unwrap();
    assert_eq!(p.wnode_buffer_size, PROPERTIES_TOTAL_BYTES);
    assert_eq!(p.logger_name_offset, LOGGER_NAME_OFFSET);
    assert_eq!(p.log_file_name_offset, LOG_FILE_NAME_OFFSET);
    assert_eq!(p.logger_name.len(), TEXT_REGION_CAPACITY);
    assert_eq!(p.log_file_name.len(), TEXT_REGION_CAPACITY);
    let name_units: Vec<u16> = "MySession".encode_utf16().collect();
    assert_eq!(&p.logger_name[..name_units.len()], &name_units[..]);
    assert!(p.logger_name[name_units.len()..].iter().all(|&u| u == 0));
    assert_eq!(region_text(&p.logger_name), "MySession");
    assert_eq!(region_text(&p.log_file_name), "out/trace.etl");
}

#[test]
fn build_encodes_non_ascii_text() {
    let p = EventTraceProperties::new_with_file("caf\u{e9} \u{1D11E}", "").unwrap();
    let expected: Vec<u16> = "caf\u{e9} \u{1D11E}".encode_utf16().collect();
    assert_eq!(&p.logger_name[..expected.len()], &expected[..]);
    assert_eq!(p.logger_name[0], 'c' as u16);
    assert_eq!(region_text(&p.logger_name), "caf\u{e9} \u{1D11E}");
}

#[test]
fn build_accepts_name_at_capacity() {
    let name = "x".repeat(256);
    let p = EventTraceProperties::new(&name).unwrap();
    assert_eq!(region_text(&p.logger_name), name);
}

#[test]
fn build_rejects_oversized_name() {
    let name = "x".repeat(257);
    assert_eq!(
        EventTraceProperties::new(&name).unwrap_err(),
        TraceError::CapacityExceeded
    );
}

#[test]
fn build_rejects_oversized_path() {
    let path = format!("{}.etl", "p".repeat(300));
    assert_eq!(
        EventTraceProperties::new_with_file("S", &path).unwrap_err(),
        TraceError::CapacityExceeded
    );
}

#[test]
fn build_rejects_name_whose_encoding_exceeds_capacity() {
    // 255 one-unit characters plus one character that encodes to a
    // surrogate pair: 257 units, over the 256-unit capacity.
    let name = format!("{}\u{1D11E}", "x".repeat(255));
    assert_eq!(name.chars().count(), 256);
    assert_eq!(
        EventTraceProperties::new(&name).unwrap_err(),
        TraceError::CapacityExceeded
    );
}

#[test]
fn start_configuration_sets_start_fields() {
    let p = start_properties("S1", "S1.etl").unwrap();
    assert_eq!(p.wnode_flags, WNODE_FLAG_TRACED_GUID);
    assert_eq!(p.buffer_size, START_BUFFER_SIZE);
    assert_eq!(p.minimum_buffers, START_MINIMUM_BUFFERS);
    assert_eq!(p.log_file_mode, EVENT_TRACE_FILE_MODE_SEQUENTIAL);
    assert_eq!(p.flush_timer, START_FLUSH_TIMER);
    assert_eq!(region_text(&p.logger_name), "S1");
    assert_eq!(region_text(&p.log_file_name), "S1.etl");
}

#[test]
fn query_configuration_leaves_start_fields_zero() {
    let p = EventTraceProperties::new("S1").unwrap();
    assert_eq!(p.wnode_flags, 0);
    assert_eq!(p.buffer_size, 0);
    assert_eq!(p.minimum_buffers, 0);
    assert_eq!(p.log_file_mode, 0);
    assert_eq!(p.flush_timer, 0);
    assert_eq!(region_text(&p.log_file_name), "");
}

#[test]
fn stop_of_absent_session_is_not_found_not_error() {
    let r = interpret_query(ERROR_WMI_INSTANCE_NOT_FOUND, 0);
    assert_eq!(r, Ok(QueryOutcome::NotFound));
}

#[test]
fn start_stop_stop_session_lifecycle() {
    // Start session "S1" with file "S1.etl" and a valid provider identifier.
    let provider: Option<Guid> = "12345678-1234-1234-1234-123456789abc".try_parse();
    assert!(provider.is_some());
    let props = start_properties("S1", "S1.etl").unwrap();
    assert_eq!(region_text(&props.logger_name), "S1");
    // The facility answers the create call with success and a handle.
    let handle = interpret_start(ERROR_SUCCESS, 0x1234).unwrap();
    assert_ne!(handle, 0);
    assert!(interpret_enable(ERROR_SUCCESS).is_ok());
    // A first stop finds the session and stops it.
    let q = interpret_query(ERROR_SUCCESS, handle).unwrap();
    assert_eq!(q, QueryOutcome::Stop { handle: 0x1234 });
    assert_eq!(interpret_stop(ERROR_SUCCESS), Ok(true));
    // A second stop finds nothing.
    let q2 = interpret_query(ERROR_WMI_INSTANCE_NOT_FOUND, 0).unwrap();
    assert_eq!(q2, QueryOutcome::NotFound);
}

#[test]
fn lifecycle_failure_statuses_wrap_their_codes() {
    assert_eq!(interpret_start(5, 0), Err(TraceError::StartFailed(5)));
    assert_eq!(interpret_start(ERROR_SUCCESS, 0), Err(TraceError::FatalOsFault));
    assert_eq!(interpret_enable(8), Err(TraceError::EnableFailed(8)));
    assert_eq!(interpret_query(31, 1), Err(TraceError::QueryFailed(31)));
    assert_eq!(interpret_query(ERROR_SUCCESS, 0), Err(TraceError::FatalOsFault));
    assert_eq!(interpret_stop(6), Err(TraceError::StopFailed(6)));
}

#[test]
fn sizing_with_zero_required_size_finishes_empty() {
    assert_eq!(sizing_step(ERROR_INSUFFICIENT_BUFFER, 0), SizingStep::Empty);
    assert_eq!(sizing_step(ERROR_SUCCESS, 0), SizingStep::Empty);
}

#[test]
fn sizing_with_required_size_asks_for_fill() {
    assert_eq!(
        sizing_step(ERROR_INSUFFICIENT_BUFFER, 4096),
        SizingStep::Fill { size: 4096 }
    );
}

#[test]
fn sizing_with_unexpected_status_fails() {
    assert_eq!(
        sizing_step(5, 4096),
        SizingStep::Fail { error: TraceError::SizingFailed(5) }
    );
}

#[test]
fn fill_success_decodes() {
    assert_eq!(fill_step(FILL_RETRY_LIMIT, ERROR_SUCCESS, 0), FillStep::Decode);
}

#[test]
fn fill_growing_environment_retries_once_then_fails() {
    // First fill: the provider count grew, the buffer is too small again.
    let first = fill_step(FILL_RETRY_LIMIT, ERROR_INSUFFICIENT_BUFFER, 8192);
    assert_eq!(first, FillStep::Retry { size: 8192, retries_left: 0 });
    // Second fill: still too small; fail rather than loop.
    let second = fill_step(0, ERROR_INSUFFICIENT_BUFFER, 16384);
    assert_eq!(
        second,
        FillStep::Fail { error: TraceError::FillFailed(ERROR_INSUFFICIENT_BUFFER) }
    );
}

#[test]
fn fill_with_unexpected_status_fails() {
    assert_eq!(
        fill_step(FILL_RETRY_LIMIT, 87, 0),
        FillStep::Fail { error: TraceError::FillFailed(87) }
    );
}

#[test]
fn decode_empty_provider_list() {
    let buffer = [0u8; 8];
    let v = finish_enumeration(&buffer).unwrap();
    assert!(v.is_empty());
}

#[test]
fn decode_one_provider_record() {
    let mut buffer = Vec::new();
    buffer.extend_from_slice(&1u32.to_le_bytes()); // provider count
    buffer.extend_from_slice(&0u32.to_le_bytes()); // reserved
    // One record: identifier, schema source, name offset.
    buffer.extend_from_slice(&0x12345678u32.to_le_bytes());
    buffer.extend_from_slice(&0x1234u16.to_le_bytes());
    buffer.extend_from_slice(&0x5678u16.to_le_bytes());
    buffer.extend_from_slice(&[1, 2, 3, 4, 5, 6, 7, 8]);
    buffer.extend_from_slice(&2u32.to_le_bytes()); // schema source
    buffer.extend_from_slice(&32u32.to_le_bytes()); // name offset
    // The name, UTF-16, null-terminated, at offset 32.
    for u in "Widget".encode_utf16() {
        buffer.extend_from_slice(&u.to_le_bytes());
    }
    buffer.extend_from_slice(&0u16.to_le_bytes());
    let v = decode_provider_buffer(&buffer).unwrap();
    assert_eq!(v.len(), 1);
    assert_eq!(v[0].name, "Widget");
    assert_eq!(v[0].schema_source, 2);
    assert_eq!(v[0].guid.data1, 0x12345678);
    assert_eq!(v[0].guid.data2, 0x1234);
    assert_eq!(v[0].guid.data3, 0x5678);
    assert_eq!(v[0].guid.data4, [1, 2, 3, 4, 5, 6, 7, 8]);
}

#[test]
fn decode_two_providers_in_order() {
    let mut buffer = Vec::new();
    buffer.extend_from_slice(&2u32.to_le_bytes());
    buffer.extend_from_slice(&0u32.to_le_bytes());
    let name_a = 8 + 2 * 24;
    let name_b = name_a + 4;
    for (d1, name_off) in [(10u32, name_a as u32), (20u32, name_b as u32)] {
        buffer.extend_from_slice(&d1.to_le_bytes());
        buffer.extend_from_slice(&[0; 12]);
        buffer.extend_from_slice(&0u32.to_le_bytes());
        buffer.extend_from_slice(&name_off.to_le_bytes());
    }
    buffer.extend_from_slice(&('A' as u16).to_le_bytes());
    buffer.extend_from_slice(&0u16.to_le_bytes());
    buffer.extend_from_slice(&('B' as u16).to_le_bytes());
    buffer.extend_from_slice(&0u16.to_le_bytes());
    let v = decode_provider_buffer(&buffer).unwrap();
    assert_eq!(v.len(), 2);
    assert_eq!(v[0].name, "A");
    assert_eq!(v[0].guid.data1, 10);
    assert_eq!(v[1].name, "B");
    assert_eq!(v[1].guid.data1, 20);
}

#[test]
fn decode_count_beyond_buffer_is_fatal() {
    let mut buffer = vec![0u8; 16];
    buffer[0..4].copy_from_slice(&100u32.to_le_bytes());
    assert!(decode_provider_buffer(&buffer).is_none());
    assert_eq!(finish_enumeration(&buffer).unwrap_err(), TraceError::FatalOsFault);
}

#[test]
fn decode_truncated_header_is_fatal() {
    let buffer = [0u8; 4];
    assert!(decode_provider_buffer(&buffer).is_none());
}

#[test]
fn decode_name_offset_beyond_buffer_reads_nothing() {
    let mut buffer = vec![0u8; 8 + 24];
    buffer[0..4].copy_from_slice(&1u32.to_le_bytes());
    buffer[28..32].copy_from_slice(&9999u32.to_le_bytes()); // name offset
    let v = decode_provider_buffer(&buffer).unwrap();
    assert_eq!(v.len(), 1);
    assert_eq!(v[0].name, "");
}

#[test]
fn decode_unterminated_name_stops_at_buffer_end() {
    let mut buffer = vec![0u8; 8 + 24];
    buffer[0..4].copy_from_slice(&1u32.to_le_bytes());
    buffer[28..32].copy_from_slice(&32u32.to_le_bytes());
    buffer.extend_from_slice(&('H' as u16).to_le_bytes());
    buffer.extend_from_slice(&('i' as u16).to_le_bytes());
    // No terminator and one stray trailing byte.
    buffer.push(0xFF);
    let v = decode_provider_buffer(&buffer).unwrap();
    assert_eq!(v[0].name, "Hi");
}

#[test]
fn decode_unpaired_surrogate_in_name_is_replaced() {
    let mut buffer = vec![0u8; 8 + 24];
    buffer[0..4].copy_from_slice(&1u32.to_le_bytes());
    buffer[28..32].copy_from_slice(&32u32.to_le_bytes());
    buffer.extend_from_slice(&0xD800u16.to_le_bytes()); // lone high surrogate
    buffer.extend_from_slice(&('A' as u16).to_le_bytes());
    buffer.extend_from_slice(&0u16.to_le_bytes());
    let v = decode_provider_buffer(&buffer).unwrap();
    assert_eq!(v[0].name, "\u{FFFD}A");
}

#[test]
fn parse_example_identifier() {
    let g = parse_guid("12345678-1234-1234-1234-123456789abc").unwrap();
    assert_eq!(g.data1, 0x12345678);
    assert_eq!(g.data2, 0x1234);
    assert_eq!(g.data3, 0x1234);
    assert_eq!(g.data4, [0x12, 0x34, 0x12, 0x34, 0x56, 0x78, 0x9a, 0xbc]);
}

#[test]
fn parse_identifier_either_case() {
    let lower = parse_guid("9e814aad-3204-11d2-9a82-006008a86939").unwrap();
    let upper = parse_guid("9E814AAD-3204-11D2-9A82-006008A86939").unwrap();
    assert_eq!(lower, upper);
    assert_eq!(lower.data1, 0x9e814aad);
    assert_eq!(lower.data4, [0x9a, 0x82, 0x00, 0x60, 0x08, 0xa8, 0x69, 0x39]);
}

#[test]
fn parse_rejects_malformed_identifiers() {
    assert!(parse_guid("").is_none());
    assert!(parse_guid("12345678-1234-1234-1234-123456789ab").is_none()); // 35 bytes
    assert!(parse_guid("12345678-1234-1234-1234-123456789abcd").is_none()); // 37 bytes
    assert!(parse_guid("12345678.1234-1234-1234-123456789abc").is_none()); // wrong dash
    assert!(parse_guid("12345678-1234-1234-1234-12345678gabc").is_none()); // non-hex digit
    assert!(parse_guid("1234567812341234-1234-123456789abc--").is_none()); // dashes misplaced
    assert!(parse_guid("12345678-1234-1234-1234-12345678\u{e9}abc").is_none()); // multibyte char
}

#[test]
fn try_parse_matches_parse_guid() {
    let text = "12345678-1234-1234-1234-123456789abc";
    let via_trait: Option<Guid> = text.try_parse();
    assert_eq!(via_trait, parse_guid(text));
    let bad: Option<Guid> = "not an identifier".try_parse();
    assert!(bad.is_none());
}

#[test]
fn validate_path_accepts_etl_paths() {
    assert!(validate_path("a.etl"));
    assert!(validate_path("out/trace.etl"));
    assert!(validate_path("C:\\traces\\night.etl"));
    assert!(validate_path("dir.with.dots/a.b.etl"));
    assert!(validate_path("a.etl/"));
}

#[test]
fn validate_path_rejects_other_paths() {
    assert!(!validate_path(""));
    assert!(!validate_path("a"));
    assert!(!validate_path("a.txt"));
    assert!(!validate_path("etl"));
    assert!(!validate_path(".etl"));
    assert!(!validate_path("dir/.etl"));
    assert!(!validate_path("a.ETL"));
    assert!(!validate_path("a.etl.gz"));
}
