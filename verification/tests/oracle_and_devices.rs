use std::collections::VecDeque;

use risc_v_simulator::abstractions::memory::VectorMemoryImpl;
use risc_v_simulator::abstractions::non_determinism::NonDeterminismCSRSource;
use risc_v_simulator::abstractions::non_determinism::QuasiUARTSource;
use risc_v_simulator::abstractions::non_determinism::QuasiUARTSourceState;
use risc_v_simulator::abstractions::oracle::QueryBuffer;
use risc_v_simulator::abstractions::oracle::ReplayQueryProcessor;
use risc_v_simulator::abstractions::oracle::ZkEENonDeterminismSource;
use risc_v_simulator::cycle::status_registers::TrapReason;
use risc_v_simulator::mmio::quasi_uart::QuasiUART;
use risc_v_simulator::mmio::MMIOImplementation;
use risc_v_simulator::mmio::MMIOSource;
use risc_v_simulator::abstractions::oracle::decode_uart_payload;

const UART_ID: u32 = 0x0000_aaaa;
const DISCONNECT_ID: u32 = 0x0000_bbbb;
const STORAGE_ID: u32 = 0x0000_1234;

fn engine_with_processor() -> ZkEENonDeterminismSource<VectorMemoryImpl, ReplayQueryProcessor> {
    let mut engine = ZkEENonDeterminismSource::new(UART_ID, DISCONNECT_ID);
    let mut processor = ReplayQueryProcessor::new(vec![STORAGE_ID, UART_ID]);
    let mut response: VecDeque<u64> = VecDeque::new();
    response.push_back(0x1111_2222_3333_4444);
    response.push_back(0x5555_6666_7777_8888);
    processor.push_response(response);
    engine.add_external_processor(processor);
    engine
}

#[test]
fn query_buffer_packs_pairs() {
    let mut buffer = QueryBuffer::empty_for_query_type(STORAGE_ID);
    assert!(!buffer.write(4));
    assert!(!buffer.write(0x0000_00aa));
    assert!(!buffer.write(0x0000_00bb));
    assert!(!buffer.write(0x0000_00cc));
    assert!(buffer.write(0x0000_00dd));
    assert_eq!(buffer.buffer.len(), 2);
    assert_eq!(buffer.buffer[0], 0x0000_00bb_0000_00aa);
    assert_eq!(buffer.buffer[1], 0x0000_00dd_0000_00cc);
    let mut zero_len = QueryBuffer::empty_for_query_type(STORAGE_ID);
    assert!(zero_len.write(0));
}

#[test]
fn completed_query_frames_response_length_first() {
    let memory = VectorMemoryImpl::new_for_byte_size(16);
    let mut engine = engine_with_processor();
    // Query: id, declared length of two writes, two payload words.
    engine.write_with_memory_access(&memory, STORAGE_ID);
    engine.write_with_memory_access(&memory, 2);
    engine.write_with_memory_access(&memory, 0xdead_0001);
    engine.write_with_memory_access(&memory, 0xdead_0002);
    // The first read after completion is the response length in 32-bit
    // units: two 64-bit words, so four.
    assert_eq!(engine.read(), 4);
    // Then low/high halves of each unit, then zeros when exhausted.
    assert_eq!(engine.read(), 0x3333_4444);
    assert_eq!(engine.read(), 0x1111_2222);
    assert_eq!(engine.read(), 0x7777_8888);
    assert_eq!(engine.read(), 0x5555_6666);
    assert_eq!(engine.read(), 0);
    assert_eq!(engine.read(), 0);
    assert!(engine.host_fault.is_none());
}

#[test]
fn unknown_query_id_records_a_fault() {
    let memory = VectorMemoryImpl::new_for_byte_size(16);
    let mut engine = engine_with_processor();
    engine.write_with_memory_access(&memory, 0x9999);
    engine.write_with_memory_access(&memory, 0);
    assert_eq!(engine.host_fault, Some(0x9999));
}

#[test]
fn disconnect_turns_reads_passive() {
    let memory = VectorMemoryImpl::new_for_byte_size(16);
    let mut engine = engine_with_processor();
    engine.write_with_memory_access(&memory, DISCONNECT_ID);
    engine.write_with_memory_access(&memory, 0);
    assert_eq!(engine.read(), 0);
    assert!(engine.host_fault.is_none());
}

#[test]
fn output_ring_keeps_last_eight_words() {
    let memory = VectorMemoryImpl::new_for_byte_size(16);
    let mut engine: ZkEENonDeterminismSource<VectorMemoryImpl, ReplayQueryProcessor> =
        ZkEENonDeterminismSource::new(UART_ID, DISCONNECT_ID);
    for v in 1..=9u32 {
        engine.write_with_memory_access(&memory, v);
    }
    let output = engine.get_possible_program_output();
    assert_eq!(output, [2, 3, 4, 5, 6, 7, 8, 9]);
    let mut fresh: ZkEENonDeterminismSource<VectorMemoryImpl, ReplayQueryProcessor> =
        ZkEENonDeterminismSource::new(UART_ID, DISCONNECT_ID);
    fresh.write_with_memory_access(&memory, 7);
    assert_eq!(fresh.get_possible_program_output(), [7, 0, 0, 0, 0, 0, 0, 0]);
}

#[test]
fn uart_source_assembles_message() {
    let memory = VectorMemoryImpl::new_for_byte_size(16);
    let mut source = QuasiUARTSource::new();
    // Hello, three words follow: the byte length, then the payload.
    source.write_with_memory_access(&memory, 0xffff_ffff);
    source.write_with_memory_access(&memory, 3);
    source.write_with_memory_access(&memory, 5);
    source.write_with_memory_access(&memory, u32::from_le_bytes(*b"helo"));
    source.write_with_memory_access(&memory, u32::from_le_bytes(*b"!???"));
    assert_eq!(source.messages.len(), 1);
    assert_eq!(source.messages[0], b"helo!".to_vec());
}

#[test]
fn uart_source_reads_stream_from_queue() {
    let memory = VectorMemoryImpl::new_for_byte_size(16);
    let mut source = QuasiUARTSource::new();
    source.oracle.push_back(11);
    source.oracle.push_back(22);
    let s = &mut source;
    assert_eq!(NonDeterminismCSRSource::<VectorMemoryImpl>::read(s), 11);
    assert_eq!(NonDeterminismCSRSource::<VectorMemoryImpl>::read(s), 22);
    assert_eq!(NonDeterminismCSRSource::<VectorMemoryImpl>::read(s), 0);
    let _ = &memory;
}

#[test]
fn uart_state_zero_count_closes_empty() {
    let mut state = QuasiUARTSourceState::Ready;
    assert!(state.process_write(0xffff_ffff).is_none());
    let message = state.process_write(0);
    assert_eq!(message, Some(Vec::new()));
}

#[test]
fn mmio_routes_by_range() {
    let uart = QuasiUART::new();
    let bank = MMIOImplementation::construct(vec![uart]);
    let mut bank = bank.expect("disjoint ranges");
    let mut trap = TrapReason::NoTrap;
    assert!(bank.read(4, &mut trap).is_ok());
    assert!(bank.read(5, &mut trap).is_err());
    assert!(bank.write(4, 0x6f6c_6568, &mut trap).is_ok());
    assert!(bank.write(0x100, 1, &mut trap).is_err());
}

#[test]
fn mmio_construct_refuses_overlap() {
    let bank = MMIOImplementation::construct(vec![QuasiUART::new(), QuasiUART::new()]);
    assert!(bank.is_none());
}

#[test]
fn mmio_uart_collects_lines() {
    let mut uart = QuasiUART::new();
    let mut trap = TrapReason::NoTrap;
    uart.write(4, u32::from_le_bytes(*b"hey\0"), &mut trap);
    assert_eq!(uart.messages.len(), 1);
    assert_eq!(uart.messages[0], b"hey\0".to_vec());
    uart.oracle.push_back(3);
    assert_eq!(uart.read(4, &mut trap), 3);
    assert_eq!(uart.read(4, &mut trap), 0);
}

#[test]
fn uart_payload_decodes_length_prefixed_bytes() {
    // One unit: low half declares four bytes, high half carries "hey!".
    let declared = 4u64;
    let word = u32::from_le_bytes(*b"hey!") as u64;
    let payload = vec![(word << 32) | declared];
    assert_eq!(decode_uart_payload(&payload), Some(b"hey!".to_vec()));
    // A six-byte string spans into the next unit's low half.
    let tail = u32::from_le_bytes(*b"oh\0\0") as u64;
    let payload2 = vec![(word << 32) | 6, tail];
    assert_eq!(decode_uart_payload(&payload2), Some(b"hey!oh".to_vec()));
    // Malformed: empty payload, or more declared than carried.
    assert_eq!(decode_uart_payload(&Vec::new()), None);
    let payload3 = vec![(word << 32) | 5];
    assert_eq!(decode_uart_payload(&payload3), None);
}
