use vstd::prelude::*;

use std::collections::VecDeque;

use crate::cycle::status_registers::TrapReason;
use crate::mmio::MMIOSource;

verus! {

/// The one word-sized address the quasi-UART device claims.
pub const QUASI_UART_ADDRESS: u32 = 0x0000_0004;

/// A word-wide console device: reads stream from a pre-loaded queue;
/// written words accumulate as little-endian bytes, and a zero byte
/// closes the current line, which is kept (with its terminator) for the
/// host to collect. Bytes after the zero in the closing word are
/// dropped.
#[derive(Clone, Debug)]
pub struct QuasiUART {
    pub oracle: VecDeque<u32>,
    pub buffer: Vec<u8>,
    pub messages: Vec<Vec<u8>>,
}

impl QuasiUART {
    pub fn new() -> (r: Self)
        ensures
            r.oracle@.len() == 0,
            r.buffer@.len() == 0,
            r.messages@.len() == 0,
    {
        Self { oracle: VecDeque::new(), buffer: Vec::new(), messages: Vec::new() }
    }
}

impl MMIOSource for QuasiUART {
    open spec fn spec_address_range(&self) -> (u64, u64) {
        (4u64, 5u64)
    }

    fn address_range(&self) -> (r: (u64, u64)) {
        (QUASI_UART_ADDRESS as u64, (QUASI_UART_ADDRESS + 1) as u64)
    }

    fn read(&mut self, address: u64, trap: &mut TrapReason) -> (r: u32) {
        match self.oracle.pop_front() {
            Some(v) => v,
            None => 0,
        }
    }

    fn write(&mut self, address: u64, value: u32, trap: &mut TrapReason) {
        self.buffer.push(value as u8);
        self.buffer.push((value >> 8u32) as u8);
        self.buffer.push((value >> 16u32) as u8);
        self.buffer.push((value >> 24u32) as u8);
        let len = self.buffer.len();
        let mut idx: usize = len - 4;
        while idx < len
            invariant
                len == self.buffer@.len(),
                len >= 4,
                len - 4 <= idx,
            decreases len - idx,
        {
            if self.buffer[idx] == 0 {
                let mut message: Vec<u8> = Vec::new();
                let mut k: usize = 0;
                while k <= idx
                    invariant
                        idx < self.buffer@.len(),
                        idx < usize::MAX,
                        k <= idx + 1,
                        message@.len() == k,
                    decreases idx + 1 - k,
                {
                    message.push(self.buffer[k]);
                    k = k + 1;
                }
                self.messages.push(message);
                self.buffer = Vec::new();
                return ;
            }
            idx = idx + 1;
        }
    }
}

} // verus!
