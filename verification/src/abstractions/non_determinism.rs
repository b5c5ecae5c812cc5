use vstd::prelude::*;

use std::collections::VecDeque;

use crate::abstractions::memory::MemorySource;

verus! {

/// The external side of the non-determinism CSR port. A read delivers one
/// 32-bit word chosen by the source; a write submits one word, and may let
/// the source peek into memory (read-only) to prepare its answer.
///
/// `read_result` gives the value a read returns as a function of the
/// current state: every source answers reads deterministically from its
/// own state. How the state steps is given relationally, by `read_rel`
/// and `write_rel`, since a source may consult an outside oracle.
pub trait NonDeterminismCSRSource<M: MemorySource>: Sized {
    /// The value the next read returns.
    spec fn read_result(&self) -> u32;

    /// Which post-states a read can leave.
    spec fn read_rel(&self, post: Self) -> bool;

    /// Which post-states a write of `value` can leave, with `mem` the
    /// memory image the source was allowed to peek at.
    spec fn write_rel(&self, mem: Seq<u32>, value: u32, post: Self) -> bool;

    /// When true, CSRRW/CSRRWI at the port read as zero instead of
    /// consuming from the source: the guest's intent is the write.
    spec fn spec_should_mock_reads_before_writes() -> bool;

    /// When true, CSRRS/CSRRC/CSRRSI/CSRRCI writes at the port are
    /// suppressed: the guest's intent is the read.
    spec fn spec_should_ignore_writes_after_reads() -> bool;

    fn should_mock_reads_before_writes() -> (r: bool)
        ensures
            r == Self::spec_should_mock_reads_before_writes(),
    ;

    fn should_ignore_writes_after_reads() -> (r: bool)
        ensures
            r == Self::spec_should_ignore_writes_after_reads(),
    ;

    fn read(&mut self) -> (r: u32)
        ensures
            r == old(self).read_result(),
            old(self).read_rel(*final(self)),
    ;

    fn write_with_memory_access(&mut self, memory: &M, value: u32)
        ensures
            old(self).write_rel(memory@, value, *final(self)),
    ;
}

/// A chain of source states linked by consecutive reads.
pub open spec fn nd_read_chain<M: MemorySource, ND: NonDeterminismCSRSource<M>>(
    chain: Seq<ND>,
) -> bool {
    forall|i: int| 0 <= i < chain.len() - 1 ==> #[trigger] chain[i].read_rel(chain[i + 1])
}

/// A source that always reads zero and ignores writes.
#[derive(Clone, Copy, Debug, PartialEq, Eq, Structural)]
pub struct ZeroedSource;

impl<M: MemorySource> NonDeterminismCSRSource<M> for ZeroedSource {
    open spec fn read_result(&self) -> u32 {
        0u32
    }

    open spec fn read_rel(&self, post: Self) -> bool {
        post == *self
    }

    open spec fn write_rel(&self, mem: Seq<u32>, value: u32, post: Self) -> bool {
        post == *self
    }

    open spec fn spec_should_mock_reads_before_writes() -> bool {
        true
    }

    open spec fn spec_should_ignore_writes_after_reads() -> bool {
        true
    }

    fn should_mock_reads_before_writes() -> (r: bool) {
        true
    }

    fn should_ignore_writes_after_reads() -> (r: bool) {
        true
    }

    fn read(&mut self) -> (r: u32) {
        0u32
    }

    fn write_with_memory_access(&mut self, memory: &M, value: u32) {
    }
}

/// Mathematical image of the quasi-UART write-side state.
pub enum UartWriteStateView {
    Ready,
    Buffering { remaining_words: Option<int>, remaining_len_in_bytes: Option<int>, buffer: Seq<u8> },
}

impl UartWriteStateView {
    /// The byte length is only declared once the word count is, and while
    /// payload is still expected the word count is positive.
    pub open spec fn wf(self) -> bool {
        match self {
            UartWriteStateView::Ready => true,
            UartWriteStateView::Buffering { remaining_words, remaining_len_in_bytes, buffer } => {
                match (remaining_words, remaining_len_in_bytes) {
                    (Option::None, l) => l is None,
                    (Option::Some(w), Option::None) => w >= 1,
                    (Option::Some(w), Option::Some(l)) => w >= 1 && l >= 0,
                }
            },
        }
    }

    /// The bytes of `value`, little-endian, truncated to `keep` bytes.
    pub open spec fn spec_le_bytes_prefix(value: u32, keep: int) -> Seq<u8> {
        seq![
            value as u8,
            (value >> 8u32) as u8,
            (value >> 16u32) as u8,
            (value >> 24u32) as u8,
        ].take(keep)
    }

    /// One step of the write-side protocol: the hello word opens a
    /// message; the next word declares the word count, where a count of
    /// zero, or of one (leaving no room for payload after the byte-length
    /// word), closes the message at once as empty; the next word declares
    /// the byte length; the remaining words carry payload, four bytes per
    /// word with the last word truncated to the declared byte length.
    /// Consuming the declared word count completes the message.
    pub open spec fn spec_process_write(self, value: u32) -> (UartWriteStateView, Option<Seq<u8>>) {
        match self {
            UartWriteStateView::Ready => {
                if value == QuasiUARTSourceState::spec_hello_value() {
                    (
                        UartWriteStateView::Buffering {
                            remaining_words: Option::None,
                            remaining_len_in_bytes: Option::None,
                            buffer: Seq::empty(),
                        },
                        Option::None,
                    )
                } else {
                    (self, Option::None)
                }
            },
            UartWriteStateView::Buffering { remaining_words, remaining_len_in_bytes, buffer } => {
                match (remaining_words, remaining_len_in_bytes) {
                    (Option::None, _) => {
                        if value == 0 {
                            (UartWriteStateView::Ready, Option::Some(Seq::empty()))
                        } else {
                            (
                                UartWriteStateView::Buffering {
                                    remaining_words: Option::Some(value as int),
                                    remaining_len_in_bytes: Option::None,
                                    buffer: Seq::empty(),
                                },
                                Option::None,
                            )
                        }
                    },
                    (Option::Some(w), Option::None) => {
                        if w == 1 {
                            (UartWriteStateView::Ready, Option::Some(Seq::empty()))
                        } else {
                            (
                                UartWriteStateView::Buffering {
                                    remaining_words: Option::Some(w - 1),
                                    remaining_len_in_bytes: Option::Some(value as int),
                                    buffer,
                                },
                                Option::None,
                            )
                        }
                    },
                    (Option::Some(w), Option::Some(l)) => {
                        let keep = if l >= 4 {
                            4
                        } else {
                            l
                        };
                        let new_len = if l >= 4 {
                            l - 4
                        } else {
                            0
                        };
                        let new_buffer = buffer + Self::spec_le_bytes_prefix(value, keep);
                        if w == 1 {
                            (UartWriteStateView::Ready, Option::Some(new_buffer))
                        } else {
                            (
                                UartWriteStateView::Buffering {
                                    remaining_words: Option::Some(w - 1),
                                    remaining_len_in_bytes: Option::Some(new_len),
                                    buffer: new_buffer,
                                },
                                Option::None,
                            )
                        }
                    },
                }
            },
        }
    }
}

/// Write-side protocol state of the quasi-UART source.
#[derive(Clone, Debug)]
pub enum QuasiUARTSourceState {
    Ready,
    Buffering {
        remaining_words: Option<usize>,
        remaining_len_in_bytes: Option<usize>,
        buffer: Vec<u8>,
    },
}

impl View for QuasiUARTSourceState {
    type V = UartWriteStateView;

    open spec fn view(&self) -> UartWriteStateView {
        match self {
            QuasiUARTSourceState::Ready => UartWriteStateView::Ready,
            QuasiUARTSourceState::Buffering { remaining_words, remaining_len_in_bytes, buffer } => {
                UartWriteStateView::Buffering {
                    remaining_words: match remaining_words {
                        Option::Some(w) => Option::Some(*w as int),
                        Option::None => Option::None,
                    },
                    remaining_len_in_bytes: match remaining_len_in_bytes {
                        Option::Some(l) => Option::Some(*l as int),
                        Option::None => Option::None,
                    },
                    buffer: buffer@,
                }
            },
        }
    }
}

impl QuasiUARTSourceState {
    /// The word that opens a message.
    pub open spec fn spec_hello_value() -> u32 {
        0xffff_ffffu32
    }

    /// Feed one written word to the protocol; hands back the completed
    /// message when this word closes one.
    pub fn process_write(&mut self, value: u32) -> (message: Option<Vec<u8>>)
        requires
            old(self)@.wf(),
        ensures
            final(self)@.wf(),
            final(self)@ == old(self)@.spec_process_write(value).0,
            match (message, old(self)@.spec_process_write(value).1) {
                (Option::Some(m), Option::Some(s)) => m@ == s,
                (Option::None, Option::None) => true,
                _ => false,
            },
    {
        let mut message: Option<Vec<u8>> = None;
        let next: QuasiUARTSourceState = match &*self {
            QuasiUARTSourceState::Ready => {
                if value == 0xffff_ffffu32 {
                    QuasiUARTSourceState::Buffering {
                        remaining_words: None,
                        remaining_len_in_bytes: None,
                        buffer: Vec::new(),
                    }
                } else {
                    QuasiUARTSourceState::Ready
                }
            },
            QuasiUARTSourceState::Buffering { remaining_words, remaining_len_in_bytes, buffer } => {
                match (remaining_words, remaining_len_in_bytes) {
                    (None, _) => {
                        if value == 0 {
                            message = Some(Vec::new());
                            QuasiUARTSourceState::Ready
                        } else {
                            QuasiUARTSourceState::Buffering {
                                remaining_words: Some(value as usize),
                                remaining_len_in_bytes: None,
                                buffer: Vec::new(),
                            }
                        }
                    },
                    (Some(w), None) => {
                        if *w == 1 {
                            message = Some(Vec::new());
                            QuasiUARTSourceState::Ready
                        } else {
                            QuasiUARTSourceState::Buffering {
                                remaining_words: Some(*w - 1),
                                remaining_len_in_bytes: Some(value as usize),
                                buffer: clone_bytes(buffer),
                            }
                        }
                    },
                    (Some(w), Some(l)) => {
                        let mut buf = clone_bytes(buffer);
                        let keep: usize = if *l >= 4 {
                            4
                        } else {
                            *l
                        };
                        if keep >= 1 {
                            buf.push(value as u8);
                        }
                        if keep >= 2 {
                            buf.push((value >> 8u32) as u8);
                        }
                        if keep >= 3 {
                            buf.push((value >> 16u32) as u8);
                        }
                        if keep >= 4 {
                            buf.push((value >> 24u32) as u8);
                        }
                        proof {
                            assert(buf@ =~= buffer@ + UartWriteStateView::spec_le_bytes_prefix(
                                value,
                                keep as int,
                            ));
                        }
                        let new_len: usize = if *l >= 4 {
                            *l - 4
                        } else {
                            0
                        };
                        if *w == 1 {
                            message = Some(buf);
                            QuasiUARTSourceState::Ready
                        } else {
                            QuasiUARTSourceState::Buffering {
                                remaining_words: Some(*w - 1),
                                remaining_len_in_bytes: Some(new_len),
                                buffer: buf,
                            }
                        }
                    },
                }
            },
        };
        *self = next;
        message
    }
}

/// Byte-for-byte copy of a byte vector.
fn clone_bytes(src: &Vec<u8>) -> (r: Vec<u8>)
    ensures
        r@ == src@,
{
    let mut r: Vec<u8> = Vec::new();
    let mut i: usize = 0;
    while i < src.len()
        invariant
            i <= src@.len(),
            r@ == src@.take(i as int),
        decreases src@.len() - i,
    {
        r.push(src[i]);
        proof {
            assert(r@ =~= src@.take(i + 1));
        }
        i = i + 1;
    }
    proof {
        assert(src@.take(src@.len() as int) =~= src@);
    }
    r
}

/// A test-driver source: reads stream from a pre-loaded queue of words,
/// and writes feed the quasi-UART message protocol, whose completed
/// messages are kept in order for the host to collect.
#[derive(Clone, Debug)]
pub struct QuasiUARTSource {
    pub oracle: VecDeque<u32>,
    pub write_state: QuasiUARTSourceState,
    pub messages: Vec<Vec<u8>>,
}

impl QuasiUARTSource {
    /// An empty source: no queued words, protocol at rest.
    pub fn new() -> (r: Self)
        ensures
            r.oracle@ == Seq::<u32>::empty(),
            r.write_state@ == UartWriteStateView::Ready,
            r.messages@.len() == 0,
    {
        Self { oracle: VecDeque::new(), write_state: QuasiUARTSourceState::Ready, messages: Vec::new() }
    }
}

impl<M: MemorySource> NonDeterminismCSRSource<M> for QuasiUARTSource {
    open spec fn read_result(&self) -> u32 {
        if self.oracle@.len() > 0 {
            self.oracle@[0]
        } else {
            0u32
        }
    }

    open spec fn read_rel(&self, post: Self) -> bool {
        &&& post.oracle@ == if self.oracle@.len() > 0 {
            self.oracle@.drop_first()
        } else {
            self.oracle@
        }
        &&& post.write_state@ == self.write_state@
        &&& post.messages.deep_view() == self.messages.deep_view()
    }

    open spec fn write_rel(&self, mem: Seq<u32>, value: u32, post: Self) -> bool {
        self.write_state@.wf() ==> {
            let (st, msg) = self.write_state@.spec_process_write(value);
            &&& post.oracle@ == self.oracle@
            &&& post.write_state@ == st
            &&& post.write_state@.wf()
            &&& match msg {
                Option::Some(s) => post.messages.deep_view() == self.messages.deep_view().push(s),
                Option::None => post.messages.deep_view() == self.messages.deep_view(),
            }
        }
    }

    open spec fn spec_should_mock_reads_before_writes() -> bool {
        true
    }

    open spec fn spec_should_ignore_writes_after_reads() -> bool {
        true
    }

    fn should_mock_reads_before_writes() -> (r: bool) {
        true
    }

    fn should_ignore_writes_after_reads() -> (r: bool) {
        true
    }

    fn read(&mut self) -> (r: u32) {
        match self.oracle.pop_front() {
            Some(v) => v,
            None => 0,
        }
    }

    fn write_with_memory_access(&mut self, memory: &M, value: u32) {
        if self.write_state.is_wf() {
            let message = self.write_state.process_write(value);
            match message {
                Some(m) => {
                    let ghost m_view = m@;
                    self.messages.push(m);
                    proof {
                        assert(self.messages.deep_view() =~~= old(
                            self,
                        ).messages.deep_view().push(m_view));
                    }
                },
                None => {},
            }
        }
    }
}

impl QuasiUARTSourceState {
    /// Runtime check of the protocol-state invariant, so that a write is
    /// processed only from a consistent state.
    pub fn is_wf(&self) -> (r: bool)
        ensures
            r == self@.wf(),
    {
        match self {
            QuasiUARTSourceState::Ready => true,
            QuasiUARTSourceState::Buffering { remaining_words, remaining_len_in_bytes, buffer } => {
                match (remaining_words, remaining_len_in_bytes) {
                    (None, l) => l.is_none(),
                    (Some(w), None) => *w >= 1,
                    (Some(w), Some(l)) => *w >= 1,
                }
            },
        }
    }
}

} // verus!
