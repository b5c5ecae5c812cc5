use vstd::prelude::*;

use std::collections::VecDeque;
use ringbuffer::RingBuffer;

use crate::abstractions::memory::MemorySource;
use crate::abstractions::non_determinism::NonDeterminismCSRSource;

verus! {

/// Mathematical image of a query being assembled at the oracle port.
pub struct QueryBufferView {
    pub query_type: u32,
    /// 64-bit words still owed once the declared length arrived.
    pub remaining_len: Option<int>,
    /// Whether the next 32-bit write is the low half of a 64-bit unit.
    pub write_low: bool,
    pub buffer: Seq<u64>,
}

impl QueryBufferView {
    /// While payload is owed the count is positive, and a high half can
    /// only be pending when at least one unit has been started.
    pub open spec fn wf(self) -> bool {
        &&& match self.remaining_len {
            Option::Some(r) => r >= 1,
            Option::None => self.write_low && self.buffer.len() == 0,
        }
        &&& (!self.write_low ==> self.buffer.len() >= 1)
    }

    /// One buffered write. The first write after the query id declares
    /// the length in 64-bit units (zero closes the query at once); later
    /// writes pack low then high halves into 64-bit units, counting one
    /// unit per 32-bit write as the source protocol does. Returns the
    /// updated image and whether the query is now complete.
    pub open spec fn spec_write(self, value: u32) -> (QueryBufferView, bool) {
        match self.remaining_len {
            Option::None => {
                (
                    QueryBufferView {
                        query_type: self.query_type,
                        remaining_len: Option::Some(value as int),
                        write_low: true,
                        buffer: self.buffer,
                    },
                    value == 0,
                )
            },
            Option::Some(r) => {
                let next = if self.write_low {
                    QueryBufferView {
                        query_type: self.query_type,
                        remaining_len: Option::Some(r - 1),
                        write_low: false,
                        buffer: self.buffer.push(value as u64),
                    }
                } else {
                    QueryBufferView {
                        query_type: self.query_type,
                        remaining_len: Option::Some(r - 1),
                        write_low: true,
                        buffer: self.buffer.update(
                            self.buffer.len() - 1,
                            (self.buffer.last() | ((value as u64) << 32u64)),
                        ),
                    }
                };
                (next, r == 1)
            },
        }
    }
}

/// A query being assembled at the oracle port: its id, the declared
/// length still owed, the low/high packing toggle, and the payload in
/// 64-bit units.
pub struct QueryBuffer {
    pub query_type: u32,
    pub remaining_len: Option<usize>,
    pub write_low: bool,
    pub buffer: Vec<u64>,
}

impl View for QueryBuffer {
    type V = QueryBufferView;

    open spec fn view(&self) -> QueryBufferView {
        QueryBufferView {
            query_type: self.query_type,
            remaining_len: match self.remaining_len {
                Option::Some(r) => Option::Some(r as int),
                Option::None => Option::None,
            },
            write_low: self.write_low,
            buffer: self.buffer@,
        }
    }
}

impl QueryBuffer {
    /// A fresh buffer for a query of the given id, before its length word.
    pub fn empty_for_query_type(query_type: u32) -> (r: Self)
        ensures
            r@ == (QueryBufferView {
                query_type,
                remaining_len: Option::None,
                write_low: true,
                buffer: Seq::<u64>::empty(),
            }),
            r@.wf(),
    {
        let r = Self { query_type, remaining_len: None, write_low: true, buffer: Vec::new() };
        proof {
            assert(r@.buffer =~= Seq::<u64>::empty());
        }
        r
    }

    /// Feed one 32-bit write; true when the declared length is consumed
    /// and the query is complete.
    pub fn write(&mut self, value: u32) -> (complete: bool)
        requires
            old(self)@.wf(),
        ensures
            (final(self)@, complete) == old(self)@.spec_write(value),
            !complete ==> final(self)@.wf(),
    {
        match self.remaining_len {
            None => {
                self.remaining_len = Some(value as usize);
                value == 0
            },
            Some(remaining) => {
                if self.write_low {
                    self.buffer.push(value as u64);
                    self.write_low = false;
                } else {
                    let last_idx = self.buffer.len() - 1;
                    let last = self.buffer[last_idx];
                    self.buffer[last_idx] = last | ((value as u64) << 32u64);
                    self.write_low = true;
                }
                self.remaining_len = Some(remaining - 1);
                remaining == 1
            },
        }
    }
}

/// Handler for a family of oracle query ids: given a completed query it
/// may produce a response, a finite sequence of 64-bit words. What a
/// processor answers is the outside world's business; only which ids it
/// accepts is part of its contract.
pub trait OracleQueryProcessor<M: MemorySource>: Sized {
    spec fn spec_supports(&self, query_id: u32) -> bool;

    fn supported_query_ids(&self) -> Vec<u32>;

    fn supports_query_id(&self, query_id: u32) -> (r: bool)
        ensures
            r == self.spec_supports(query_id),
    ;

    fn process_buffered_query(&mut self, query_id: u32, query: Vec<u64>, memory: &M) -> (r: Option<
        VecDeque<u64>,
    >);
}

/// Declares the fixed-capacity ring buffer of the `ringbuffer` crate for
/// use in verified code; the engine keeps the last eight written words in
/// one.
#[verifier::external_type_specification]
#[verifier::external_body]
#[verifier::reject_recursive_types(T)]
pub struct ExConstGenericRingBuffer<T, const CAP: usize>(ringbuffer::ConstGenericRingBuffer<T, CAP>);

/// The values held by an eight-slot word ring, oldest first.
pub uninterp spec fn ring_contents(r: &ringbuffer::ConstGenericRingBuffer<u32, 8>) -> Seq<u32>;

/// Relies on ConstGenericRingBuffer::new: the ring starts empty.
#[verifier::external_body]
fn ring_new() -> (r: ringbuffer::ConstGenericRingBuffer<u32, 8>)
    ensures
        ring_contents(&r) == Seq::<u32>::empty(),
{
    ringbuffer::ConstGenericRingBuffer::new()
}

/// The ring contents after one more value: the oldest value leaves once
/// the eight slots are full.
pub open spec fn spec_push8(h: Seq<u32>, value: u32) -> Seq<u32> {
    if h.len() >= 8 {
        h.drop_first().push(value)
    } else {
        h.push(value)
    }
}

/// Relies on RingBuffer::enqueue: appends at the back and drops the
/// oldest element when the capacity of eight is reached.
#[verifier::external_body]
fn ring_push(r: &mut ringbuffer::ConstGenericRingBuffer<u32, 8>, value: u32)
    ensures
        ring_contents(final(r)) == spec_push8(ring_contents(old(r)), value),
{
    r.enqueue(value);
}

/// Relies on RingBuffer::iter: yields the held values oldest first.
#[verifier::external_body]
fn ring_values(r: &ringbuffer::ConstGenericRingBuffer<u32, 8>) -> (v: Vec<u32>)
    ensures
        v@ == ring_contents(r),
{
    r.iter().copied().collect()
}

/// Mathematical image of the oracle port engine.
pub struct OracleView {
    pub connected: bool,
    /// A one-shot response length waiting to be read.
    pub pending_len: Option<u32>,
    /// The high half of the 64-bit unit currently being streamed.
    pub high_half: Option<u32>,
    /// The 64-bit units still to stream.
    pub remaining: Seq<u64>,
    /// The query being assembled, if one is open.
    pub query: Option<QueryBufferView>,
    /// The last eight written words, oldest first.
    pub history: Seq<u32>,
    /// The first unserviceable query seen, if any: a host-contract bug.
    pub fault: Option<u32>,
    pub uart_id: u32,
    pub disconnect_id: u32,
}

impl OracleView {
    pub open spec fn wf(self) -> bool {
        match self.query {
            Option::Some(q) => q.wf(),
            Option::None => true,
        }
    }
}

/// The value the next read of the port returns: the pending response
/// length first, then the stashed high half, then the low half of the
/// next unit; zero when disconnected or exhausted.
pub open spec fn spec_read_value(v: OracleView) -> u32 {
    if !v.connected {
        0u32
    } else {
        match v.pending_len {
            Option::Some(l) => l,
            Option::None => match v.high_half {
                Option::Some(h) => h,
                Option::None => if v.remaining.len() > 0 {
                    v.remaining[0] as u32
                } else {
                    0u32
                },
            },
        }
    }
}

/// The port image after one read.
pub open spec fn spec_read_next(v: OracleView) -> OracleView {
    if !v.connected {
        v
    } else {
        match v.pending_len {
            Option::Some(l) => OracleView { pending_len: Option::None, ..v },
            Option::None => match v.high_half {
                Option::Some(h) => OracleView { high_half: Option::None, ..v },
                Option::None => if v.remaining.len() > 0 {
                    OracleView {
                        remaining: v.remaining.drop_first(),
                        high_half: Option::Some((v.remaining[0] >> 32u64) as u32),
                        ..v
                    }
                } else {
                    v
                },
            },
        }
    }
}

/// The port image after a completed query was dispatched and the
/// processor answered `resp`: the response length (in 32-bit units) is
/// staged for the next read and the payload is staged for streaming. A
/// response too long for the 32-bit length register is a host-contract
/// bug and is recorded as a fault.
pub open spec fn spec_apply_response(v: OracleView, query_id: u32, resp: Option<Seq<u64>>) -> OracleView {
    match resp {
        Option::None => OracleView { pending_len: Option::Some(0u32), ..v },
        Option::Some(r) => {
            if r.len() > 0x7fff_ffff {
                OracleView { fault: Option::Some(query_id), ..v }
            } else {
                OracleView {
                    pending_len: Option::Some((2 * r.len()) as u32),
                    remaining: r,
                    ..v
                }
            }
        },
    }
}

/// Oracle framing: immediately after a completed query was answered with
/// `resp`, a read at the port returns the response length in 32-bit
/// units, twice the count of its 64-bit words.
pub proof fn lemma_oracle_framing(v: OracleView, query_id: u32, resp: Option<Seq<u64>>)
    requires
        v.connected,
        (match resp {
            Option::Some(r) => r.len() <= 0x7fff_ffff,
            Option::None => true,
        }),
    ensures
        spec_read_value(spec_apply_response(v, query_id, resp)) as int == (match resp {
            Option::Some(r) => 2 * (r.len() as int),
            Option::None => 0int,
        }),
{
}

/// The oracle port engine: a request buffer and a response iterator
/// rolled into one bidirectional CSR port, dispatching completed queries
/// to an attached processor.
pub struct ZkEENonDeterminismSource<M: MemorySource, P: OracleQueryProcessor<M>> {
    pub query_buffer: Option<QueryBuffer>,
    pub current_iterator: Option<VecDeque<u64>>,
    pub iterator_len_to_indicate: Option<u32>,
    pub high_half: Option<u32>,
    pub is_connected_to_external_oracle: bool,
    pub last_values_buffer: ringbuffer::ConstGenericRingBuffer<u32, 8>,
    pub processor: Option<P>,
    pub host_fault: Option<u32>,
    pub uart_query_id: u32,
    pub disconnect_query_id: u32,
    pub marker: core::marker::PhantomData<M>,
}

impl<M: MemorySource, P: OracleQueryProcessor<M>> View for ZkEENonDeterminismSource<M, P> {
    type V = OracleView;

    open spec fn view(&self) -> OracleView {
        OracleView {
            connected: self.is_connected_to_external_oracle,
            pending_len: self.iterator_len_to_indicate,
            high_half: self.high_half,
            remaining: match self.current_iterator {
                Option::Some(d) => d@,
                Option::None => Seq::empty(),
            },
            query: match self.query_buffer {
                Option::Some(q) => Option::Some(q@),
                Option::None => Option::None,
            },
            history: ring_contents(&self.last_values_buffer),
            fault: self.host_fault,
            uart_id: self.uart_query_id,
            disconnect_id: self.disconnect_query_id,
        }
    }
}

impl<M: MemorySource, P: OracleQueryProcessor<M>> ZkEENonDeterminismSource<M, P> {
    /// A fresh, disconnected engine. The two marker ids name the query
    /// that carries program output and the query that turns the port
    /// passive.
    pub fn new(uart_query_id: u32, disconnect_query_id: u32) -> (r: Self)
        ensures
            r@ == (OracleView {
                connected: false,
                pending_len: Option::None,
                high_half: Option::None,
                remaining: Seq::<u64>::empty(),
                query: Option::None,
                history: Seq::<u32>::empty(),
                fault: Option::None,
                uart_id: uart_query_id,
                disconnect_id: disconnect_query_id,
            }),
            r.processor is None,
    {
        let r = Self {
            query_buffer: None,
            current_iterator: None,
            iterator_len_to_indicate: None,
            high_half: None,
            is_connected_to_external_oracle: false,
            last_values_buffer: ring_new(),
            processor: None,
            host_fault: None,
            uart_query_id,
            disconnect_query_id,
            marker: core::marker::PhantomData,
        };
        r
    }

    /// Attach the processor that will answer completed queries; the
    /// engine counts as connected from here on.
    pub fn add_external_processor(&mut self, processor: P)
        ensures
            *final(self) == (ZkEENonDeterminismSource {
                processor: Option::Some(processor),
                is_connected_to_external_oracle: true,
                ..*old(self)
            }),
    {
        self.processor = Some(processor);
        self.is_connected_to_external_oracle = true;
    }

    /// The last eight words the guest wrote to the port, oldest first,
    /// zero-padded to eight.
    pub fn get_possible_program_output(&self) -> (r: [u32; 8])
        ensures
            forall|i: int|
                0 <= i < 8 ==> r@[i] == (if i < ring_contents(&self.last_values_buffer).len() {
                    ring_contents(&self.last_values_buffer)[i]
                } else {
                    0u32
                }),
    {
        let values = ring_values(&self.last_values_buffer);
        let mut result = [0u32;8];
        let mut i: usize = 0;
        while i < 8
            invariant
                i <= 8,
                values@ == ring_contents(&self.last_values_buffer),
                forall|j: int|
                    0 <= j < i ==> result@[j] == (if j < values@.len() {
                        values@[j]
                    } else {
                        0u32
                    }),
                forall|j: int| i <= j < 8 ==> result@[j] == 0u32,
            decreases 8 - i,
        {
            if i < values.len() {
                result[i] = values[i];
            }
            i = i + 1;
        }
        result
    }

    /// Whether the open query, if any, is in a consistent protocol state.
    fn wf_check(&self) -> (r: bool)
        ensures
            r == self@.wf(),
    {
        match &self.query_buffer {
            Some(q) => {
                let head_ok = match q.remaining_len {
                    Some(rem) => rem >= 1,
                    None => q.write_low && q.buffer.len() == 0,
                };
                head_ok && (q.write_low || q.buffer.len() >= 1)
            },
            None => true,
        }
    }
}

impl<M: MemorySource, P: OracleQueryProcessor<M>> NonDeterminismCSRSource<M> for ZkEENonDeterminismSource<M, P> {
    open spec fn read_result(&self) -> u32 {
        spec_read_value(self@)
    }

    open spec fn read_rel(&self, post: Self) -> bool {
        post@ == spec_read_next(self@) && post.processor == self.processor
    }

    /// One write at the port: the word joins the output history; any
    /// half-read response is dropped; the word then feeds the open query,
    /// or opens one (a disconnected engine only accepts the output
    /// marker). A completed query either disconnects the port, faults on
    /// an id nobody answers, or is dispatched to the processor.
    open spec fn write_rel(&self, mem: Seq<u32>, value: u32, post: Self) -> bool {
        self@.wf() ==> {
            let v = self@;
            let base = OracleView {
                history: spec_push8(v.history, value),
                pending_len: Option::None,
                high_half: Option::None,
                remaining: Seq::<u64>::empty(),
                ..v
            };
            match v.query {
                Option::None => {
                    if !v.connected && value != v.uart_id {
                        post@ == base && post.processor == self.processor
                    } else {
                        post@ == (OracleView {
                            query: Option::Some(
                                QueryBufferView {
                                    query_type: value,
                                    remaining_len: Option::None,
                                    write_low: true,
                                    buffer: Seq::<u64>::empty(),
                                },
                            ),
                            ..base
                        }) && post.processor == self.processor
                    }
                },
                Option::Some(qv) => {
                    let stepped = qv.spec_write(value);
                    if !stepped.1 {
                        post@ == (OracleView { query: Option::Some(stepped.0), ..base })
                            && post.processor == self.processor
                    } else {
                        let done = stepped.0;
                        if done.query_type == v.disconnect_id {
                            post@ == (OracleView {
                                query: Option::None,
                                connected: false,
                                ..base
                            }) && post.processor == self.processor
                        } else {
                            let unsupported = match self.processor {
                                Option::Some(p) => !p.spec_supports(done.query_type),
                                Option::None => true,
                            };
                            if unsupported {
                                post@ == (OracleView {
                                    query: Option::None,
                                    fault: Option::Some(done.query_type),
                                    ..base
                                }) && post.processor == self.processor
                            } else {
                                exists|resp: Option<Seq<u64>>|
                                    post@ == #[trigger] spec_apply_response(
                                        OracleView { query: Option::None, ..base },
                                        done.query_type,
                                        resp,
                                    )
                            }
                        }
                    }
                },
            }
        }
    }

    open spec fn spec_should_mock_reads_before_writes() -> bool {
        true
    }

    open spec fn spec_should_ignore_writes_after_reads() -> bool {
        true
    }

    fn should_mock_reads_before_writes() -> (r: bool) {
        true
    }

    fn should_ignore_writes_after_reads() -> (r: bool) {
        true
    }

    fn read(&mut self) -> (r: u32) {
        if !self.is_connected_to_external_oracle {
            return 0;
        }
        match self.iterator_len_to_indicate {
            Some(l) => {
                self.iterator_len_to_indicate = None;
                return l;
            },
            None => {},
        }
        match self.high_half {
            Some(h) => {
                self.high_half = None;
                return h;
            },
            None => {},
        }
        let it = self.current_iterator.take();
        match it {
            Some(mut deque) => {
                match deque.pop_front() {
                    Some(next) => {
                        let high = (next >> 32u64) as u32;
                        let low = next as u32;
                        self.high_half = Some(high);
                        if deque.len() > 0 {
                            self.current_iterator = Some(deque);
                        }
                        proof {
                            assert((match self.current_iterator {
                                Option::Some(d) => d@,
                                Option::None => Seq::<u64>::empty(),
                            }) =~= spec_read_next(old(self)@).remaining);
                            assert(self@ == spec_read_next(old(self)@));
                        }
                        low
                    },
                    None => {
                        proof {
                            assert((match self.current_iterator {
                                Option::Some(d) => d@,
                                Option::None => Seq::<u64>::empty(),
                            }) =~= spec_read_next(old(self)@).remaining);
                            assert(self@ == spec_read_next(old(self)@));
                        }
                        0
                    },
                }
            },
            None => 0,
        }
    }

    fn write_with_memory_access(&mut self, memory: &M, value: u32) {
        if !self.wf_check() {
            return ;
        }
        ring_push(&mut self.last_values_buffer, value);
        self.current_iterator = None;
        self.iterator_len_to_indicate = None;
        self.high_half = None;
        let qb = self.query_buffer.take();
        match qb {
            Some(mut buffer) => {
                let complete = buffer.write(value);
                if !complete {
                    self.query_buffer = Some(buffer);
                } else {
                    let query_id = buffer.query_type;
                    if query_id == self.disconnect_query_id {
                        self.is_connected_to_external_oracle = false;
                    } else {
                        let supported = match &self.processor {
                            Some(p) => p.supports_query_id(query_id),
                            None => false,
                        };
                        if !supported {
                            self.host_fault = Some(query_id);
                        } else {
                            let mut p_opt = self.processor.take();
                            let resp = match p_opt {
                                Some(mut p) => {
                                    let r = p.process_buffered_query(
                                        query_id,
                                        buffer.buffer,
                                        memory,
                                    );
                                    self.processor = Some(p);
                                    r
                                },
                                None => None,
                            };
                            let ghost resp_view: Option<Seq<u64>> = match &resp {
                                Some(d) => Option::Some(d@),
                                None => Option::None,
                            };
                            match resp {
                                Some(d) => {
                                    if d.len() > 0x7fff_ffffusize {
                                        self.host_fault = Some(query_id);
                                    } else {
                                        self.iterator_len_to_indicate = Some((d.len() * 2) as u32);
                                        self.current_iterator = Some(d);
                                    }
                                },
                                None => {
                                    self.iterator_len_to_indicate = Some(0);
                                },
                            }
                            proof {
                                let v0 = old(self)@;
                                let base2 = OracleView {
                                    history: spec_push8(v0.history, value),
                                    pending_len: Option::None,
                                    high_half: Option::None,
                                    remaining: Seq::<u64>::empty(),
                                    query: Option::None,
                                    ..v0
                                };
                                assert(self@.remaining =~= spec_apply_response(
                                    base2,
                                    query_id,
                                    resp_view,
                                ).remaining);
                                assert(self@ == spec_apply_response(base2, query_id, resp_view));
                                assert(exists|resp: Option<Seq<u64>>|
                                    self@ == #[trigger] spec_apply_response(
                                        base2,
                                        query_id,
                                        resp,
                                    ));
                            }
                        }
                    }
                }
            },
            None => {
                if !self.is_connected_to_external_oracle && value != self.uart_query_id {
                } else {
                    self.query_buffer = Some(QueryBuffer::empty_for_query_type(value));
                }
            },
        }
    }
}

/// A processor that replays pre-loaded responses in order: it accepts
/// the listed query ids and answers each completed query with the next
/// queued response. This is the processor a test driver attaches; a
/// production driver attaches one backed by its witness oracle.
pub struct ReplayQueryProcessor {
    pub supported: Vec<u32>,
    pub responses: VecDeque<VecDeque<u64>>,
}

impl ReplayQueryProcessor {
    pub fn new(supported: Vec<u32>) -> (r: Self)
        ensures
            r.supported@ == supported@,
            r.responses@.len() == 0,
    {
        Self { supported, responses: VecDeque::new() }
    }

    /// Queue one more response.
    pub fn push_response(&mut self, response: VecDeque<u64>)
        ensures
            final(self).responses@ == old(self).responses@.push(response),
            final(self).supported@ == old(self).supported@,
    {
        self.responses.push_back(response);
    }
}

impl<M: MemorySource> OracleQueryProcessor<M> for ReplayQueryProcessor {
    open spec fn spec_supports(&self, query_id: u32) -> bool {
        self.supported@.contains(query_id)
    }

    fn supported_query_ids(&self) -> (r: Vec<u32>) {
        let mut r: Vec<u32> = Vec::new();
        let mut i: usize = 0;
        while i < self.supported.len()
            invariant
                i <= self.supported@.len(),
                r@ == self.supported@.take(i as int),
            decreases self.supported@.len() - i,
        {
            r.push(self.supported[i]);
            proof {
                assert(r@ =~= self.supported@.take(i + 1));
            }
            i = i + 1;
        }
        r
    }

    fn supports_query_id(&self, query_id: u32) -> (r: bool) {
        let mut i: usize = 0;
        while i < self.supported.len()
            invariant
                i <= self.supported@.len(),
                forall|j: int| 0 <= j < i ==> self.supported@[j] != query_id,
            decreases self.supported@.len() - i,
        {
            if self.supported[i] == query_id {
                return true;
            }
            i = i + 1;
        }
        false
    }

    fn process_buffered_query(&mut self, query_id: u32, query: Vec<u64>, memory: &M) -> (r: Option<
        VecDeque<u64>,
    >) {
        self.responses.pop_front()
    }
}

/// The 32-bit words of a query payload, low half then high half of each
/// 64-bit unit — the order the guest wrote them at the port.
pub open spec fn spec_payload_words(payload: Seq<u64>) -> Seq<u32> {
    Seq::new(
        2 * payload.len(),
        |i: int|
            if i % 2 == 0 {
                payload[i / 2] as u32
            } else {
                (payload[i / 2] >> 32u64) as u32
            },
    )
}

/// The bytes carried by the words after the first, little-endian.
pub open spec fn spec_payload_bytes(payload: Seq<u64>) -> Seq<u8> {
    let words = spec_payload_words(payload).drop_first();
    Seq::new(4 * words.len(), |j: int| (words[j / 4] >> (8 * (j % 4))) as u8)
}

/// How a program-output payload decodes: the first 32-bit word declares
/// the byte length, the remaining words carry the bytes, and the string
/// is the declared prefix. `None` when the payload is empty or declares
/// more bytes than it carries — a malformed query.
pub open spec fn spec_decode_uart_payload(payload: Seq<u64>) -> Option<Seq<u8>> {
    if payload.len() == 0 {
        Option::None
    } else {
        let declared = spec_payload_words(payload)[0];
        let bytes = spec_payload_bytes(payload);
        if declared > bytes.len() {
            Option::None
        } else {
            Option::Some(bytes.take(declared as int))
        }
    }
}

/// Decode a completed program-output query: the payload is a
/// length-prefixed byte string. The host prints what this hands back.
#[verifier::rlimit(100)]
pub fn decode_uart_payload(payload: &Vec<u64>) -> (r: Option<Vec<u8>>)
    ensures
        (match (r, spec_decode_uart_payload(payload@)) {
            (Option::Some(v), Option::Some(s)) => v@ == s,
            (Option::None, Option::None) => true,
            _ => false,
        }),
{
    let n = payload.len();
    if n == 0 {
        return None;
    }
    let declared = payload[0] as u32;
    let mut bytes: Vec<u8> = Vec::new();
    let mut i: usize = 0;
    while i < n
        invariant
            i <= n,
            n == payload@.len(),
            n >= 1,
            bytes@.len() == (if i == 0 {
                0int
            } else {
                8 * i - 4
            }),
            forall|j: int|
                0 <= j < bytes@.len() ==> bytes@[j] == spec_payload_bytes(payload@)[j],
        decreases n - i,
    {
        if i == 0 {
            let word = (payload[0] >> 32u64) as u32;
            push_word_bytes(&mut bytes, word);
            proof {
                lemma_payload_word_bytes(payload@, 0);
            }
        } else {
            let low = payload[i] as u32;
            push_word_bytes(&mut bytes, low);
            proof {
                lemma_payload_word_bytes(payload@, 2 * i - 1);
            }
            let high = (payload[i] >> 32u64) as u32;
            push_word_bytes(&mut bytes, high);
            proof {
                lemma_payload_word_bytes(payload@, 2 * i);
            }
        }
        i = i + 1;
    }
    proof {
        assert(bytes@ =~= spec_payload_bytes(payload@));
    }
    if declared as usize > bytes.len() {
        return None;
    }
    bytes.truncate(declared as usize);
    proof {
        assert(bytes@ =~= spec_payload_bytes(payload@).take(declared as int));
    }
    Some(bytes)
}

/// Append the four little-endian bytes of a word.
fn push_word_bytes(bytes: &mut Vec<u8>, word: u32)
    ensures
        final(bytes)@ == old(bytes)@ + seq![
            word as u8,
            (word >> 8u32) as u8,
            (word >> 16u32) as u8,
            (word >> 24u32) as u8,
        ],
{
    bytes.push(word as u8);
    bytes.push((word >> 8u32) as u8);
    bytes.push((word >> 16u32) as u8);
    bytes.push((word >> 24u32) as u8);
    proof {
        assert(bytes@ =~= old(bytes)@ + seq![
            word as u8,
            (word >> 8u32) as u8,
            (word >> 16u32) as u8,
            (word >> 24u32) as u8,
        ]);
    }
}

/// The four bytes at positions 4d..4d+4 of the payload byte stream are
/// the little-endian bytes of dropped word `d`.
proof fn lemma_payload_word_bytes(payload: Seq<u64>, d: int)
    requires
        0 <= d < 2 * payload.len() - 1,
    ensures
        ({
            let word = spec_payload_words(payload)[d + 1];
            &&& spec_payload_bytes(payload)[4 * d] == word as u8
            &&& spec_payload_bytes(payload)[4 * d + 1] == (word >> 8u32) as u8
            &&& spec_payload_bytes(payload)[4 * d + 2] == (word >> 16u32) as u8
            &&& spec_payload_bytes(payload)[4 * d + 3] == (word >> 24u32) as u8
        }),
{
    let word = spec_payload_words(payload)[d + 1];
    assert((4 * d) / 4 == d && (4 * d) % 4 == 0);
    assert((4 * d + 1) / 4 == d && (4 * d + 1) % 4 == 1);
    assert((4 * d + 2) / 4 == d && (4 * d + 2) % 4 == 2);
    assert((4 * d + 3) / 4 == d && (4 * d + 3) % 4 == 3);
    lemma_shift_zero(word);
}

proof fn lemma_shift_zero(word: u32)
    by (bit_vector)
    ensures
        (word >> 0u32) as u8 == word as u8,
{
}

} // verus!
