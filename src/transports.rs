//! Session rules over a transport: message ids, the correlation of responses
//! to requests, the single bulk transfer, chunking, and the polling steps.
//!
//! The functions here decide; the caller performs the sends and waits they
//! ask for and hands back what came in.
use crate::protocol::{
    push_bytes, AvocadoPacket, ContentType, EncodingType, EncryptionMode, InteractionType,
    PacketView, PROTOCOL_VERSION,
};
use crate::endian::u32_le_bytes;
use crate::states::{JobState, JobStatusInfo};
use std::collections::HashMap;
use vstd::bytes::spec_u32_to_le_bytes;
use vstd::prelude::*;
use vstd::slice::slice_subrange;

verus! {

broadcast use vstd::std_specs::hash::group_hash_axioms;

/// Largest payload of a data frame, job id prefix included.
pub const MAX_DATA_SIZE: usize = 896;

/// Bytes of the transferred data that one data frame carries.
pub const CHUNK_SIZE: usize = 892;

/// The transport's connection status.
#[derive(Clone, Copy, Debug, PartialEq, Eq, Structural, Hash)]
pub enum TransportStatus {
    Connecting,
    Connected,
    Disconnecting,
    Disconnected,
}

/// A device that a transport found.
#[derive(Clone, Debug)]
pub struct DiscoveredDevice {
    /// The primary name of the device.
    pub name: String,
    /// An optional detail about the device.
    pub details: Option<String>,
}

/// A transport that writes nowhere and reports every write as done at once.
#[derive(Clone, Copy, Debug, Default)]
pub struct MockTransport {}

impl MockTransport {
    pub fn name(&self) -> (r: &'static str)
        ensures
            r@ == "Mock"@,
    {
        "Mock"
    }

    pub fn supports_discovery(&self) -> (r: bool)
        ensures
            !r,
    {
        false
    }
}

/// The transports the application can drive.
#[derive(Clone, Copy, Debug)]
pub enum Transport {
    MockTransport(MockTransport),
}

impl Transport {
    pub fn name(&self) -> (r: &'static str)
        ensures
            self is MockTransport ==> r@ == "Mock"@,
    {
        match self {
            Transport::MockTransport(t) => t.name(),
        }
    }

    pub fn supports_discovery(&self) -> (r: bool)
        ensures
            self is MockTransport ==> !r,
    {
        match self {
            Transport::MockTransport(t) => t.supports_discovery(),
        }
    }
}

/// Source of message ids: each id is handed out once, in increasing order.
pub struct MessageIds {
    next: u32,
    issued: Ghost<Seq<u32>>,
}

impl MessageIds {
    /// The ids handed out rise strictly, and all lie below the next one.
    pub closed spec fn wf(&self) -> bool {
        &&& self.next >= 1
        &&& forall|i: int, j: int|
            0 <= i < j < self.issued@.len() ==> self.issued@[i] < self.issued@[j]
        &&& forall|i: int| 0 <= i < self.issued@.len() ==> self.issued@[i] < self.next
    }

    /// The id the next call hands out.
    pub closed spec fn next_id(&self) -> u32 {
        self.next
    }

    /// The ids handed out so far, in order.
    pub closed spec fn issued(&self) -> Seq<u32> {
        self.issued@
    }

    /// A counter that starts at 1.
    pub fn new() -> (r: MessageIds)
        ensures
            r.wf(),
            r.next_id() == 1,
            r.issued() == Seq::<u32>::empty(),
    {
        MessageIds { next: 1, issued: Ghost(Seq::empty()) }
    }

    /// How many ids are left to hand out.
    pub fn available(&self) -> (r: u32)
        ensures
            r == u32::MAX - self.next_id(),
    {
        u32::MAX - self.next
    }

    /// Hands out the next id.
    pub fn next_message_id(&mut self) -> (r: u32)
        requires
            old(self).wf(),
            old(self).next_id() < u32::MAX,
        ensures
            final(self).wf(),
            r == old(self).next_id(),
            final(self).next_id() == r + 1,
            final(self).issued() == old(self).issued().push(r),
    {
        let id = self.next;
        self.next = self.next + 1;
        self.issued = Ghost(self.issued@.push(id));
        id
    }
}

/// Every two ids a counter has handed out differ, the earlier one being smaller.
pub proof fn lemma_ids_strictly_increase(ids: &MessageIds)
    requires
        ids.wf(),
    ensures
        forall|i: int, j: int|
            0 <= i < j < ids.issued().len() ==> ids.issued()[i] < ids.issued()[j],
        forall|i: int| 0 <= i < ids.issued().len() ==> ids.issued()[i] < ids.next_id(),
{
}

/// Proof that the bulk-transfer flag was taken; handed back to release it.
pub struct SendingDropGuard {
    _token: (),
}

impl SendingDropGuard {
    /// Takes the flag if it was clear; `None`, with the flag left set, where
    /// a transfer already holds it.
    pub fn new(sending: &mut bool) -> (r: Option<SendingDropGuard>)
        ensures
            r is Some <==> !*old(sending),
            *final(sending),
    {
        if *sending {
            return None;
        }
        *sending = true;
        Some(SendingDropGuard { _token: () })
    }

    /// Clears the flag.
    pub fn release(self, sending: &mut bool)
        ensures
            !*final(sending),
    {
        *sending = false;
    }
}

/// Why a bulk transfer did not start.
#[derive(Clone, Copy, Debug, PartialEq, Eq, Structural, Hash)]
pub enum SendError {
    /// Another transfer holds the flag.
    AlreadySending,
    /// The data needs more chunks than the 16-bit chunk count can number.
    TooLarge,
    /// Fewer message ids are left than the data needs chunks.
    IdsExhausted,
}

/// Why a bulk transfer of `len` bytes is refused, if it is: the sending flag
/// is set, the chunk count exceeds 16 bits, or fewer than that many message
/// ids are `available`.
pub open spec fn send_refusal(sending: bool, len: nat, available: nat) -> Option<SendError> {
    if sending {
        Some(SendError::AlreadySending)
    } else if chunk_count(len) > 65535 {
        Some(SendError::TooLarge)
    } else if chunk_count(len) > available {
        Some(SendError::IdsExhausted)
    } else {
        None
    }
}

/// Number of data frames that carry `len` bytes.
pub open spec fn chunk_count(len: nat) -> nat {
    ((len + CHUNK_SIZE - 1) / (CHUNK_SIZE as int)) as nat
}

/// The bytes of `data` that chunk `i` carries.
pub open spec fn chunk_of(data: Seq<u8>, i: int) -> Seq<u8> {
    let end = if (i + 1) * CHUNK_SIZE <= data.len() {
        (i + 1) * CHUNK_SIZE
    } else {
        data.len() as int
    };
    data.subrange(i * CHUNK_SIZE, end)
}

/// Data frame `i` of `count` for job `job_id`, with message id `id`.
pub open spec fn data_frame(job_id: u32, data: Seq<u8>, i: int, count: nat, id: u32) -> PacketView {
    PacketView {
        version: PROTOCOL_VERSION,
        content_type: ContentType::Data,
        interaction_type: InteractionType::Request,
        encoding_type: EncodingType::Hexadecimal,
        encryption_mode: EncryptionMode::Unencrypted,
        terminal_id: id,
        msg_number: id,
        msg_package_total: count as u16,
        msg_package_num: (i + 1) as u16,
        is_subpackage: count > 1,
        data: spec_u32_to_le_bytes(job_id) + chunk_of(data, i),
    }
}

/// The chunks `0..k` of `data`, joined.
pub open spec fn joined_chunks(data: Seq<u8>, k: nat) -> Seq<u8>
    decreases k,
{
    if k == 0 {
        Seq::empty()
    } else {
        joined_chunks(data, (k - 1) as nat) + chunk_of(data, k - 1)
    }
}

proof fn lemma_joined_prefix(data: Seq<u8>, k: nat)
    requires
        k * CHUNK_SIZE <= data.len() + CHUNK_SIZE - 1,
    ensures
        joined_chunks(data, k) == data.subrange(
            0,
            if k * CHUNK_SIZE <= data.len() {
                k * CHUNK_SIZE
            } else {
                data.len() as int
            },
        ),
    decreases k,
{
    if k == 0 {
        assert(data.subrange(0, 0) =~= Seq::<u8>::empty());
    } else {
        lemma_joined_prefix(data, (k - 1) as nat);
        let prev_end = (k - 1) * CHUNK_SIZE;
        assert(prev_end <= data.len());
        assert(joined_chunks(data, k) =~= data.subrange(
            0,
            if k * CHUNK_SIZE <= data.len() {
                k * CHUNK_SIZE
            } else {
                data.len() as int
            },
        ));
    }
}

/// A payload of `k` full chunks and `r` more bytes takes `k` data frames, one
/// more where `r > 0`; every chunk holds at most `CHUNK_SIZE` bytes, and the
/// chunks, joined in order, give back the payload.
pub proof fn lemma_chunks_reassemble(data: Seq<u8>, k: nat, r: nat)
    requires
        data.len() == k * CHUNK_SIZE + r,
        r < CHUNK_SIZE,
    ensures
        chunk_count(data.len()) == k + if r > 0 {
            1nat
        } else {
            0nat
        },
        forall|i: int|
            0 <= i < chunk_count(data.len()) ==> (#[trigger] chunk_of(data, i)).len()
                <= CHUNK_SIZE,
        joined_chunks(data, chunk_count(data.len())) == data,
{
    let c = chunk_count(data.len());
    assert(c == k + if r > 0 {
        1nat
    } else {
        0nat
    }) by (nonlinear_arith)
        requires
            data.len() == k * 892 + r,
            r < 892,
            c == (data.len() + 891) / 892,
    ;
    assert(c * 892 <= data.len() + 891) by (nonlinear_arith)
        requires
            c == (data.len() + 891) / 892,
    ;
    assert(c * 892 >= data.len()) by (nonlinear_arith)
        requires
            c == (data.len() + 891) / 892,
    ;
    lemma_joined_prefix(data, c);
    assert(data.subrange(0, data.len() as int) =~= data);
    assert forall|i: int| 0 <= i < c implies (#[trigger] chunk_of(data, i)).len() <= CHUNK_SIZE by {
        assert(i * 892 <= data.len()) by (nonlinear_arith)
            requires
                0 <= i < c,
                c * 892 <= data.len() + 891,
        ;
    }
}

/// Which step a status poller takes on its next tick.
#[derive(Clone, Copy, Debug, PartialEq, Eq, Structural, Hash)]
pub enum StatusPoll {
    /// The link has not been connected yet: poll nothing.
    NotReady,
    /// A bulk transfer holds the link: skip this tick.
    Skip,
    /// Ask for the printer's status under this message id.
    Request(u32),
    /// No message id is left: polling ends.
    Stop,
}

/// What a job poll response leads to.
#[derive(Clone, Debug)]
pub struct JobPollStep {
    /// The job status to report, if the response held one.
    pub status: Option<JobStatusInfo>,
    /// Whether polling ends here.
    pub finished: bool,
}

/// Job states of a decoded status list, in order.
pub open spec fn job_states(infos: Seq<JobStatusInfo>) -> Seq<JobState> {
    infos.map_values(|i: JobStatusInfo| i.job_state)
}

/// Whether the poll step on a response ends polling: a response that does not
/// decode ends it, an empty list does not, and otherwise the last state decides.
pub open spec fn poll_finishes(resp: Option<Seq<JobState>>) -> bool {
    match resp {
        None => true,
        Some(s) => s.len() > 0 && s.last().spec_is_terminal(),
    }
}

/// Whether the poll step on a response reports a status.
pub open spec fn poll_reports(resp: Option<Seq<JobState>>) -> bool {
    match resp {
        None => false,
        Some(s) => s.len() > 0,
    }
}

/// Iterations a poll loop runs on the scripted responses `rs`, and statuses it
/// reports: it stops after the first response that finishes polling, or when
/// the responses run out.
pub open spec fn poll_run(rs: Seq<Option<Seq<JobState>>>) -> (nat, nat)
    decreases rs.len(),
{
    if rs.len() == 0 {
        (0, 0)
    } else {
        let reported: nat = if poll_reports(rs[0]) {
            1
        } else {
            0
        };
        if poll_finishes(rs[0]) {
            (1, reported)
        } else {
            let rest = poll_run(rs.drop_first());
            (rest.0 + 1, rest.1 + reported)
        }
    }
}

/// Responses that each hold a non-empty status list, the first `n - 1` of them
/// non-terminal and the `n`-th terminal, make polling stop after exactly `n`
/// iterations having reported `n` statuses, whatever responses follow.
pub proof fn lemma_poll_stops_at_terminal(rs: Seq<Option<Seq<JobState>>>, n: nat)
    requires
        0 < n <= rs.len(),
        forall|i: int| 0 <= i < n ==> (#[trigger] rs[i]) is Some && rs[i]->Some_0.len() > 0,
        forall|i: int| 0 <= i < n - 1 ==> !(#[trigger] rs[i])->Some_0.last().spec_is_terminal(),
        rs[n - 1]->Some_0.last().spec_is_terminal(),
    ensures
        poll_run(rs) == (n, n),
    decreases n,
{
    if n > 1 {
        let t = rs.drop_first();
        assert forall|i: int| 0 <= i < n - 1 implies (#[trigger] t[i]) is Some && t[i]->Some_0.len()
            > 0 by {
            assert(t[i] == rs[i + 1]);
        }
        assert forall|i: int| 0 <= i < n - 2 implies !(#[trigger] t[i])->Some_0.last().spec_is_terminal() by {
            assert(t[i] == rs[i + 1]);
        }
        assert(t[n - 2] == rs[n - 1]);
        lemma_poll_stops_at_terminal(t, (n - 1) as nat);
        assert(rs[0] == rs[0]);
    }
}

/// Decoded job states of a job poll response, if it decoded.
pub open spec fn response_states(response: Option<Vec<JobStatusInfo>>) -> Option<Seq<JobState>> {
    match response {
        Some(v) => Some(job_states(v@)),
        None => None,
    }
}

/// Two requests registered under different ids and answered in either order
/// each receive their own completion slot, never the other's.
pub proof fn lemma_correlation<T>(pending: Map<u32, T>, a: u32, slot_a: T, b: u32, slot_b: T)
    requires
        a != b,
    ensures
        ({
            let both = pending.insert(a, slot_a).insert(b, slot_b);
            &&& both.contains_key(b) && both[b] == slot_b
            &&& both.remove(b).contains_key(a) && both.remove(b)[a] == slot_a
            &&& both.contains_key(a) && both[a] == slot_a
            &&& both.remove(a).contains_key(b) && both.remove(a)[b] == slot_b
        }),
{
}

/// The decisions of one device session. `T` is the completion slot that a
/// waiting request is resumed through.
pub struct TransportManager<T> {
    pending: HashMap<u32, T>,
    sending: bool,
    ready: bool,
    status: TransportStatus,
}

impl<T> TransportManager<T> {
    /// Requests waiting for a response, by message id.
    pub closed spec fn pending(&self) -> Map<u32, T> {
        self.pending@
    }

    /// Whether a bulk transfer holds the link.
    pub closed spec fn sending(&self) -> bool {
        self.sending
    }

    /// Whether the link has been connected once, which starts status polling.
    pub closed spec fn ready(&self) -> bool {
        self.ready
    }

    /// The last connection status seen.
    pub closed spec fn status(&self) -> TransportStatus {
        self.status
    }

    /// A session on a link that is not connected yet.
    pub fn new() -> (r: TransportManager<T>)
        ensures
            r.pending() == Map::<u32, T>::empty(),
            !r.sending(),
            !r.ready(),
            r.status() == TransportStatus::Disconnected,
    {
        TransportManager {
            pending: HashMap::new(),
            sending: false,
            ready: false,
            status: TransportStatus::Disconnected,
        }
    }

    pub fn is_sending(&self) -> (r: bool)
        ensures
            r == self.sending(),
    {
        self.sending
    }

    pub fn is_ready(&self) -> (r: bool)
        ensures
            r == self.ready(),
    {
        self.ready
    }

    pub fn current_status(&self) -> (r: TransportStatus)
        ensures
            r == self.status(),
    {
        self.status
    }

    /// Registers `slot` to receive the response to `packet`, under the
    /// packet's message id; the caller then sends the packet and waits on the
    /// slot. A slot registered earlier under the same id is replaced.
    pub fn wait_for_response(&mut self, packet: &AvocadoPacket, slot: T)
        ensures
            final(self).pending() == old(self).pending().insert(packet.msg_number, slot),
            final(self).sending() == old(self).sending(),
            final(self).ready() == old(self).ready(),
            final(self).status() == old(self).status(),
    {
        let _ = self.pending.insert(packet.msg_number, slot);
    }

    /// Takes the slot waiting for the response with application id `id`:
    /// `None`, with nothing changed, where no request waits under `id`.
    pub fn handle_response(&mut self, id: u32) -> (r: Option<T>)
        ensures
            old(self).pending().contains_key(id) ==> r == Some(old(self).pending()[id]),
            !old(self).pending().contains_key(id) ==> r is None,
            final(self).pending() == old(self).pending().remove(id),
            final(self).sending() == old(self).sending(),
            final(self).ready() == old(self).ready(),
            final(self).status() == old(self).status(),
    {
        self.pending.remove(&id)
    }

    /// Records a connection status. Returns whether this is the first
    /// `Connected`, the moment status polling starts.
    pub fn handle_status(&mut self, status: TransportStatus) -> (r: bool)
        ensures
            r == (status == TransportStatus::Connected && !old(self).ready()),
            final(self).ready() == (old(self).ready() || status == TransportStatus::Connected),
            final(self).status() == status,
            final(self).pending() == old(self).pending(),
            final(self).sending() == old(self).sending(),
    {
        self.status = status;
        if status == TransportStatus::Connected && !self.ready {
            self.ready = true;
            true
        } else {
            false
        }
    }

    /// Starts tearing the link down; returns the status to announce.
    pub fn disconnect(&mut self) -> (r: TransportStatus)
        ensures
            r == TransportStatus::Disconnecting,
            final(self).status() == TransportStatus::Disconnecting,
            final(self).ready() == old(self).ready(),
            final(self).pending() == old(self).pending(),
            final(self).sending() == old(self).sending(),
    {
        self.status = TransportStatus::Disconnecting;
        TransportStatus::Disconnecting
    }

    /// The status poller's step on a tick: nothing before the link was
    /// connected, a skipped tick while a bulk transfer holds the link, else a
    /// request under a fresh id. With no id left the poller stops.
    pub fn status_poll(&self, ids: &mut MessageIds) -> (r: StatusPoll)
        requires
            old(ids).wf(),
        ensures
            final(ids).wf(),
            !self.ready() ==> r == StatusPoll::NotReady && *final(ids) == *old(ids),
            self.ready() && self.sending() ==> r == StatusPoll::Skip && *final(ids) == *old(
                ids,
            ),
            self.ready() && !self.sending() && old(ids).next_id() == u32::MAX ==> r
                == StatusPoll::Stop && *final(ids) == *old(ids),
            self.ready() && !self.sending() && old(ids).next_id() < u32::MAX ==> {
                &&& r == StatusPoll::Request(old(ids).next_id())
                &&& final(ids).next_id() == old(ids).next_id() + 1
                &&& final(ids).issued() == old(ids).issued().push(old(ids).next_id())
            },
    {
        if !self.ready {
            StatusPoll::NotReady
        } else if self.sending {
            StatusPoll::Skip
        } else if ids.available() == 0 {
            StatusPoll::Stop
        } else {
            StatusPoll::Request(ids.next_message_id())
        }
    }

    /// Starts a bulk transfer of `data` for job `job_id`: takes the sending
    /// flag and returns the data frames to send in order, one fresh message id
    /// each. Fails, changing nothing, where a transfer already runs, where the
    /// chunk count does not fit 16 bits, or where too few ids are left.
    pub fn send_data(&mut self, ids: &mut MessageIds, job_id: u32, data: &[u8]) -> (r: Result<
        (SendingDropGuard, Vec<AvocadoPacket>),
        SendError,
    >)
        requires
            old(ids).wf(),
        ensures
            final(ids).wf(),
            final(self).pending() == old(self).pending(),
            final(self).ready() == old(self).ready(),
            final(self).status() == old(self).status(),
            r is Ok <==> send_refusal(
                old(self).sending(),
                data@.len(),
                (u32::MAX - old(ids).next_id()) as nat,
            ) is None,
            r matches Err(e) ==> Some(e) == send_refusal(
                old(self).sending(),
                data@.len(),
                (u32::MAX - old(ids).next_id()) as nat,
            ),
            r is Err ==> final(self).sending() == old(self).sending() && *final(ids) == *old(ids),
            r is Ok ==> !old(self).sending() && final(self).sending(),
            match r {
                Ok((_, packets)) => {
                    &&& packets@.len() == chunk_count(data@.len())
                    &&& final(ids).next_id() == old(ids).next_id() + packets@.len()
                    &&& forall|i: int|
                        0 <= i < packets@.len() ==> (#[trigger] packets@[i])@ == data_frame(
                            job_id,
                            data@,
                            i,
                            chunk_count(data@.len()),
                            (old(ids).next_id() + i) as u32,
                        )
                },
                Err(_) => true,
            },
    {
        if self.sending {
            return Err(SendError::AlreadySending);
        }
        let len = data.len();
        let count: usize = len / CHUNK_SIZE + if len % CHUNK_SIZE > 0 {
            1
        } else {
            0
        };
        assert(count == chunk_count(len as nat)) by (nonlinear_arith)
            requires
                count == len / 892 + if len % 892 > 0 {
                    1int
                } else {
                    0int
                },
        ;
        if count > 65535 {
            return Err(SendError::TooLarge);
        }
        if count > ids.available() as usize {
            return Err(SendError::IdsExhausted);
        }
        let guard = match SendingDropGuard::new(&mut self.sending) {
            Some(g) => g,
            None => return Err(SendError::AlreadySending),
        };
        assert(count * 892 <= len + 891) by (nonlinear_arith)
            requires
                count == (len + 891) / 892,
        ;
        let ghost first = ids.next_id();
        let mut packets: Vec<AvocadoPacket> = Vec::new();
        let mut i: usize = 0;
        let mut start: usize = 0;
        while i < count
            invariant
                ids.wf(),
                count == chunk_count(data@.len()),
                count <= 65535,
                count <= u32::MAX - first,
                count * 892 <= len + 891,
                len == data@.len(),
                i <= count,
                start == i * CHUNK_SIZE,
                ids.next_id() == first + i,
                packets@.len() == i,
                forall|j: int|
                    0 <= j < i ==> (#[trigger] packets@[j])@ == data_frame(
                        job_id,
                        data@,
                        j,
                        count as nat,
                        (first + j) as u32,
                    ),
            decreases count - i,
        {
            assert(start < len) by (nonlinear_arith)
                requires
                    i < count,
                    count * 892 <= len + 891,
                    start == i * 892,
            ;
            let end = if start + CHUNK_SIZE <= len {
                start + CHUNK_SIZE
            } else {
                len
            };
            let mut payload: Vec<u8> = Vec::new();
            push_bytes(&mut payload, &u32_le_bytes(job_id));
            push_bytes(&mut payload, slice_subrange(data, start, end));
            let id = ids.next_message_id();
            let packet = AvocadoPacket {
                version: PROTOCOL_VERSION,
                content_type: ContentType::Data,
                interaction_type: InteractionType::Request,
                encoding_type: EncodingType::Hexadecimal,
                encryption_mode: EncryptionMode::Unencrypted,
                terminal_id: id,
                msg_number: id,
                msg_package_total: count as u16,
                msg_package_num: (i + 1) as u16,
                is_subpackage: count > 1,
                data: payload,
            };
            assert(packet@ == data_frame(job_id, data@, i as int, count as nat, (first + i) as u32));
            packets.push(packet);
            i = i + 1;
            start = start + CHUNK_SIZE;
        }
        Ok((guard, packets))
    }

    /// Ends a bulk transfer: hands back its guard and clears the flag. Called
    /// on every way out of the transfer, failed ones included.
    pub fn finish_send(&mut self, guard: SendingDropGuard)
        ensures
            !final(self).sending(),
            final(self).pending() == old(self).pending(),
            final(self).ready() == old(self).ready(),
            final(self).status() == old(self).status(),
    {
        guard.release(&mut self.sending);
    }

    /// The job poller's step on a decoded `get-job-info` response (`None`
    /// where it did not decode): a response that does not decode ends polling;
    /// an empty list reports nothing and polling goes on; otherwise the last
    /// status is reported and polling ends where its state is terminal.
    pub fn job_poll_step(response: Option<Vec<JobStatusInfo>>) -> (r: JobPollStep)
        ensures
            r.finished == poll_finishes(response_states(response)),
            (r.status is Some) == poll_reports(response_states(response)),
            match response {
                Some(v) => v@.len() > 0 ==> r.status == Some(v@.last()),
                None => true,
            },
    {
        match response {
            None => JobPollStep { status: None, finished: true },
            Some(mut infos) => {
                let ghost all = infos@;
                match infos.pop() {
                    None => JobPollStep { status: None, finished: false },
                    Some(info) => {
                        assert(job_states(all).last() == info.job_state);
                        let finished = info.job_state.is_terminal();
                        JobPollStep { status: Some(info), finished }
                    },
                }
            },
        }
    }
}

/// While a transfer holds the sending flag a second one is refused with
/// `AlreadySending`; once the holder has finished and cleared the flag, a
/// transfer whose chunks fit is accepted again.
pub proof fn lemma_transfer_exclusive(len: nat, available: nat)
    ensures
        send_refusal(true, len, available) == Some(SendError::AlreadySending),
        chunk_count(len) <= 65535 && chunk_count(len) <= available ==> send_refusal(
            false,
            len,
            available,
        ) is None,
{
}

} // verus!
