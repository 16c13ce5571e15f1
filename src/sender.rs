use vstd::prelude::*;

use crate::api::{FileTransfer, TransferStatus};
use crate::error::ProtocolViolation;
use crate::message::{Message, TransferMessage};

verus! {

/// The reference chunk size of the transfer protocol: 64 KiB.
pub const CHUNK_SIZE: u64 = 65536;

/// The largest file the protocol can move: chunk indices are 32-bit.
pub const MAX_FILE_SIZE: u64 = 0xFFFF_FFFF_0000;

/// Where the sending side of a transfer stands.
#[derive(Clone, Copy, Debug, PartialEq, Eq, Structural)]
pub enum SendPhase {
    /// Created; the request is not out yet.
    Pending,
    /// The request is out; waiting for the receiver's answer.
    AwaitResponse,
    /// Accepted; the next chunk may be sent.
    Ready,
    /// A chunk of `len` bytes is out; waiting for its acknowledgment.
    AwaitAck { len: u64, is_last: bool },
    Completed,
    Failed,
}

/// The mathematical state of a sending transfer.
pub struct SendModel {
    pub id: Seq<char>,
    pub file_name: Seq<char>,
    pub file_size: u64,
    pub transferred: u64,
    pub chunk_index: u32,
    pub phase: SendPhase,
}

/// What a transfer in this sending phase reports to the host.
pub open spec fn send_status(p: SendPhase) -> TransferStatus {
    match p {
        SendPhase::Pending => TransferStatus::Pending,
        SendPhase::AwaitResponse => TransferStatus::Connecting,
        SendPhase::Ready => TransferStatus::Transferring,
        SendPhase::AwaitAck { .. } => TransferStatus::Transferring,
        SendPhase::Completed => TransferStatus::Completed,
        SendPhase::Failed => TransferStatus::Failed,
    }
}

/// The state of a sender that has just been created.
pub open spec fn send_initial(id: Seq<char>, file_name: Seq<char>, file_size: u64) -> SendModel {
    SendModel { id, file_name, file_size, transferred: 0, chunk_index: 0, phase: SendPhase::Pending }
}

/// How many bytes the next chunk carries when the file is read in full.
pub open spec fn send_read_len(s: SendModel) -> u64 {
    if s.file_size - s.transferred < CHUNK_SIZE {
        (s.file_size - s.transferred) as u64
    } else {
        CHUNK_SIZE
    }
}

/// Emitting the transfer request.
pub open spec fn send_request_step(s: SendModel) -> (SendModel, Result<Message, ProtocolViolation>) {
    if s.phase is Pending {
        (
            SendModel { phase: SendPhase::AwaitResponse, ..s },
            Ok(Message::TransferRequest { id: s.id, file_name: s.file_name, file_size: s.file_size }),
        )
    } else {
        (s, Err(ProtocolViolation::WrongPhase))
    }
}

/// Taking in the receiver's answer to the request.
pub open spec fn send_response_step(s: SendModel, m: Message) -> (SendModel, Result<(), ProtocolViolation>) {
    if !(s.phase is AwaitResponse) {
        (s, Err(ProtocolViolation::WrongPhase))
    } else {
        match m {
            Message::TransferResponse { id, accepted } if id == s.id => {
                if accepted {
                    (SendModel { phase: SendPhase::Ready, ..s }, Ok(()))
                } else {
                    (SendModel { phase: SendPhase::Failed, ..s }, Err(ProtocolViolation::Rejected))
                }
            },
            _ => (SendModel { phase: SendPhase::Failed, ..s }, Err(ProtocolViolation::UnexpectedMessage)),
        }
    }
}

/// Sending the bytes read for the next chunk. A read shorter than
/// `send_read_len` means the file ended: that chunk is the last one.
pub open spec fn send_chunk_step(s: SendModel, data: Seq<u8>) -> (SendModel, Result<Message, ProtocolViolation>) {
    if !(s.phase is Ready) {
        (s, Err(ProtocolViolation::WrongPhase))
    } else {
        let is_last = data.len() < send_read_len(s) || s.transferred + data.len() == s.file_size;
        (
            SendModel { phase: SendPhase::AwaitAck { len: data.len() as u64, is_last }, ..s },
            Ok(Message::DataChunk { id: s.id, chunk_index: s.chunk_index, data, is_last }),
        )
    }
}

/// Taking in the acknowledgment of the chunk that is out.
pub open spec fn send_ack_step(s: SendModel, m: Message) -> (SendModel, Result<Option<Message>, ProtocolViolation>) {
    match s.phase {
        SendPhase::AwaitAck { len, is_last } => {
            match m {
                Message::ChunkAck { id, chunk_index } if id == s.id && chunk_index == s.chunk_index => {
                    let t = (s.transferred + len) as u64;
                    if !is_last {
                        (
                            SendModel {
                                transferred: t,
                                chunk_index: (s.chunk_index + 1) as u32,
                                phase: SendPhase::Ready,
                                ..s
                            },
                            Ok(None),
                        )
                    } else if t == s.file_size {
                        (
                            SendModel { transferred: t, phase: SendPhase::Completed, ..s },
                            Ok(Some(Message::TransferComplete { id: s.id, success: true })),
                        )
                    } else {
                        (
                            SendModel { transferred: t, phase: SendPhase::Failed, ..s },
                            Err(ProtocolViolation::SizeMismatch { expected: s.file_size, got: t }),
                        )
                    }
                },
                _ => (SendModel { phase: SendPhase::Failed, ..s }, Err(ProtocolViolation::UnexpectedMessage)),
            }
        },
        _ => (s, Err(ProtocolViolation::WrongPhase)),
    }
}

/// Giving up after a transport failure: any unfinished transfer fails.
pub open spec fn send_abort_step(s: SendModel) -> SendModel {
    if s.phase is Completed || s.phase is Failed {
        s
    } else {
        SendModel { phase: SendPhase::Failed, ..s }
    }
}

/// The state a sender keeps between its steps. Every full chunk before the
/// current one was acknowledged, so the chunk index counts whole chunks.
pub open spec fn send_wf(s: SendModel) -> bool {
    &&& s.file_size <= MAX_FILE_SIZE
    &&& s.transferred <= s.file_size
    &&& (s.phase is Pending || s.phase is AwaitResponse) ==> s.transferred == 0 && s.chunk_index == 0
    &&& s.phase is Ready ==> {
        &&& s.chunk_index * CHUNK_SIZE == s.transferred
        &&& (s.transferred < s.file_size || s.transferred == 0)
    }
    &&& s.phase matches SendPhase::AwaitAck { len, is_last } ==> {
        &&& s.chunk_index * CHUNK_SIZE == s.transferred
        &&& s.transferred + len <= s.file_size
        &&& len <= CHUNK_SIZE
        &&& !is_last ==> len == CHUNK_SIZE && s.transferred + len < s.file_size
    }
    &&& s.phase is Completed ==> s.transferred == s.file_size
}

/// The content of a step result that carries a message.
pub open spec fn view_msg_result(r: Result<TransferMessage, ProtocolViolation>) -> Result<Message, ProtocolViolation> {
    match r {
        Ok(m) => Ok(m@),
        Err(v) => Err(v),
    }
}

/// The content of a step result that may carry a message.
pub open spec fn view_opt_msg_result(r: Result<Option<TransferMessage>, ProtocolViolation>) -> Result<Option<Message>, ProtocolViolation> {
    match r {
        Ok(Some(m)) => Ok(Some(m@)),
        Ok(None) => Ok(None),
        Err(v) => Err(v),
    }
}

proof fn lemma_next_index_fits(c: u32, t: u64, size: u64)
    requires
        c * CHUNK_SIZE + CHUNK_SIZE == t,
        t < size,
        size <= MAX_FILE_SIZE,
    ensures
        c + 1 < 0xFFFF_FFFFu32,
        (c + 1) * CHUNK_SIZE == t,
{
    assert(c + 1 < 0xFFFF_FFFFu32 && (c + 1) * 65536 == t) by (nonlinear_arith)
        requires
            c * 65536 + 65536 == t,
            t < size,
            size <= 0xFFFF_FFFF_0000u64,
    ;
}

/// The sending side of one transfer: the lock-step protocol's decisions,
/// with the file and the session left to the caller.
pub struct SendSession {
    id: String,
    file_name: String,
    file_size: u64,
    transferred: u64,
    chunk_index: u32,
    phase: SendPhase,
}

impl View for SendSession {
    type V = SendModel;

    closed spec fn view(&self) -> SendModel {
        SendModel {
            id: self.id@,
            file_name: self.file_name@,
            file_size: self.file_size,
            transferred: self.transferred,
            chunk_index: self.chunk_index,
            phase: self.phase,
        }
    }
}

/// Relies on `uuid::Uuid::new_v4` and its `Display`: a fresh random UUID,
/// written in the hyphenated form of 36 characters.
#[verifier::external_body]
fn new_transfer_id() -> (r: String)
    ensures
        r@.len() == 36,
{
    uuid::Uuid::new_v4().to_string()
}

impl SendSession {
    /// Starts a transfer of `file_size` bytes under a freshly drawn id.
    pub fn open(file_name: String, file_size: u64) -> (r: SendSession)
        requires
            file_size <= MAX_FILE_SIZE,
        ensures
            r@ == send_initial(r@.id, file_name@, file_size),
            r@.id.len() == 36,
            send_wf(r@),
    {
        SendSession::new(new_transfer_id(), file_name, file_size)
    }

    /// Starts a transfer of `file_size` bytes under the sender-chosen `id`.
    pub fn new(id: String, file_name: String, file_size: u64) -> (r: SendSession)
        requires
            file_size <= MAX_FILE_SIZE,
        ensures
            r@ == send_initial(id@, file_name@, file_size),
            send_wf(r@),
    {
        SendSession { id, file_name, file_size, transferred: 0, chunk_index: 0, phase: SendPhase::Pending }
    }

    pub fn phase(&self) -> (r: SendPhase)
        ensures
            r == self@.phase,
    {
        self.phase
    }

    pub fn transferred(&self) -> (r: u64)
        ensures
            r == self@.transferred,
    {
        self.transferred
    }

    /// The number of bytes to read from the file for the next chunk.
    pub fn read_len(&self) -> (r: u64)
        requires
            send_wf(self@),
        ensures
            r == send_read_len(self@),
    {
        let rest = self.file_size - self.transferred;
        if rest < CHUNK_SIZE {
            rest
        } else {
            CHUNK_SIZE
        }
    }

    /// The transfer record that the host polls.
    pub fn transfer(&self) -> (r: FileTransfer)
        ensures
            r.id@ == self@.id,
            r.file_name@ == self@.file_name,
            r.file_size == self@.file_size,
            r.transferred_bytes == self@.transferred,
            r.status == send_status(self@.phase),
    {
        let status = match self.phase {
            SendPhase::Pending => TransferStatus::Pending,
            SendPhase::AwaitResponse => TransferStatus::Connecting,
            SendPhase::Ready => TransferStatus::Transferring,
            SendPhase::AwaitAck { .. } => TransferStatus::Transferring,
            SendPhase::Completed => TransferStatus::Completed,
            SendPhase::Failed => TransferStatus::Failed,
        };
        FileTransfer {
            id: self.id.clone(),
            file_name: self.file_name.clone(),
            file_size: self.file_size,
            transferred_bytes: self.transferred,
            status,
        }
    }

    /// The request that opens the transfer.
    pub fn request(&mut self) -> (r: Result<TransferMessage, ProtocolViolation>)
        requires
            send_wf(old(self)@),
        ensures
            final(self)@ == send_request_step(old(self)@).0,
            view_msg_result(r) == send_request_step(old(self)@).1,
            send_wf(final(self)@),
    {
        if self.phase == SendPhase::Pending {
            self.phase = SendPhase::AwaitResponse;
            Ok(TransferMessage::TransferRequest {
                id: self.id.clone(),
                file_name: self.file_name.clone(),
                file_size: self.file_size,
            })
        } else {
            Err(ProtocolViolation::WrongPhase)
        }
    }

    /// Takes in the one message that answers the request.
    pub fn on_response(&mut self, msg: &TransferMessage) -> (r: Result<(), ProtocolViolation>)
        requires
            send_wf(old(self)@),
        ensures
            final(self)@ == send_response_step(old(self)@, msg@).0,
            r == send_response_step(old(self)@, msg@).1,
            send_wf(final(self)@),
    {
        if self.phase != SendPhase::AwaitResponse {
            return Err(ProtocolViolation::WrongPhase);
        }
        match msg {
            TransferMessage::TransferResponse { id, accepted } => {
                if *id == self.id {
                    if *accepted {
                        self.phase = SendPhase::Ready;
                        return Ok(());
                    } else {
                        self.phase = SendPhase::Failed;
                        return Err(ProtocolViolation::Rejected);
                    }
                }
            },
            _ => {},
        }
        self.phase = SendPhase::Failed;
        Err(ProtocolViolation::UnexpectedMessage)
    }

    /// Wraps the bytes read for the next chunk into the message to send.
    pub fn send_chunk(&mut self, data: Vec<u8>) -> (r: Result<TransferMessage, ProtocolViolation>)
        requires
            send_wf(old(self)@),
            old(self)@.phase is Ready ==> data@.len() <= send_read_len(old(self)@),
        ensures
            final(self)@ == send_chunk_step(old(self)@, data@).0,
            view_msg_result(r) == send_chunk_step(old(self)@, data@).1,
            send_wf(final(self)@),
    {
        if self.phase != SendPhase::Ready {
            return Err(ProtocolViolation::WrongPhase);
        }
        let want = self.read_len();
        let n = data.len() as u64;
        let is_last = n < want || self.transferred + n == self.file_size;
        self.phase = SendPhase::AwaitAck { len: n, is_last };
        Ok(TransferMessage::DataChunk { id: self.id.clone(), chunk_index: self.chunk_index, data, is_last })
    }

    /// Takes in the one message that answers the chunk that is out. After the
    /// last chunk it yields the completion message, or fails when the bytes
    /// sent differ from the declared size.
    pub fn on_ack(&mut self, msg: &TransferMessage) -> (r: Result<Option<TransferMessage>, ProtocolViolation>)
        requires
            send_wf(old(self)@),
        ensures
            final(self)@ == send_ack_step(old(self)@, msg@).0,
            view_opt_msg_result(r) == send_ack_step(old(self)@, msg@).1,
            send_wf(final(self)@),
    {
        let (len, is_last) = match self.phase {
            SendPhase::AwaitAck { len, is_last } => (len, is_last),
            _ => {
                return Err(ProtocolViolation::WrongPhase);
            },
        };
        match msg {
            TransferMessage::ChunkAck { id, chunk_index } => {
                if *id == self.id && *chunk_index == self.chunk_index {
                    let t = self.transferred + len;
                    if !is_last {
                        proof {
                            lemma_next_index_fits(self.chunk_index, t, self.file_size);
                        }
                        self.transferred = t;
                        self.chunk_index = self.chunk_index + 1;
                        self.phase = SendPhase::Ready;
                        return Ok(None);
                    } else if t == self.file_size {
                        self.transferred = t;
                        self.phase = SendPhase::Completed;
                        return Ok(Some(TransferMessage::TransferComplete { id: self.id.clone(), success: true }));
                    } else {
                        self.transferred = t;
                        self.phase = SendPhase::Failed;
                        return Err(ProtocolViolation::SizeMismatch { expected: self.file_size, got: t });
                    }
                }
            },
            _ => {},
        }
        self.phase = SendPhase::Failed;
        Err(ProtocolViolation::UnexpectedMessage)
    }

    /// Marks an unfinished transfer failed, after a transport error.
    pub fn abort(&mut self)
        requires
            send_wf(old(self)@),
        ensures
            final(self)@ == send_abort_step(old(self)@),
            send_wf(final(self)@),
    {
        if self.phase != SendPhase::Completed && self.phase != SendPhase::Failed {
            self.phase = SendPhase::Failed;
        }
    }
}

/// No step of a sender moves its progress back or past the file size, and
/// every step keeps the sender's state well formed.
pub proof fn lemma_send_progress_monotone(s: SendModel, m: Message, data: Seq<u8>)
    requires
        send_wf(s),
        s.phase is Ready ==> data.len() <= send_read_len(s),
    ensures
        ({
            let r = send_request_step(s).0;
            send_wf(r) && s.transferred <= r.transferred <= r.file_size && r.file_size == s.file_size
        }),
        ({
            let r = send_response_step(s, m).0;
            send_wf(r) && s.transferred <= r.transferred <= r.file_size && r.file_size == s.file_size
        }),
        ({
            let r = send_chunk_step(s, data).0;
            send_wf(r) && s.transferred <= r.transferred <= r.file_size && r.file_size == s.file_size
        }),
        ({
            let r = send_ack_step(s, m).0;
            send_wf(r) && s.transferred <= r.transferred <= r.file_size && r.file_size == s.file_size
        }),
        ({
            let r = send_abort_step(s);
            send_wf(r) && s.transferred <= r.transferred <= r.file_size && r.file_size == s.file_size
        }),
{
    if let SendPhase::AwaitAck { len, is_last } = s.phase {
        if let Message::ChunkAck { id, chunk_index } = m {
            if id == s.id && chunk_index == s.chunk_index && !is_last {
                lemma_next_index_fits(s.chunk_index, (s.transferred + len) as u64, s.file_size);
            }
        }
    }
}

/// A refused request fails the transfer, and from then on no step of the
/// sender emits a chunk or any other message, or changes its state.
pub proof fn lemma_rejection_sends_nothing(s: SendModel, m: Message, later: Message, data: Seq<u8>)
    requires
        s.phase is AwaitResponse,
        m matches Message::TransferResponse { id, accepted } && id == s.id && !accepted,
    ensures
        send_response_step(s, m).0.phase is Failed,
        send_response_step(s, m).1 == Err::<(), ProtocolViolation>(ProtocolViolation::Rejected),
        ({
            let f = send_response_step(s, m).0;
            &&& send_chunk_step(f, data) == (f, Err::<Message, ProtocolViolation>(ProtocolViolation::WrongPhase))
            &&& send_ack_step(f, later) == (f, Err::<Option<Message>, ProtocolViolation>(ProtocolViolation::WrongPhase))
            &&& send_request_step(f) == (f, Err::<Message, ProtocolViolation>(ProtocolViolation::WrongPhase))
            &&& send_response_step(f, later) == (f, Err::<(), ProtocolViolation>(ProtocolViolation::WrongPhase))
            &&& send_abort_step(f) == f
        }),
{
}

} // verus!
