use vstd::prelude::*;

use crate::api::{FileTransfer, TransferStatus};
use crate::error::ProtocolViolation;
use crate::message::{Message, TransferMessage};

verus! {

/// Where the receiving side of a transfer stands.
#[derive(Clone, Copy, Debug, PartialEq, Eq, Structural)]
pub enum ReceivePhase {
    /// The request is taken in; the answer is not out yet.
    Accepting,
    /// Accepted; waiting for the next chunk.
    Receiving,
    /// The chunk flagged last is written; waiting for the completion message.
    AwaitComplete,
    Completed,
    Failed,
}

/// The mathematical state of a receiving transfer.
pub struct ReceiveModel {
    pub id: Seq<char>,
    pub file_name: Seq<char>,
    pub file_size: u64,
    pub received: u64,
    pub expected_index: u64,
    pub phase: ReceivePhase,
}

/// What the caller must do after a message is taken in.
#[derive(Debug)]
pub enum ReceiveAction {
    /// Append `data` to the destination file, then send `ack`.
    Write { data: Vec<u8>, ack: TransferMessage },
    /// The transfer is complete: every declared byte is written.
    Finished,
}

/// The mathematical content of a `ReceiveAction`.
pub enum ReceiveStep {
    Write { data: Seq<u8>, ack: Message },
    Finished,
}

impl View for ReceiveAction {
    type V = ReceiveStep;

    open spec fn view(&self) -> ReceiveStep {
        match self {
            ReceiveAction::Write { data, ack } => ReceiveStep::Write { data: data@, ack: ack@ },
            ReceiveAction::Finished => ReceiveStep::Finished,
        }
    }
}

/// What a transfer in this receiving phase reports to the host.
pub open spec fn receive_status(p: ReceivePhase) -> TransferStatus {
    match p {
        ReceivePhase::Accepting => TransferStatus::Pending,
        ReceivePhase::Receiving => TransferStatus::Transferring,
        ReceivePhase::AwaitComplete => TransferStatus::Transferring,
        ReceivePhase::Completed => TransferStatus::Completed,
        ReceivePhase::Failed => TransferStatus::Failed,
    }
}

/// The receiver that a message opens: only a transfer request does.
pub open spec fn receive_open(m: Message) -> Option<ReceiveModel> {
    match m {
        Message::TransferRequest { id, file_name, file_size } => Some(
            ReceiveModel { id, file_name, file_size, received: 0, expected_index: 0, phase: ReceivePhase::Accepting },
        ),
        _ => None,
    }
}

/// Emitting the answer to the request; this protocol accepts every request.
pub open spec fn receive_respond_step(s: ReceiveModel) -> (ReceiveModel, Result<Message, ProtocolViolation>) {
    if s.phase is Accepting {
        (
            ReceiveModel { phase: ReceivePhase::Receiving, ..s },
            Ok(Message::TransferResponse { id: s.id, accepted: true }),
        )
    } else {
        (s, Err(ProtocolViolation::WrongPhase))
    }
}

/// Taking in the sender's completion message.
pub open spec fn receive_finish(s: ReceiveModel, success: bool) -> (ReceiveModel, Result<ReceiveStep, ProtocolViolation>) {
    if !success {
        (ReceiveModel { phase: ReceivePhase::Failed, ..s }, Err(ProtocolViolation::SenderFailed))
    } else if s.received != s.file_size {
        (
            ReceiveModel { phase: ReceivePhase::Failed, ..s },
            Err(ProtocolViolation::SizeMismatch { expected: s.file_size, got: s.received }),
        )
    } else {
        (ReceiveModel { phase: ReceivePhase::Completed, ..s }, Ok(ReceiveStep::Finished))
    }
}

/// Taking in a chunk of this transfer. Chunks are taken strictly in order; a
/// chunk that would overrun the declared size, or a last chunk that leaves
/// the total short of it, fails the transfer and writes nothing.
pub open spec fn receive_chunk(
    s: ReceiveModel,
    chunk_index: u32,
    data: Seq<u8>,
    is_last: bool,
) -> (ReceiveModel, Result<ReceiveStep, ProtocolViolation>) {
    let total = s.received + data.len();
    if chunk_index != s.expected_index {
        (
            ReceiveModel { phase: ReceivePhase::Failed, ..s },
            Err(ProtocolViolation::ChunkIndexMismatch { expected: s.expected_index, got: chunk_index }),
        )
    } else if total > s.file_size {
        (ReceiveModel { phase: ReceivePhase::Failed, ..s }, Err(ProtocolViolation::ExceedsDeclaredSize))
    } else if is_last && total != s.file_size {
        (
            ReceiveModel { phase: ReceivePhase::Failed, ..s },
            Err(ProtocolViolation::SizeMismatch { expected: s.file_size, got: total as u64 }),
        )
    } else {
        (
            ReceiveModel {
                received: total as u64,
                expected_index: (s.expected_index + 1) as u64,
                phase: if is_last { ReceivePhase::AwaitComplete } else { ReceivePhase::Receiving },
                ..s
            },
            Ok(ReceiveStep::Write { data, ack: Message::ChunkAck { id: s.id, chunk_index } }),
        )
    }
}

/// Taking in the next message of the transfer. Completion may follow the
/// chunk flagged last, or come on its own; either way it completes the
/// transfer only when every declared byte was written.
pub open spec fn receive_message_step(s: ReceiveModel, m: Message) -> (ReceiveModel, Result<ReceiveStep, ProtocolViolation>) {
    let fail = (ReceiveModel { phase: ReceivePhase::Failed, ..s }, Err(ProtocolViolation::UnexpectedMessage));
    match s.phase {
        ReceivePhase::Receiving => match m {
            Message::DataChunk { id, chunk_index, data, is_last } if id == s.id => receive_chunk(s, chunk_index, data, is_last),
            Message::TransferComplete { id, success } if id == s.id => receive_finish(s, success),
            _ => fail,
        },
        ReceivePhase::AwaitComplete => match m {
            Message::TransferComplete { id, success } if id == s.id => receive_finish(s, success),
            _ => fail,
        },
        _ => (s, Err(ProtocolViolation::WrongPhase)),
    }
}

/// Giving up after a transport failure: any unfinished transfer fails.
pub open spec fn receive_abort_step(s: ReceiveModel) -> ReceiveModel {
    if s.phase is Completed || s.phase is Failed {
        s
    } else {
        ReceiveModel { phase: ReceivePhase::Failed, ..s }
    }
}

/// The state a receiver keeps between its steps.
pub open spec fn receive_wf(s: ReceiveModel) -> bool {
    &&& s.received <= s.file_size
    &&& s.expected_index <= 0x1_0000_0000
    &&& s.phase is Accepting ==> s.received == 0 && s.expected_index == 0
    &&& s.phase is AwaitComplete ==> s.received == s.file_size
    &&& s.phase is Completed ==> s.received == s.file_size
}

/// The content of a receiver step result.
pub open spec fn view_step_result(r: Result<ReceiveAction, ProtocolViolation>) -> Result<ReceiveStep, ProtocolViolation> {
    match r {
        Ok(a) => Ok(a@),
        Err(v) => Err(v),
    }
}

/// The receiving side of one transfer: the lock-step protocol's decisions,
/// with the file and the session left to the caller.
pub struct ReceiveSession {
    id: String,
    file_name: String,
    file_size: u64,
    received: u64,
    expected_index: u64,
    phase: ReceivePhase,
}

impl View for ReceiveSession {
    type V = ReceiveModel;

    closed spec fn view(&self) -> ReceiveModel {
        ReceiveModel {
            id: self.id@,
            file_name: self.file_name@,
            file_size: self.file_size,
            received: self.received,
            expected_index: self.expected_index,
            phase: self.phase,
        }
    }
}

impl ReceiveSession {
    /// Opens a receiver from the first message of a transfer, which must be
    /// its request; the sender-declared id, name and size are kept.
    pub fn from_request(msg: TransferMessage) -> (r: Option<ReceiveSession>)
        ensures
            match r {
                Some(s) => receive_open(msg@) == Some(s@),
                None => receive_open(msg@) is None,
            },
            r matches Some(s) ==> receive_wf(s@),
    {
        match msg {
            TransferMessage::TransferRequest { id, file_name, file_size } => Some(
                ReceiveSession { id, file_name, file_size, received: 0, expected_index: 0, phase: ReceivePhase::Accepting },
            ),
            _ => None,
        }
    }

    pub fn phase(&self) -> (r: ReceivePhase)
        ensures
            r == self@.phase,
    {
        self.phase
    }

    pub fn received(&self) -> (r: u64)
        ensures
            r == self@.received,
    {
        self.received
    }

    /// The name under which the sender declared the file.
    pub fn file_name(&self) -> (r: &String)
        ensures
            r@ == self@.file_name,
    {
        &self.file_name
    }

    /// The transfer record that the host polls.
    pub fn transfer(&self) -> (r: FileTransfer)
        ensures
            r.id@ == self@.id,
            r.file_name@ == self@.file_name,
            r.file_size == self@.file_size,
            r.transferred_bytes == self@.received,
            r.status == receive_status(self@.phase),
    {
        let status = match self.phase {
            ReceivePhase::Accepting => TransferStatus::Pending,
            ReceivePhase::Receiving => TransferStatus::Transferring,
            ReceivePhase::AwaitComplete => TransferStatus::Transferring,
            ReceivePhase::Completed => TransferStatus::Completed,
            ReceivePhase::Failed => TransferStatus::Failed,
        };
        FileTransfer {
            id: self.id.clone(),
            file_name: self.file_name.clone(),
            file_size: self.file_size,
            transferred_bytes: self.received,
            status,
        }
    }

    /// The answer to the request, which accepts the transfer.
    pub fn respond(&mut self) -> (r: Result<TransferMessage, ProtocolViolation>)
        requires
            receive_wf(old(self)@),
        ensures
            final(self)@ == receive_respond_step(old(self)@).0,
            match r {
                Ok(m) => receive_respond_step(old(self)@).1 == Ok::<Message, ProtocolViolation>(m@),
                Err(v) => receive_respond_step(old(self)@).1 == Err::<Message, ProtocolViolation>(v),
            },
            receive_wf(final(self)@),
    {
        if self.phase == ReceivePhase::Accepting {
            self.phase = ReceivePhase::Receiving;
            Ok(TransferMessage::TransferResponse { id: self.id.clone(), accepted: true })
        } else {
            Err(ProtocolViolation::WrongPhase)
        }
    }

    fn finish(&mut self, success: bool) -> (r: Result<ReceiveAction, ProtocolViolation>)
        requires
            receive_wf(old(self)@),
        ensures
            final(self)@ == receive_finish(old(self)@, success).0,
            view_step_result(r) == receive_finish(old(self)@, success).1,
            receive_wf(final(self)@),
    {
        if !success {
            self.phase = ReceivePhase::Failed;
            Err(ProtocolViolation::SenderFailed)
        } else if self.received != self.file_size {
            self.phase = ReceivePhase::Failed;
            Err(ProtocolViolation::SizeMismatch { expected: self.file_size, got: self.received })
        } else {
            self.phase = ReceivePhase::Completed;
            Ok(ReceiveAction::Finished)
        }
    }

    fn take_chunk(&mut self, chunk_index: u32, data: Vec<u8>, is_last: bool) -> (r: Result<ReceiveAction, ProtocolViolation>)
        requires
            receive_wf(old(self)@),
        ensures
            final(self)@ == receive_chunk(old(self)@, chunk_index, data@, is_last).0,
            view_step_result(r) == receive_chunk(old(self)@, chunk_index, data@, is_last).1,
            receive_wf(final(self)@),
    {
        let n = data.len() as u64;
        if chunk_index as u64 != self.expected_index {
            self.phase = ReceivePhase::Failed;
            Err(ProtocolViolation::ChunkIndexMismatch { expected: self.expected_index, got: chunk_index })
        } else if n > self.file_size - self.received {
            self.phase = ReceivePhase::Failed;
            Err(ProtocolViolation::ExceedsDeclaredSize)
        } else if is_last && self.received + n != self.file_size {
            self.phase = ReceivePhase::Failed;
            Err(ProtocolViolation::SizeMismatch { expected: self.file_size, got: self.received + n })
        } else {
            self.received = self.received + n;
            self.expected_index = self.expected_index + 1;
            self.phase = if is_last { ReceivePhase::AwaitComplete } else { ReceivePhase::Receiving };
            Ok(ReceiveAction::Write { data, ack: TransferMessage::ChunkAck { id: self.id.clone(), chunk_index } })
        }
    }

    /// Takes in the next message of the transfer and says what to do with it.
    pub fn on_message(&mut self, msg: TransferMessage) -> (r: Result<ReceiveAction, ProtocolViolation>)
        requires
            receive_wf(old(self)@),
        ensures
            final(self)@ == receive_message_step(old(self)@, msg@).0,
            view_step_result(r) == receive_message_step(old(self)@, msg@).1,
            receive_wf(final(self)@),
    {
        let awaiting_complete = match self.phase {
            ReceivePhase::Receiving => false,
            ReceivePhase::AwaitComplete => true,
            _ => {
                return Err(ProtocolViolation::WrongPhase);
            },
        };
        match msg {
            TransferMessage::DataChunk { id, chunk_index, data, is_last } => {
                if !awaiting_complete && id == self.id {
                    return self.take_chunk(chunk_index, data, is_last);
                }
            },
            TransferMessage::TransferComplete { id, success } => {
                if id == self.id {
                    return self.finish(success);
                }
            },
            _ => {},
        }
        self.phase = ReceivePhase::Failed;
        Err(ProtocolViolation::UnexpectedMessage)
    }

    /// Marks an unfinished transfer failed, after a transport error.
    pub fn abort(&mut self)
        requires
            receive_wf(old(self)@),
        ensures
            final(self)@ == receive_abort_step(old(self)@),
            receive_wf(final(self)@),
    {
        if self.phase != ReceivePhase::Completed && self.phase != ReceivePhase::Failed {
            self.phase = ReceivePhase::Failed;
        }
    }
}

/// A chunk whose index is not the one expected fails the transfer with a
/// protocol error; nothing of it is to be written and the count of bytes
/// received stays as it was.
pub proof fn lemma_out_of_order_chunk_fails(s: ReceiveModel, m: Message)
    requires
        s.phase is Receiving,
        m matches Message::DataChunk { id, chunk_index, .. } && id == s.id && chunk_index != s.expected_index,
    ensures
        receive_message_step(s, m).0 == (ReceiveModel { phase: ReceivePhase::Failed, ..s }),
        receive_message_step(s, m).1 == Err::<ReceiveStep, ProtocolViolation>(
            ProtocolViolation::ChunkIndexMismatch { expected: s.expected_index, got: m->DataChunk_chunk_index },
        ),
{
}

/// A last chunk that leaves the bytes written short of, or past, the
/// declared size fails the transfer; it never completes.
pub proof fn lemma_short_last_chunk_fails(s: ReceiveModel, m: Message)
    requires
        s.phase is Receiving,
        m matches Message::DataChunk { id, data, is_last, .. } && id == s.id && is_last && s.received + data.len() != s.file_size,
    ensures
        receive_message_step(s, m).0.phase is Failed,
        receive_message_step(s, m).1 is Err,
{
}

/// No step of a receiver moves its progress back or past the file size; a
/// receiver is complete only once every declared byte is written.
pub proof fn lemma_receive_progress_monotone(s: ReceiveModel, m: Message)
    requires
        receive_wf(s),
    ensures
        ({
            let r = receive_message_step(s, m).0;
            &&& receive_wf(r)
            &&& s.received <= r.received <= r.file_size
            &&& r.file_size == s.file_size
            &&& r.phase is Completed ==> r.received == r.file_size
        }),
        ({
            let r = receive_respond_step(s).0;
            receive_wf(r) && r.received == s.received && r.file_size == s.file_size
        }),
        ({
            let r = receive_abort_step(s);
            receive_wf(r) && r.received == s.received && r.file_size == s.file_size
        }),
{
}

} // verus!
