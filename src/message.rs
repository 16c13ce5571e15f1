use vstd::prelude::*;

verus! {

/// A wire-level message exchanged over a session. Every message carries the
/// id of the transfer it belongs to.
#[derive(Clone, Debug)]
pub enum TransferMessage {
    TransferRequest { id: String, file_name: String, file_size: u64 },
    TransferResponse { id: String, accepted: bool },
    DataChunk { id: String, chunk_index: u32, data: Vec<u8>, is_last: bool },
    ChunkAck { id: String, chunk_index: u32 },
    TransferComplete { id: String, success: bool },
}

/// The mathematical content of a `TransferMessage`.
pub enum Message {
    TransferRequest { id: Seq<char>, file_name: Seq<char>, file_size: u64 },
    TransferResponse { id: Seq<char>, accepted: bool },
    DataChunk { id: Seq<char>, chunk_index: u32, data: Seq<u8>, is_last: bool },
    ChunkAck { id: Seq<char>, chunk_index: u32 },
    TransferComplete { id: Seq<char>, success: bool },
}

impl View for TransferMessage {
    type V = Message;

    open spec fn view(&self) -> Message {
        match self {
            TransferMessage::TransferRequest { id, file_name, file_size } => Message::TransferRequest {
                id: id@,
                file_name: file_name@,
                file_size: *file_size,
            },
            TransferMessage::TransferResponse { id, accepted } => Message::TransferResponse {
                id: id@,
                accepted: *accepted,
            },
            TransferMessage::DataChunk { id, chunk_index, data, is_last } => Message::DataChunk {
                id: id@,
                chunk_index: *chunk_index,
                data: data@,
                is_last: *is_last,
            },
            TransferMessage::ChunkAck { id, chunk_index } => Message::ChunkAck {
                id: id@,
                chunk_index: *chunk_index,
            },
            TransferMessage::TransferComplete { id, success } => Message::TransferComplete {
                id: id@,
                success: *success,
            },
        }
    }
}

} // verus!
