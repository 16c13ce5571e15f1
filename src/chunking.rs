use vstd::prelude::*;
use vstd::string::StringExecFns;

use crate::error::{Error, ProtocolViolation};

verus! {

/// The default number of bytes per chunk: 64 KiB.
pub const DEFAULT_CHUNK_SIZE: usize = 65536;

/// The mathematical state of a file chunker.
pub struct ChunkerModel {
    pub chunk_size: usize,
    pub file_size: u64,
    pub position: u64,
}

/// The read cursor over a file that is sent chunk by chunk. The caller
/// reads the bytes; the chunker says how many and keeps the position.
pub struct FileChunker {
    chunk_size: usize,
    file_size: u64,
    current_position: u64,
}

impl View for FileChunker {
    type V = ChunkerModel;

    closed spec fn view(&self) -> ChunkerModel {
        ChunkerModel { chunk_size: self.chunk_size, file_size: self.file_size, position: self.current_position }
    }
}

/// How many bytes the next chunk covers.
pub open spec fn chunk_len_spec(m: ChunkerModel) -> nat {
    if m.position >= m.file_size {
        0
    } else if m.file_size - m.position < m.chunk_size {
        (m.file_size - m.position) as nat
    } else {
        m.chunk_size as nat
    }
}

impl FileChunker {
    /// A cursor at the start of a file of `file_size` bytes.
    pub fn new(file_size: u64, chunk_size: Option<usize>) -> (r: FileChunker)
        ensures
            r@.file_size == file_size,
            r@.position == 0,
            r@.chunk_size == match chunk_size {
                Some(c) => c,
                None => DEFAULT_CHUNK_SIZE,
            },
    {
        let chunk_size = match chunk_size {
            Some(c) => c,
            None => DEFAULT_CHUNK_SIZE,
        };
        FileChunker { chunk_size, file_size, current_position: 0 }
    }

    pub fn file_size(&self) -> (r: u64)
        ensures
            r == self@.file_size,
    {
        self.file_size
    }

    pub fn current_position(&self) -> (r: u64)
        ensures
            r == self@.position,
    {
        self.current_position
    }

    pub fn is_complete(&self) -> (r: bool)
        ensures
            r == (self@.position >= self@.file_size),
    {
        self.current_position >= self.file_size
    }

    /// How many bytes to read at the current position for the next chunk.
    pub fn next_chunk_len(&self) -> (r: usize)
        ensures
            r == chunk_len_spec(self@),
    {
        if self.current_position >= self.file_size {
            0
        } else if self.file_size - self.current_position < self.chunk_size as u64 {
            (self.file_size - self.current_position) as usize
        } else {
            self.chunk_size
        }
    }

    /// Takes the bytes read at the current position. An empty read, or one
    /// past the end, yields no chunk; otherwise the position moves past it.
    pub fn next_chunk(&mut self, data: Vec<u8>) -> (r: Option<Vec<u8>>)
        requires
            data@.len() <= chunk_len_spec(old(self)@),
        ensures
            data@.len() == 0 ==> r is None && final(self)@ == old(self)@,
            data@.len() > 0 ==> r == Some(data) && final(self)@ == (ChunkerModel {
                position: (old(self)@.position + data@.len()) as u64,
                ..old(self)@
            }),
    {
        if data.len() == 0 {
            return None;
        }
        self.current_position = self.current_position + data.len() as u64;
        Some(data)
    }

    /// Moves back to the start of the file.
    pub fn reset(&mut self)
        ensures
            final(self)@ == (ChunkerModel { position: 0, ..old(self)@ }),
    {
        self.current_position = 0;
    }
}

/// The mathematical state of a file assembler.
pub struct AssemblerModel {
    pub file_path: Seq<char>,
    pub expected_size: u64,
    pub current_size: u64,
}

/// The write side of a received file: it counts the bytes the caller
/// appended and checks them against the declared size.
pub struct FileAssembler {
    file_path: String,
    expected_size: u64,
    current_size: u64,
}

impl View for FileAssembler {
    type V = AssemblerModel;

    closed spec fn view(&self) -> AssemblerModel {
        AssemblerModel { file_path: self.file_path@, expected_size: self.expected_size, current_size: self.current_size }
    }
}

impl FileAssembler {
    pub fn new(file_path: &str, expected_size: u64) -> (r: FileAssembler)
        ensures
            r@ == (AssemblerModel { file_path: file_path@, expected_size, current_size: 0 }),
    {
        FileAssembler { file_path: String::from_str(file_path), expected_size, current_size: 0 }
    }

    pub fn expected_size(&self) -> (r: u64)
        ensures
            r == self@.expected_size,
    {
        self.expected_size
    }

    pub fn current_size(&self) -> (r: u64)
        ensures
            r == self@.current_size,
    {
        self.current_size
    }

    pub fn is_complete(&self) -> (r: bool)
        ensures
            r == (self@.current_size >= self@.expected_size),
    {
        self.current_size >= self.expected_size
    }

    /// Counts a chunk the caller appended to the file.
    pub fn write_chunk(&mut self, chunk: &[u8])
        requires
            old(self)@.current_size + chunk@.len() <= u64::MAX,
        ensures
            final(self)@ == (AssemblerModel {
                current_size: (old(self)@.current_size + chunk@.len()) as u64,
                ..old(self)@
            }),
    {
        self.current_size = self.current_size + chunk.len() as u64;
    }

    /// Closes the file: its path when every declared byte was written.
    pub fn finish(self) -> (r: Result<String, Error>)
        ensures
            self@.current_size == self@.expected_size ==> (r matches Ok(p) && p@ == self@.file_path),
            self@.current_size != self@.expected_size ==> r == Err::<String, Error>(
                Error::Protocol(ProtocolViolation::SizeMismatch { expected: self@.expected_size, got: self@.current_size }),
            ),
    {
        if self.current_size != self.expected_size {
            return Err(Error::Protocol(ProtocolViolation::SizeMismatch { expected: self.expected_size, got: self.current_size }));
        }
        Ok(self.file_path)
    }
}

} // verus!
