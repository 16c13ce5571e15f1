use vstd::prelude::*;
use vstd::string::StringExecFns;

use crate::api::{FileTransfer, TransferStatus};
use crate::error::{Error, ProtocolViolation};

verus! {

/// How far along a status is; `Completed` and `Failed` are both final.
pub open spec fn status_rank(s: TransferStatus) -> int {
    match s {
        TransferStatus::Pending => 0,
        TransferStatus::Connecting => 1,
        TransferStatus::Transferring => 2,
        TransferStatus::Completed => 3,
        TransferStatus::Failed => 3,
    }
}

/// A transfer in a final status is over.
pub open spec fn is_final(s: TransferStatus) -> bool {
    s is Completed || s is Failed
}

/// A status may move forward only, and never out of a final status.
pub open spec fn status_may_move(from: TransferStatus, to: TransferStatus) -> bool {
    !is_final(from) && status_rank(from) <= status_rank(to)
}

/// Every record has its own id and has not moved past its size.
pub open spec fn registry_wf(ts: Seq<FileTransfer>) -> bool {
    &&& forall|i: int, j: int| 0 <= i < ts.len() && 0 <= j < ts.len() && i != j ==> ts[i].id@ != ts[j].id@
    &&& forall|i: int| 0 <= i < ts.len() ==> #[trigger] ts[i].transferred_bytes <= ts[i].file_size
}

/// The position of the record with id `id`, if one is registered.
pub open spec fn find_spec(ts: Seq<FileTransfer>, id: Seq<char>) -> Option<int> {
    if exists|i: int| 0 <= i < ts.len() && ts[i].id@ == id {
        Some(choose|i: int| 0 <= i < ts.len() && ts[i].id@ == id)
    } else {
        None
    }
}

/// How one snapshot of the registry may follow another: records are never
/// dropped or reordered, each keeps its id, name and size, its progress
/// never moves back nor past the size, and its status only moves forward.
pub open spec fn registry_step(a: Seq<FileTransfer>, b: Seq<FileTransfer>) -> bool {
    &&& a.len() <= b.len()
    &&& forall|k: int| 0 <= k < a.len() ==> {
        &&& #[trigger] b[k].id@ == a[k].id@
        &&& b[k].file_name@ == a[k].file_name@
        &&& b[k].file_size == a[k].file_size
        &&& a[k].transferred_bytes <= b[k].transferred_bytes <= b[k].file_size
        &&& (a[k].status == b[k].status || status_may_move(a[k].status, b[k].status))
    }
}

/// The transfer registry: every transfer started or accepted here, kept
/// for the host to poll until it is cleared.
pub struct Transfer {
    transfers: Vec<FileTransfer>,
}

impl View for Transfer {
    type V = Seq<FileTransfer>;

    closed spec fn view(&self) -> Seq<FileTransfer> {
        self.transfers@
    }
}

pub(crate) fn copy_transfer(t: &FileTransfer) -> (r: FileTransfer)
    ensures
        r == *t,
{
    FileTransfer {
        id: t.id.clone(),
        file_name: t.file_name.clone(),
        file_size: t.file_size,
        transferred_bytes: t.transferred_bytes,
        status: t.status,
    }
}

impl Transfer {
    /// An empty registry.
    pub fn new() -> (r: Result<Transfer, Error>)
        ensures
            r matches Ok(t) && t@.len() == 0 && registry_wf(t@),
    {
        Ok(Transfer { transfers: Vec::new() })
    }

    fn find(&self, id: &str) -> (r: Option<usize>)
        ensures
            match r {
                Some(i) => i < self@.len() && self@[i as int].id@ == id@,
                None => forall|i: int| 0 <= i < self@.len() ==> self@[i].id@ != id@,
            },
    {
        let key = String::from_str(id);
        let mut i: usize = 0;
        while i < self.transfers.len()
            invariant
                i <= self.transfers@.len(),
                key@ == id@,
                forall|k: int| 0 <= k < i ==> self.transfers@[k].id@ != id@,
            decreases self.transfers@.len() - i,
        {
            if self.transfers[i].id == key {
                return Some(i);
            }
            i = i + 1;
        }
        None
    }

    /// Records a new transfer. Its id must not be registered yet, and its
    /// progress must not exceed its size.
    pub fn add_transfer(&mut self, t: FileTransfer) -> (r: Result<(), Error>)
        requires
            registry_wf(old(self)@),
        ensures
            registry_wf(final(self)@),
            registry_step(old(self)@, final(self)@),
            match find_spec(old(self)@, t.id@) {
                Some(_) => r matches Err(Error::Protocol(ProtocolViolation::DuplicateTransferId)) && final(self)@ == old(self)@,
                None => if t.transferred_bytes > t.file_size {
                    r matches Err(Error::Protocol(ProtocolViolation::ProgressOutOfOrder)) && final(self)@ == old(self)@
                } else {
                    r is Ok && final(self)@ == old(self)@.push(t)
                },
            },
    {
        match self.find(t.id.as_str()) {
            Some(_) => Err(Error::Protocol(ProtocolViolation::DuplicateTransferId)),
            None => {
                if t.transferred_bytes > t.file_size {
                    Err(Error::Protocol(ProtocolViolation::ProgressOutOfOrder))
                } else {
                    self.transfers.push(t);
                    Ok(())
                }
            },
        }
    }
}

/// Moves the status of the transfer `transfer_id` forward to `status`.
pub fn update_transfer_status(registry: &mut Transfer, transfer_id: &str, status: TransferStatus) -> (r: Result<(), Error>)
    requires
        registry_wf(old(registry)@),
    ensures
        registry_wf(final(registry)@),
        registry_step(old(registry)@, final(registry)@),
        match find_spec(old(registry)@, transfer_id@) {
            None => r matches Err(Error::TransferNotFound(id)) && id@ == transfer_id@ && final(registry)@ == old(registry)@,
            Some(i) => {
                let t = old(registry)@[i];
                if t.status == status || status_may_move(t.status, status) {
                    r is Ok && final(registry)@ == old(registry)@.update(i, FileTransfer { status, ..t })
                } else {
                    r matches Err(Error::Protocol(ProtocolViolation::StatusRegression)) && final(registry)@ == old(registry)@
                }
            },
        },
{
    match registry.find(transfer_id) {
        None => Err(Error::TransferNotFound(String::from_str(transfer_id))),
        Some(i) => {
            let cur = registry.transfers[i].status;
            let allowed = cur == status || match (cur, status) {
                (TransferStatus::Completed, _) | (TransferStatus::Failed, _) => false,
                (TransferStatus::Pending, _) => true,
                (TransferStatus::Connecting, TransferStatus::Pending) => false,
                (TransferStatus::Connecting, _) => true,
                (TransferStatus::Transferring, TransferStatus::Completed) => true,
                (TransferStatus::Transferring, TransferStatus::Failed) => true,
                (TransferStatus::Transferring, _) => false,
            };
            if !allowed {
                return Err(Error::Protocol(ProtocolViolation::StatusRegression));
            }
            let old_t = copy_transfer(&registry.transfers[i]);
            let t = FileTransfer { status, ..old_t };
            registry.transfers.set(i, t);
            Ok(())
        },
    }
}

/// Moves the progress of the transfer `transfer_id` forward to
/// `transferred_bytes`, which may not exceed its size.
pub fn update_transfer_progress(registry: &mut Transfer, transfer_id: &str, transferred_bytes: u64) -> (r: Result<(), Error>)
    requires
        registry_wf(old(registry)@),
    ensures
        registry_wf(final(registry)@),
        registry_step(old(registry)@, final(registry)@),
        match find_spec(old(registry)@, transfer_id@) {
            None => r matches Err(Error::TransferNotFound(id)) && id@ == transfer_id@ && final(registry)@ == old(registry)@,
            Some(i) => {
                let t = old(registry)@[i];
                if t.transferred_bytes <= transferred_bytes <= t.file_size {
                    r is Ok && final(registry)@ == old(registry)@.update(i, FileTransfer { transferred_bytes, ..t })
                } else {
                    r matches Err(Error::Protocol(ProtocolViolation::ProgressOutOfOrder)) && final(registry)@ == old(registry)@
                }
            },
        },
{
    match registry.find(transfer_id) {
        None => Err(Error::TransferNotFound(String::from_str(transfer_id))),
        Some(i) => {
            let old_t = copy_transfer(&registry.transfers[i]);
            if transferred_bytes < old_t.transferred_bytes || transferred_bytes > old_t.file_size {
                return Err(Error::Protocol(ProtocolViolation::ProgressOutOfOrder));
            }
            let t = FileTransfer { transferred_bytes, ..old_t };
            registry.transfers.set(i, t);
            Ok(())
        },
    }
}

/// A snapshot of every registered transfer, in the order they were added.
pub fn get_transfers(registry: &Transfer) -> (r: Result<Vec<FileTransfer>, Error>)
    ensures
        r matches Ok(v) && v@ == registry@,
{
    let mut out: Vec<FileTransfer> = Vec::new();
    let mut i: usize = 0;
    while i < registry.transfers.len()
        invariant
            i <= registry.transfers@.len(),
            out@ == registry.transfers@.subrange(0, i as int),
        decreases registry.transfers@.len() - i,
    {
        out.push(copy_transfer(&registry.transfers[i]));
        i = i + 1;
        assert(out@ =~= registry.transfers@.subrange(0, i as int));
    }
    assert(out@ =~= registry.transfers@);
    Ok(out)
}

/// Over any run of registry snapshots in which each follows the one
/// before, a transfer's progress never decreases and never exceeds its size.
pub proof fn lemma_progress_monotone(h: Seq<Seq<FileTransfer>>, k: int, i: int, j: int)
    requires
        forall|n: int| 0 <= n < h.len() ==> registry_wf(#[trigger] h[n]),
        forall|n: int| 0 <= n < h.len() - 1 ==> registry_step(#[trigger] h[n], h[n + 1]),
        0 <= i <= j < h.len(),
        0 <= k < h[i].len(),
    ensures
        k < h[j].len(),
        h[j][k].id@ == h[i][k].id@,
        h[i][k].transferred_bytes <= h[j][k].transferred_bytes <= h[j][k].file_size,
    decreases j - i,
{
    assert(registry_wf(h[j]));
    if i < j {
        lemma_progress_monotone(h, k, i, j - 1);
        assert(registry_step(h[j - 1], h[j]));
        assert(h[j][k].id@ == h[j - 1][k].id@);
    } else {
        assert(registry_wf(h[i]));
        assert(h[i][k].transferred_bytes <= h[i][k].file_size);
    }
}

} // verus!
