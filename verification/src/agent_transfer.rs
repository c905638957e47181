//! One transfer between host blocks and remote storage, step by step.
//!
//! A [`RemoteTransfer`] says what to ask of the NIXL agent next, and is told how
//! that went. Object storage is registered with the agent block by block; after
//! that, object and disk transfers go the same way: two descriptor lists are made,
//! a request is created and posted, and its status is polled until it ends.
use vstd::prelude::*;
use vstd::string::StringExecFns;

use crate::nixl::{MemType, XferDesc};
use crate::remote::{
    RemoteBlockDescriptor, RemoteKey, RemoteStorageKind, RemoteTransferDirection,
};
use crate::strategy::XferOp;
use crate::transfer::{BlockError, TransferError};

verus! {

/// How long to wait before the status of a transfer is asked for, in microseconds.
pub const POLL_INTERVAL_MICROS: u64 = 100;

/// The memory of a host block.
#[derive(Debug, Clone, Copy, PartialEq, Eq, Structural)]
pub struct HostRegion {
    pub addr: usize,
    pub size: usize,
}

/// What has to be done next.
#[derive(Debug)]
pub enum TransferAction {
    /// Register the object with the agent.
    RegisterObject { bucket: String, object_key: u64, size: usize },
    /// Make a descriptor list for each side.
    CreateLists { local_memory: MemType, remote_memory: MemType },
    /// Fill the lists, create the request and post it.
    Submit { op: XferOp, local: Vec<XferDesc>, remote: Vec<XferDesc> },
    /// Wait for the poll interval or for a cancellation, then get the status.
    Poll,
    /// The transfer has ended.
    Finish(Result<(), TransferError>),
}

/// How the last action went. Failures carry what the agent said.
#[derive(Debug)]
pub enum TransferEvent {
    /// The object's storage could not be described.
    StorageFailed(String),
    /// The object could not be registered.
    RegisterFailed(String),
    /// The object is registered.
    Registered,
    /// The list of the host side could not be made.
    LocalListFailed(String),
    /// The list of the remote side could not be made.
    RemoteListFailed(String),
    /// Both lists are there.
    ListsCreated,
    /// The request could not be created.
    RequestFailed(String),
    /// The request could not be posted.
    PostFailed(String),
    /// The request is posted, and maybe complete already.
    Posted { still_pending: bool },
    /// Cancellation was requested while waiting.
    Cancelled,
    /// The status could not be had.
    StatusFailed(String),
    /// The transfer is complete.
    Succeeded,
    /// The transfer is still running.
    InProgress,
    /// The transfer has some other status.
    OtherStatus(String),
}

/// How far a transfer has come.
#[derive(Debug, Clone, Copy, PartialEq, Eq, Structural)]
pub enum Phase {
    /// The object with this index is being registered.
    Registering { index: usize },
    CreatingLists,
    Submitting,
    Polling,
    Finished,
}

/// The state of a [`RemoteTransfer`].
pub struct TransferView {
    pub direction: RemoteTransferDirection,
    pub kind: RemoteStorageKind,
    pub descriptors: Seq<RemoteBlockDescriptor>,
    pub locals: Seq<Result<HostRegion, BlockError>>,
    pub block_size: usize,
    pub phase: Phase,
}

/// What `format!("{:?}", s)` gives for a string: the string in quotes, with the
/// characters that need it escaped.
pub uninterp spec fn quoted_text(s: Seq<char>) -> Seq<char>;

/// Formats a string with the `Debug` of `str`, which quotes and escapes it.
#[verifier::external_body]
fn quoted(s: &str) -> (text: String)
    ensures
        text@ == quoted_text(s@),
{
    format!("{:?}", s)
}

/// How a key is shown in messages.
pub open spec fn shown_key(key: RemoteKey) -> Seq<char> {
    match key {
        RemoteKey::Object(object) => "Object(ObjectKey { bucket: "@ + quoted_text(object.bucket@)
            + ", key: "@ + quoted_text(object.key@) + " })"@,
        RemoteKey::Disk(disk) => "Disk(DiskKey { path: "@ + quoted_text(disk.path@) + ", key: "@
            + quoted_text(disk.key@) + " })"@,
    }
}

/// Shows a key in messages.
pub fn show_key(key: &RemoteKey) -> (shown: String)
    ensures
        shown@ == shown_key(*key),
{
    match key {
        RemoteKey::Object(object) => {
            let mut shown = "Object(ObjectKey { bucket: ".to_owned();
            shown.append(quoted(object.bucket.as_str()).as_str());
            shown.append(", key: ");
            shown.append(quoted(object.key.as_str()).as_str());
            shown.append(" })");
            shown
        },
        RemoteKey::Disk(disk) => {
            let mut shown = "Disk(DiskKey { path: ".to_owned();
            shown.append(quoted(disk.path.as_str()).as_str());
            shown.append(", key: ");
            shown.append(quoted(disk.key.as_str()).as_str());
            shown.append(" })");
            shown
        },
    }
}

/// Whether a transfer ends with an execution error of this text.
pub open spec fn ends_in_error(action: TransferAction, text: Seq<char>) -> bool {
    action matches TransferAction::Finish(Err(TransferError::ExecutionError(reason))) && reason@
        == text
}

/// Whether a descriptor can be used for object storage: it has an object key, and
/// the sequence hash that names the object.
pub open spec fn names_object(descriptor: RemoteBlockDescriptor) -> bool {
    descriptor@.key is Object && descriptor@.sequence_hash() is Some
}

/// The device id of a block in remote storage: for an object its sequence hash,
/// on a disk the hash of its key.
pub open spec fn remote_device_id(
    kind: RemoteStorageKind,
    descriptor: RemoteBlockDescriptor,
) -> u64 {
    match kind {
        RemoteStorageKind::Object => descriptor@.sequence_hash()->0,
        RemoteStorageKind::Disk => descriptor@.key.device_id(),
    }
}

impl TransferView {
    /// What holds while a transfer runs.
    pub open spec fn wf(self) -> bool {
        &&& self.descriptors.len() == self.locals.len()
        &&& self.descriptors.len() <= usize::MAX
        &&& self.phase matches Phase::Registering { index } ==> {
            &&& self.kind == RemoteStorageKind::Object
            &&& index < self.descriptors.len()
            &&& self.named_up_to(index + 1)
        }
        &&& self.kind == RemoteStorageKind::Object && (self.phase is CreatingLists
            || self.phase is Submitting || self.phase is Polling) ==> self.named_up_to(
            self.descriptors.len() as int,
        )
    }

    /// Whether the first `n` descriptors can be used for object storage.
    pub open spec fn named_up_to(self, n: int) -> bool {
        forall|i: int| 0 <= i < n ==> names_object(#[trigger] self.descriptors[i])
    }

    /// The entries of the host side: every block, with the size of the first.
    pub open spec fn local_entries(self) -> Seq<XferDesc> {
        Seq::new(
            self.locals.len(),
            |i: int|
                XferDesc { addr: self.locals[i]->Ok_0.addr, size: self.block_size, device_id: 0 },
        )
    }

    /// The entries of the remote side.
    pub open spec fn remote_entries(self) -> Seq<XferDesc> {
        Seq::new(
            self.descriptors.len(),
            |i: int|
                XferDesc {
                    addr: 0,
                    size: self.block_size,
                    device_id: remote_device_id(self.kind, self.descriptors[i]),
                },
        )
    }

    /// The type of memory on the remote side.
    pub open spec fn remote_memory(self) -> MemType {
        match self.kind {
            RemoteStorageKind::Object => MemType::Object,
            RemoteStorageKind::Disk => MemType::File,
        }
    }

    /// Whether host block `i` is the first that cannot be reached, because of
    /// `error`.
    pub open spec fn first_unreachable(self, i: int, error: BlockError) -> bool {
        &&& 0 <= i < self.locals.len()
        &&& self.locals[i] == Err::<HostRegion, BlockError>(error)
        &&& forall|j: int| 0 <= j < i ==> #[trigger] self.locals[j] is Ok
    }

    /// What to do when the objects before `index` are registered.
    pub open spec fn registers(self, index: int, action: TransferAction, phase: Phase) -> bool {
        if index >= self.descriptors.len() {
            self.makes_lists(action, phase)
        } else {
            let descriptor = self.descriptors[index]@;
            match descriptor.key {
                RemoteKey::Object(object) => match descriptor.sequence_hash() {
                    Some(hash) => {
                        &&& action matches TransferAction::RegisterObject {
                            bucket,
                            object_key,
                            size,
                        } && bucket@ == object.bucket@ && object_key == hash && size
                            == self.block_size
                        &&& phase == (Phase::Registering { index: index as usize })
                    },
                    None => {
                        &&& ends_in_error(
                            action,
                            "Descriptor missing sequence_hash: "@ + shown_key(descriptor.key),
                        )
                        &&& phase is Finished
                    },
                },
                RemoteKey::Disk(_) => {
                    &&& action matches TransferAction::Finish(
                        Err(TransferError::IncompatibleTypes(reason)),
                    ) && reason@ == "Expected Object key for object storage transfer"@
                    &&& phase is Finished
                },
            }
        }
    }

    /// What to do when nothing is left to register.
    pub open spec fn makes_lists(self, action: TransferAction, phase: Phase) -> bool {
        &&& action == TransferAction::CreateLists {
            local_memory: MemType::Dram,
            remote_memory: self.remote_memory(),
        }
        &&& phase is CreatingLists
    }

    /// What to do when both lists are there: submit, unless some host block cannot
    /// be reached.
    pub open spec fn submits(self, action: TransferAction, phase: Phase) -> bool {
        match action {
            TransferAction::Submit { op, local, remote } => {
                &&& forall|i: int| 0 <= i < self.locals.len() ==> #[trigger] self.locals[i] is Ok
                &&& op == (match self.direction {
                    RemoteTransferDirection::Offload => XferOp::Write,
                    RemoteTransferDirection::Onboard => XferOp::Read,
                })
                &&& local@ == self.local_entries()
                &&& remote@ == self.remote_entries()
                &&& phase is Submitting
            },
            TransferAction::Finish(Err(TransferError::BlockError(error))) => {
                &&& exists|i: int| self.first_unreachable(i, error)
                &&& phase is Finished
            },
            _ => false,
        }
    }

    /// Whether `event` can be the outcome of the action that was asked for last.
    pub open spec fn accepts(self, event: TransferEvent) -> bool {
        match self.phase {
            Phase::Registering { .. } => event is StorageFailed || event is RegisterFailed
                || event is Registered,
            Phase::CreatingLists => event is LocalListFailed || event is RemoteListFailed
                || event is ListsCreated,
            Phase::Submitting => event is RequestFailed || event is PostFailed || event is Posted,
            Phase::Polling => event is Cancelled || event is StatusFailed || event is Succeeded
                || event is InProgress || event is OtherStatus,
            Phase::Finished => false,
        }
    }

    /// Whether `action` and `phase` are right after `event`.
    pub open spec fn answers(
        self,
        event: TransferEvent,
        action: TransferAction,
        phase: Phase,
    ) -> bool {
        match event {
            TransferEvent::Registered => self.registers(
                self.phase->index + 1,
                action,
                phase,
            ),
            TransferEvent::ListsCreated => self.submits(action, phase),
            TransferEvent::Posted { still_pending: true } | TransferEvent::InProgress => {
                action is Poll && phase is Polling
            },
            TransferEvent::Posted { still_pending: false } | TransferEvent::Succeeded => {
                action == TransferAction::Finish(Ok(())) && phase is Finished
            },
            TransferEvent::Cancelled => {
                action == TransferAction::Finish(Err(TransferError::Cancelled)) && phase is Finished
            },
            TransferEvent::StorageFailed(detail) => {
                ends_in_error(action, "Failed to create ObjectStorage: "@ + detail@)
                    && phase is Finished
            },
            TransferEvent::RegisterFailed(detail) => {
                ends_in_error(action, "Failed to register object storage: "@ + detail@)
                    && phase is Finished
            },
            TransferEvent::LocalListFailed(detail) => {
                ends_in_error(action, "Failed to create src_dl: "@ + detail@) && phase is Finished
            },
            TransferEvent::RemoteListFailed(detail) => {
                ends_in_error(action, "Failed to create dst_dl: "@ + detail@) && phase is Finished
            },
            TransferEvent::RequestFailed(detail) => {
                ends_in_error(action, "Failed to create xfer_req: "@ + detail@)
                    && phase is Finished
            },
            TransferEvent::PostFailed(detail) => {
                ends_in_error(action, "Failed to post xfer_req: "@ + detail@) && phase is Finished
            },
            TransferEvent::StatusFailed(detail) => {
                ends_in_error(action, "Failed to get transfer status: "@ + detail@)
                    && phase is Finished
            },
            TransferEvent::OtherStatus(detail) => {
                ends_in_error(action, "Transfer failed with status: "@ + detail@)
                    && phase is Finished
            },
        }
    }

    /// Whether `action` and `phase` are right at the start.
    pub open spec fn starts_with(
        self,
        cancelled: bool,
        agent_available: bool,
        action: TransferAction,
    ) -> bool {
        if self.descriptors.len() == 0 || self.locals.len() == 0 {
            action == TransferAction::Finish(Ok(())) && self.phase is Finished
        } else if self.descriptors.len() != self.locals.len() {
            &&& action == TransferAction::Finish(
                Err(
                    TransferError::CountMismatch(
                        self.descriptors.len() as usize,
                        self.locals.len() as usize,
                    ),
                ),
            )
            &&& self.phase is Finished
        } else if cancelled {
            action == TransferAction::Finish(Err(TransferError::Cancelled)) && self.phase
                is Finished
        } else if !agent_available {
            ends_in_error(action, "NIXL agent not available"@) && self.phase is Finished
        } else {
            match self.locals[0] {
                Err(error) => {
                    &&& action == TransferAction::Finish(Err(TransferError::BlockError(error)))
                    &&& self.phase is Finished
                },
                Ok(first) => {
                    &&& self.block_size == first.size
                    &&& match self.kind {
                        RemoteStorageKind::Object => self.registers(0, action, self.phase),
                        RemoteStorageKind::Disk => self.makes_lists(action, self.phase),
                    }
                },
            }
        }
    }
}

/// A transfer between host blocks and remote storage.
#[derive(Debug)]
pub struct RemoteTransfer {
    direction: RemoteTransferDirection,
    kind: RemoteStorageKind,
    descriptors: Vec<RemoteBlockDescriptor>,
    locals: Vec<Result<HostRegion, BlockError>>,
    block_size: usize,
    phase: Phase,
}

impl View for RemoteTransfer {
    type V = TransferView;

    closed spec fn view(&self) -> TransferView {
        TransferView {
            direction: self.direction,
            kind: self.kind,
            descriptors: self.descriptors@,
            locals: self.locals@,
            block_size: self.block_size,
            phase: self.phase,
        }
    }
}

/// Ends a transfer with an execution error.
fn fail(prefix: &str, detail: &str) -> (action: TransferAction)
    ensures
        ends_in_error(action, prefix@ + detail@),
{
    let reason = prefix.to_owned().concat(detail);
    TransferAction::Finish(Err(TransferError::ExecutionError(reason)))
}

impl RemoteTransfer {
    /// Goes on to register the object with this index, or to the lists when none
    /// is left.
    fn register(&mut self, index: usize) -> (action: TransferAction)
        requires
            old(self)@.descriptors.len() == old(self)@.locals.len(),
            old(self)@.kind == RemoteStorageKind::Object,
            index <= old(self)@.descriptors.len(),
            old(self)@.named_up_to(index as int),
        ensures
            old(self)@.registers(index as int, action, final(self)@.phase),
            final(self)@ == (TransferView { phase: final(self)@.phase, ..old(self)@ }),
            final(self)@.wf(),
    {
        if index >= self.descriptors.len() {
            self.phase = Phase::CreatingLists;
            return TransferAction::CreateLists {
                local_memory: MemType::Dram,
                remote_memory: MemType::Object,
            };
        }
        let descriptor = &self.descriptors[index];
        let (action, phase) = match descriptor.key() {
            RemoteKey::Object(object) => match descriptor.sequence_hash() {
                Some(hash) => (
                    TransferAction::RegisterObject {
                        bucket: object.bucket.clone(),
                        object_key: hash,
                        size: self.block_size,
                    },
                    Phase::Registering { index },
                ),
                None => (
                    fail(
                        "Descriptor missing sequence_hash: ",
                        show_key(descriptor.key()).as_str(),
                    ),
                    Phase::Finished,
                ),
            },
            RemoteKey::Disk(_) => (
                TransferAction::Finish(
                    Err(
                        TransferError::IncompatibleTypes(
                            "Expected Object key for object storage transfer".to_owned(),
                        ),
                    ),
                ),
                Phase::Finished,
            ),
        };
        self.phase = phase;
        action
    }

    /// Submits the request, unless some host block cannot be reached.
    fn submit(&mut self) -> (action: TransferAction)
        requires
            old(self)@.wf(),
            old(self)@.phase is CreatingLists,
        ensures
            old(self)@.submits(action, final(self)@.phase),
            final(self)@ == (TransferView { phase: final(self)@.phase, ..old(self)@ }),
            final(self)@.wf(),
    {
        let mut local: Vec<XferDesc> = Vec::new();
        let mut remote: Vec<XferDesc> = Vec::new();
        let mut i: usize = 0;
        while i < self.locals.len()
            invariant
                self@ == old(self)@,
                self@.wf(),
                self@.phase is CreatingLists,
                i <= self@.locals.len(),
                forall|j: int| 0 <= j < i ==> #[trigger] self@.locals[j] is Ok,
                local@ == self@.local_entries().take(i as int),
                remote@ == self@.remote_entries().take(i as int),
            decreases self@.locals.len() - i,
        {
            let addr = match &self.locals[i] {
                Ok(region) => region.addr,
                Err(error) => {
                    let error = error.clone();
                    assert(self@.first_unreachable(i as int, error));
                    self.phase = Phase::Finished;
                    return TransferAction::Finish(Err(TransferError::BlockError(error)));
                },
            };
            let descriptor = &self.descriptors[i];
            assert(self@.kind == RemoteStorageKind::Object ==> names_object(
                self@.descriptors[i as int],
            ));
            let device_id: u64 = match self.kind {
                RemoteStorageKind::Object => descriptor.sequence_hash().unwrap(),
                RemoteStorageKind::Disk => descriptor.key().nixl_device_id(),
            };
            local.push(XferDesc { addr, size: self.block_size, device_id: 0 });
            remote.push(XferDesc { addr: 0, size: self.block_size, device_id });
            assert(local@ =~= self@.local_entries().take(i + 1));
            assert(remote@ =~= self@.remote_entries().take(i + 1));
            i = i + 1;
        }
        assert(local@ =~= self@.local_entries());
        assert(remote@ =~= self@.remote_entries());
        let op = match self.direction {
            RemoteTransferDirection::Offload => XferOp::Write,
            RemoteTransferDirection::Onboard => XferOp::Read,
        };
        self.phase = Phase::Submitting;
        TransferAction::Submit { op, local, remote }
    }

    /// Goes on after the last action.
    pub fn advance(&mut self, event: TransferEvent) -> (action: TransferAction)
        requires
            old(self)@.wf(),
            old(self)@.accepts(event),
        ensures
            old(self)@.answers(event, action, final(self)@.phase),
            final(self)@ == (TransferView { phase: final(self)@.phase, ..old(self)@ }),
            final(self)@.wf(),
    {
        match event {
            TransferEvent::Registered => {
                let index: usize = match self.phase {
                    Phase::Registering { index } => index,
                    _ => 0,
                };
                self.register(index + 1)
            },
            TransferEvent::ListsCreated => self.submit(),
            TransferEvent::Posted { still_pending } => if still_pending {
                self.phase = Phase::Polling;
                TransferAction::Poll
            } else {
                self.phase = Phase::Finished;
                TransferAction::Finish(Ok(()))
            },
            TransferEvent::InProgress => {
                self.phase = Phase::Polling;
                TransferAction::Poll
            },
            TransferEvent::Succeeded => {
                self.phase = Phase::Finished;
                TransferAction::Finish(Ok(()))
            },
            TransferEvent::Cancelled => {
                self.phase = Phase::Finished;
                TransferAction::Finish(Err(TransferError::Cancelled))
            },
            TransferEvent::StorageFailed(detail) => {
                self.phase = Phase::Finished;
                fail("Failed to create ObjectStorage: ", detail.as_str())
            },
            TransferEvent::RegisterFailed(detail) => {
                self.phase = Phase::Finished;
                fail("Failed to register object storage: ", detail.as_str())
            },
            TransferEvent::LocalListFailed(detail) => {
                self.phase = Phase::Finished;
                fail("Failed to create src_dl: ", detail.as_str())
            },
            TransferEvent::RemoteListFailed(detail) => {
                self.phase = Phase::Finished;
                fail("Failed to create dst_dl: ", detail.as_str())
            },
            TransferEvent::RequestFailed(detail) => {
                self.phase = Phase::Finished;
                fail("Failed to create xfer_req: ", detail.as_str())
            },
            TransferEvent::PostFailed(detail) => {
                self.phase = Phase::Finished;
                fail("Failed to post xfer_req: ", detail.as_str())
            },
            TransferEvent::StatusFailed(detail) => {
                self.phase = Phase::Finished;
                fail("Failed to get transfer status: ", detail.as_str())
            },
            TransferEvent::OtherStatus(detail) => {
                self.phase = Phase::Finished;
                fail("Transfer failed with status: ", detail.as_str())
            },
        }
    }
}

/// Begins a transfer. `locals` are the host blocks, the source when blocks are
/// offloaded and the destination when they are onboarded.
pub fn execute_remote_transfer(
    direction: RemoteTransferDirection,
    kind: RemoteStorageKind,
    descriptors: Vec<RemoteBlockDescriptor>,
    locals: Vec<Result<HostRegion, BlockError>>,
    cancelled: bool,
    agent_available: bool,
) -> (begun: (RemoteTransfer, TransferAction))
    ensures
        begun.0@.direction == direction,
        begun.0@.kind == kind,
        begun.0@.descriptors == descriptors@,
        begun.0@.locals == locals@,
        begun.0@.starts_with(cancelled, agent_available, begun.1),
        begun.0@.phase is Finished || begun.0@.wf(),
{
    let num_descriptors = descriptors.len();
    let num_locals = locals.len();
    let mut transfer = RemoteTransfer {
        direction,
        kind,
        descriptors,
        locals,
        block_size: 0,
        phase: Phase::Finished,
    };
    if num_descriptors == 0 || num_locals == 0 {
        return (transfer, TransferAction::Finish(Ok(())));
    }
    if num_descriptors != num_locals {
        return (
            transfer,
            TransferAction::Finish(
                Err(TransferError::CountMismatch(num_descriptors, num_locals)),
            ),
        );
    }
    if cancelled {
        return (transfer, TransferAction::Finish(Err(TransferError::Cancelled)));
    }
    if !agent_available {
        let action = TransferAction::Finish(
            Err(TransferError::ExecutionError("NIXL agent not available".to_owned())),
        );
        return (transfer, action);
    }
    let block_size: usize = match &transfer.locals[0] {
        Ok(region) => region.size,
        Err(error) => {
            let action = TransferAction::Finish(Err(TransferError::BlockError(error.clone())));
            return (transfer, action);
        },
    };
    transfer.block_size = block_size;
    match kind {
        RemoteStorageKind::Object => {
            let action = transfer.register(0);
            (transfer, action)
        },
        RemoteStorageKind::Disk => {
            transfer.phase = Phase::CreatingLists;
            (
                transfer,
                TransferAction::CreateLists {
                    local_memory: MemType::Dram,
                    remote_memory: MemType::File,
                },
            )
        },
    }
}

/// Whether a transfer that was begun with an agent and without a cancellation has
/// gone through these events: the action and the phase at 0 are those at the
/// start, and those at `i + 1` are the answer to event `i`.
pub open spec fn is_run(
    begun: TransferView,
    events: Seq<TransferEvent>,
    actions: Seq<TransferAction>,
    phases: Seq<Phase>,
) -> bool {
    &&& actions.len() == events.len() + 1
    &&& phases.len() == events.len() + 1
    &&& phases[0] == begun.phase
    &&& begun.starts_with(false, true, actions[0])
    &&& forall|i: int| 0 <= i < events.len() ==> #[trigger] takes_step(
        begun,
        events,
        actions,
        phases,
        i,
    )
}

/// Whether event `i` of a run can come, and is answered rightly.
pub open spec fn takes_step(
    begun: TransferView,
    events: Seq<TransferEvent>,
    actions: Seq<TransferAction>,
    phases: Seq<Phase>,
    i: int,
) -> bool {
    let before = TransferView { phase: phases[i], ..begun };
    before.accepts(events[i]) && before.answers(events[i], actions[i + 1], phases[i + 1])
}

/// Whether `action` registers the object of this descriptor.
pub open spec fn registers_object(
    action: TransferAction,
    descriptor: RemoteBlockDescriptor,
    block_size: usize,
) -> bool {
    &&& names_object(descriptor)
    &&& action matches TransferAction::RegisterObject { bucket, object_key, size }
    &&& bucket@ == descriptor@.key->Object_0.bucket@
    &&& object_key == descriptor@.sequence_hash()->0
    &&& size == block_size
}

/// The number of objects that a transfer registers before it makes the lists.
pub open spec fn registrations(begun: TransferView) -> int {
    match begun.kind {
        RemoteStorageKind::Object => begun.descriptors.len() as int,
        RemoteStorageKind::Disk => 0,
    }
}

/// Where a run is after `k` events.
proof fn lemma_run_position(
    begun: TransferView,
    events: Seq<TransferEvent>,
    actions: Seq<TransferAction>,
    phases: Seq<Phase>,
    k: int,
)
    requires
        is_run(begun, events, actions, phases),
        begun.descriptors.len() <= usize::MAX,
        0 <= k < actions.len(),
    ensures
        actions[k] is RegisterObject <==> phases[k] is Registering,
        actions[k] is CreateLists <==> phases[k] is CreatingLists,
        actions[k] is Submit <==> phases[k] is Submitting,
        actions[k] is Poll <==> phases[k] is Polling,
        actions[k] is Finish <==> phases[k] is Finished,
        phases[k] matches Phase::Registering { index } ==> {
            &&& index == k
            &&& k < registrations(begun)
            &&& registers_object(actions[k], begun.descriptors[k], begun.block_size)
        },
        phases[k] is CreatingLists ==> k == registrations(begun),
        phases[k] is Submitting ==> k == registrations(begun) + 1,
        phases[k] is Polling ==> k > registrations(begun) + 1,
    decreases k,
{
    if k > 0 {
        lemma_run_position(begun, events, actions, phases, k - 1);
        assert(takes_step(begun, events, actions, phases, k - 1));
    }
}

/// A run only goes on while it has not finished.
proof fn lemma_earlier_phases(
    begun: TransferView,
    events: Seq<TransferEvent>,
    actions: Seq<TransferAction>,
    phases: Seq<Phase>,
    i: int,
    k: int,
)
    requires
        is_run(begun, events, actions, phases),
        begun.descriptors.len() <= usize::MAX,
        0 <= i < k < actions.len(),
    ensures
        phases[i] !is Finished,
{
    assert(takes_step(begun, events, actions, phases, i));
}

/// Before a transfer is submitted, every object has been registered, each once and
/// in order, and then the lists have been made.
pub proof fn objects_are_registered_before_the_transfer(
    begun: TransferView,
    events: Seq<TransferEvent>,
    actions: Seq<TransferAction>,
    phases: Seq<Phase>,
    k: int,
)
    requires
        is_run(begun, events, actions, phases),
        begun.descriptors.len() <= usize::MAX,
        0 <= k < actions.len(),
        actions[k] is Submit,
    ensures
        k == registrations(begun) + 1,
        actions[k - 1] is CreateLists,
        forall|i: int|
            0 <= i < k - 1 ==> registers_object(
                #[trigger] actions[i],
                begun.descriptors[i],
                begun.block_size,
            ),
{
    lemma_run_position(begun, events, actions, phases, k);
    lemma_run_position(begun, events, actions, phases, k - 1);
    lemma_earlier_phases(begun, events, actions, phases, k - 1, k);
    assert forall|i: int| 0 <= i < k - 1 implies registers_object(
        #[trigger] actions[i],
        begun.descriptors[i],
        begun.block_size,
    ) by {
        lemma_run_position(begun, events, actions, phases, i);
        lemma_earlier_phases(begun, events, actions, phases, i, k);
    }
}

/// A transfer of blocks succeeds only when it was submitted, and was then complete
/// on posting or reported as complete later.
pub proof fn success_needs_a_complete_transfer(
    begun: TransferView,
    events: Seq<TransferEvent>,
    actions: Seq<TransferAction>,
    phases: Seq<Phase>,
    k: int,
)
    requires
        is_run(begun, events, actions, phases),
        0 < begun.descriptors.len() <= usize::MAX,
        0 < begun.locals.len(),
        0 <= k < actions.len(),
        actions[k] == TransferAction::Finish(Ok(())),
    ensures
        k > registrations(begun) + 1,
        actions[registrations(begun) + 1] is Submit,
        events[k - 1] == (TransferEvent::Posted { still_pending: false }) || events[k - 1]
            is Succeeded,
{
    if k > 0 {
        assert(takes_step(begun, events, actions, phases, k - 1));
        lemma_run_position(begun, events, actions, phases, k - 1);
        let n = registrations(begun) + 1;
        lemma_run_position(begun, events, actions, phases, n);
        lemma_earlier_phases(begun, events, actions, phases, n, k);
    }
}

/// A cancellation while the transfer runs ends it as cancelled.
pub proof fn cancellation_ends_the_transfer(
    begun: TransferView,
    events: Seq<TransferEvent>,
    actions: Seq<TransferAction>,
    phases: Seq<Phase>,
    i: int,
)
    requires
        is_run(begun, events, actions, phases),
        begun.descriptors.len() <= usize::MAX,
        0 <= i < events.len(),
        events[i] is Cancelled,
    ensures
        actions.len() == i + 2,
        actions[i + 1] == TransferAction::Finish(Err(TransferError::Cancelled)),
{
    assert(takes_step(begun, events, actions, phases, i));
    if i + 1 < events.len() {
        lemma_earlier_phases(begun, events, actions, phases, i + 1, i + 2);
    }
}

/// Every block goes to, or comes from, its own place in remote storage: the entry of a
/// block on the host side has the address of that block, and its entry on the remote
/// side the sequence hash of its own object, or the hash of its own disk key. All
/// entries have the same size.
pub proof fn every_block_has_its_own_entry(
    transfer: TransferView,
    op: XferOp,
    local: Vec<XferDesc>,
    remote: Vec<XferDesc>,
    phase: Phase,
    i: int,
)
    requires
        transfer.descriptors.len() == transfer.locals.len(),
        transfer.answers(
            TransferEvent::ListsCreated,
            TransferAction::Submit { op, local, remote },
            phase,
        ),
        0 <= i < transfer.descriptors.len(),
    ensures
        local@.len() == transfer.descriptors.len(),
        remote@.len() == transfer.descriptors.len(),
        transfer.locals[i] matches Ok(region) && local@[i].addr == region.addr,
        local@[i].size == transfer.block_size,
        local@[i].device_id == 0,
        remote@[i].addr == 0,
        remote@[i].size == transfer.block_size,
        transfer.kind == RemoteStorageKind::Disk ==> remote@[i].device_id
            == transfer.descriptors[i]@.key.device_id(),
        transfer.kind == RemoteStorageKind::Object && transfer.descriptors[i]@.metadata is Some
            ==> remote@[i].device_id == transfer.descriptors[i]@.metadata->0.sequence_hash,
{
}

/// Blocks with different ids in remote storage never share an entry there.
pub proof fn different_blocks_have_different_entries(
    transfer: TransferView,
    op: XferOp,
    local: Vec<XferDesc>,
    remote: Vec<XferDesc>,
    phase: Phase,
    i: int,
    j: int,
)
    requires
        transfer.descriptors.len() == transfer.locals.len(),
        transfer.answers(
            TransferEvent::ListsCreated,
            TransferAction::Submit { op, local, remote },
            phase,
        ),
        0 <= i < transfer.descriptors.len(),
        0 <= j < transfer.descriptors.len(),
        match transfer.kind {
            RemoteStorageKind::Disk => transfer.descriptors[i]@.key.device_id()
                != transfer.descriptors[j]@.key.device_id(),
            RemoteStorageKind::Object => {
                &&& transfer.descriptors[i]@.metadata is Some
                &&& transfer.descriptors[j]@.metadata is Some
                &&& transfer.descriptors[i]@.metadata->0.sequence_hash
                    != transfer.descriptors[j]@.metadata->0.sequence_hash
            },
        },
    ensures
        remote@[i] != remote@[j],
{
}

/// Offloading writes to remote storage and onboarding reads from it.
pub proof fn the_operation_fits_the_direction(
    transfer: TransferView,
    op: XferOp,
    local: Vec<XferDesc>,
    remote: Vec<XferDesc>,
    phase: Phase,
)
    requires
        transfer.answers(
            TransferEvent::ListsCreated,
            TransferAction::Submit { op, local, remote },
            phase,
        ),
    ensures
        op == XferOp::Write <==> transfer.direction == RemoteTransferDirection::Offload,
        op == XferOp::Read <==> transfer.direction == RemoteTransferDirection::Onboard,
{
}

/// When the lists are there, a transfer is submitted exactly when every host block can
/// be reached. Otherwise it ends with the error of a block before which all others can
/// be.
pub proof fn a_transfer_is_submitted_when_all_blocks_can_be_reached(
    transfer: TransferView,
    action: TransferAction,
    phase: Phase,
)
    requires
        transfer.answers(TransferEvent::ListsCreated, action, phase),
    ensures
        action is Submit <==> (forall|i: int|
            0 <= i < transfer.locals.len() ==> #[trigger] transfer.locals[i] is Ok),
        !(action is Submit) ==> exists|i: int|
            {
                &&& 0 <= i < transfer.locals.len()
                &&& #[trigger] transfer.locals[i] is Err
                &&& action == TransferAction::Finish(
                    Err(TransferError::BlockError(transfer.locals[i]->Err_0)),
                )
                &&& forall|j: int| 0 <= j < i ==> #[trigger] transfer.locals[j] is Ok
            },
{
    if let TransferAction::Finish(Err(TransferError::BlockError(error))) = action {
        let i = choose|i: int| transfer.first_unreachable(i, error);
        assert(transfer.locals[i] is Err);
    }
}

/// A transfer goes to the agent only with as many host blocks as descriptors, at least
/// one of each, with an agent and without a cancellation, and only where the first host
/// block can be reached; that block gives the size of all. Without blocks it has
/// succeeded at once, and only then.
pub proof fn a_transfer_starts_only_when_it_can(
    begun: TransferView,
    cancelled: bool,
    agent_available: bool,
    action: TransferAction,
)
    requires
        begun.starts_with(cancelled, agent_available, action),
    ensures
        !(action is Finish) ==> {
            &&& begun.descriptors.len() == begun.locals.len()
            &&& begun.descriptors.len() > 0
            &&& !cancelled
            &&& agent_available
            &&& begun.locals[0] matches Ok(first) && begun.block_size == first.size
        },
        action == TransferAction::Finish(Ok(())) <==> begun.descriptors.len() == 0
            || begun.locals.len() == 0,
        begun.phase is Finished <==> action is Finish,
{
}

/// Why a transfer does not start: the number of blocks is looked at first, then the
/// cancellation, then the agent, then the first host block.
pub proof fn the_first_reason_not_to_start_is_given(
    begun: TransferView,
    cancelled: bool,
    agent_available: bool,
    action: TransferAction,
)
    requires
        begun.starts_with(cancelled, agent_available, action),
        begun.descriptors.len() > 0,
        begun.locals.len() > 0,
        begun.descriptors.len() <= usize::MAX,
        begun.locals.len() <= usize::MAX,
    ensures
        begun.descriptors.len() != begun.locals.len() ==> (action matches TransferAction::Finish(
            Err(TransferError::CountMismatch(descriptors, locals)),
        ) && descriptors == begun.descriptors.len() && locals == begun.locals.len()),
        begun.descriptors.len() == begun.locals.len() && cancelled ==> action
            == TransferAction::Finish(Err(TransferError::Cancelled)),
        begun.descriptors.len() == begun.locals.len() && !cancelled && !agent_available ==> (
        action matches TransferAction::Finish(Err(TransferError::ExecutionError(reason))) && reason@
            == "NIXL agent not available"@),
        begun.descriptors.len() == begun.locals.len() && !cancelled && agent_available ==> (
        begun.locals[0] matches Err(error) ==> action == TransferAction::Finish(
            Err(TransferError::BlockError(error)),
        )),
{
}

/// Disk storage is not registered: the lists come first. Object storage is registered
/// from the first object on, and each in its turn: under its bucket and its sequence
/// hash, and with the size of a block. An object without a hash, or a key that names no
/// object, ends the transfer.
pub proof fn registering_goes_object_by_object(
    transfer: TransferView,
    index: int,
    action: TransferAction,
    phase: Phase,
)
    requires
        transfer.registers(index, action, phase),
        0 <= index < transfer.descriptors.len(),
        transfer.descriptors.len() <= usize::MAX,
    ensures
        ({
            let descriptor = transfer.descriptors[index]@;
            match (descriptor.key, descriptor.metadata) {
                (RemoteKey::Object(object), Some(metadata)) => {
                    &&& action matches TransferAction::RegisterObject { bucket, object_key, size }
                    &&& bucket@ == object.bucket@
                    &&& object_key == metadata.sequence_hash
                    &&& size == transfer.block_size
                    &&& phase matches Phase::Registering { index: at } && at == index
                },
                _ => action matches TransferAction::Finish(Err(_)) && phase is Finished,
            }
        }),
{
}

/// Every event but these ends a transfer with an error: an object that is registered,
/// lists that are there, a request that is posted, and a status of success or progress.
/// What the agent said stands at the end of the error's text.
pub proof fn failures_end_a_transfer(
    transfer: TransferView,
    event: TransferEvent,
    action: TransferAction,
    phase: Phase,
    detail: String,
)
    requires
        transfer.answers(event, action, phase),
        event == TransferEvent::StorageFailed(detail) || event == TransferEvent::RegisterFailed(
            detail,
        ) || event == TransferEvent::LocalListFailed(detail) || event
            == TransferEvent::RemoteListFailed(detail) || event == TransferEvent::RequestFailed(
            detail,
        ) || event == TransferEvent::PostFailed(detail) || event == TransferEvent::StatusFailed(
            detail,
        ) || event == TransferEvent::OtherStatus(detail),
    ensures
        phase is Finished,
        action matches TransferAction::Finish(Err(TransferError::ExecutionError(reason)))
            && detail@.is_suffix_of(reason@) && detail@.len() < reason@.len(),
{
    reveal_strlit("Failed to create ObjectStorage: ");
    reveal_strlit("Failed to register object storage: ");
    reveal_strlit("Failed to create src_dl: ");
    reveal_strlit("Failed to create dst_dl: ");
    reveal_strlit("Failed to create xfer_req: ");
    reveal_strlit("Failed to post xfer_req: ");
    reveal_strlit("Failed to get transfer status: ");
    reveal_strlit("Transfer failed with status: ");
    let reason = action->Finish_0->Err_0->ExecutionError_0;
    assert(reason@.subrange(reason@.len() - detail@.len(), reason@.len() as int) =~= detail@);
}

/// A posted transfer is polled exactly while it is not complete: it goes on being
/// polled while it is pending or in progress, and succeeds as soon as it is complete.
pub proof fn a_posted_transfer_is_polled_until_it_is_complete(
    transfer: TransferView,
    still_pending: bool,
    posted: TransferAction,
    after_posting: Phase,
    polled: TransferAction,
    after_polling: Phase,
    done: TransferAction,
    after_success: Phase,
)
    requires
        transfer.answers(TransferEvent::Posted { still_pending }, posted, after_posting),
        transfer.answers(TransferEvent::InProgress, polled, after_polling),
        transfer.answers(TransferEvent::Succeeded, done, after_success),
    ensures
        still_pending ==> posted is Poll && after_posting is Polling,
        !still_pending ==> posted == TransferAction::Finish(Ok(())) && after_posting is Finished,
        polled is Poll && after_polling is Polling,
        done == TransferAction::Finish(Ok(())) && after_success is Finished,
{
}

/// A transfer that has not finished can always go on: some event is the outcome of
/// what it asked for. A finished one takes no more.
pub proof fn an_unfinished_transfer_can_go_on(transfer: TransferView)
    ensures
        transfer.phase is Registering ==> transfer.accepts(TransferEvent::Registered),
        transfer.phase is CreatingLists ==> transfer.accepts(TransferEvent::ListsCreated),
        transfer.phase is Submitting ==> transfer.accepts(
            TransferEvent::Posted { still_pending: true },
        ) && transfer.accepts(TransferEvent::Posted { still_pending: false }),
        transfer.phase is Polling ==> transfer.accepts(TransferEvent::InProgress)
            && transfer.accepts(TransferEvent::Succeeded) && transfer.accepts(
            TransferEvent::Cancelled,
        ),
        transfer.phase is Finished ==> forall|event: TransferEvent| !transfer.accepts(event),
{
}

/// The lists are made for host memory on one side, and on the other for objects or for
/// files.
pub proof fn the_lists_fit_the_storage(
    transfer: TransferView,
    action: TransferAction,
    phase: Phase,
)
    requires
        transfer.makes_lists(action, phase),
    ensures
        phase is CreatingLists,
        action matches TransferAction::CreateLists { local_memory, remote_memory } && local_memory
            == MemType::Dram && (remote_memory == MemType::Object <==> transfer.kind
            == RemoteStorageKind::Object) && (remote_memory == MemType::File <==> transfer.kind
            == RemoteStorageKind::Disk),
{
}

/// A key is shown with both of its parts, each in quotes, behind what it is.
pub proof fn a_shown_key_has_both_parts(key: RemoteKey)
    ensures
        key matches RemoteKey::Object(object) ==> shown_key(key)
            == "Object(ObjectKey { bucket: "@ + quoted_text(object.bucket@) + ", key: "@
            + quoted_text(object.key@) + " })"@,
        key matches RemoteKey::Disk(disk) ==> shown_key(key) == "Disk(DiskKey { path: "@
            + quoted_text(disk.path@) + ", key: "@ + quoted_text(disk.key@) + " })"@,
{
}

/// The error of a transfer says which step failed, and then what the agent said.
pub proof fn an_error_says_which_step_failed(
    transfer: TransferView,
    event: TransferEvent,
    action: TransferAction,
    phase: Phase,
    detail: String,
)
    requires
        transfer.answers(event, action, phase),
    ensures
        event == TransferEvent::StorageFailed(detail) ==> action->Finish_0->Err_0->ExecutionError_0@
            == "Failed to create ObjectStorage: "@ + detail@,
        event == TransferEvent::RegisterFailed(detail) ==> action->Finish_0->Err_0->ExecutionError_0@
            == "Failed to register object storage: "@ + detail@,
        event == TransferEvent::LocalListFailed(detail) ==> action->Finish_0->Err_0->ExecutionError_0@
            == "Failed to create src_dl: "@ + detail@,
        event == TransferEvent::RemoteListFailed(detail) ==> action->Finish_0->Err_0->ExecutionError_0@
            == "Failed to create dst_dl: "@ + detail@,
        event == TransferEvent::RequestFailed(detail) ==> action->Finish_0->Err_0->ExecutionError_0@
            == "Failed to create xfer_req: "@ + detail@,
        event == TransferEvent::PostFailed(detail) ==> action->Finish_0->Err_0->ExecutionError_0@
            == "Failed to post xfer_req: "@ + detail@,
        event == TransferEvent::StatusFailed(detail) ==> action->Finish_0->Err_0->ExecutionError_0@
            == "Failed to get transfer status: "@ + detail@,
        event == TransferEvent::OtherStatus(detail) ==> action->Finish_0->Err_0->ExecutionError_0@
            == "Transfer failed with status: "@ + detail@,
{
}

} // verus!
