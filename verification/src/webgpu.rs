//! The accelerator backend, as far as it decides.
//!
//! A buffer of an accelerator is reached through a device and a queue that
//! only the running program can hold. What is asked of them, in which order,
//! and what their answers mean is decided here; the caller performs each
//! action and hands back what came of it.

use crate::alloc_mode::AllocMode;
use crate::buffer_id::BufferID;
use crate::device::{check_copy, copy_bytes, DeviceError};
use crate::layout::Layout;
use vstd::prelude::*;
use vstd::slice::slice_to_vec;

verus! {

/// Whether `e` says that a transfer from the device named `device` failed.
pub open spec fn is_transfer_error(e: DeviceError, device: Seq<char>) -> bool {
    e matches DeviceError::TransferError(name) && name@ == device
}

/// Whether `e` says that a resource was not obtained, for the reason `why`.
pub open spec fn is_resource_error(e: DeviceError, why: Seq<char>) -> bool {
    e matches DeviceError::ResourceError(said) && said@ == why
}

/// A buffer to be created on the accelerator.
#[derive(Debug, Clone, PartialEq, Eq)]
pub struct BufferRequest {
    /// The label that tells the buffer apart when debugging.
    pub label: String,
    /// The size in bytes.
    pub size: u64,
    /// The usages of the buffer, as the bits of [`crate::BufferUsage`].
    pub usage: u32,
    /// Whether the buffer starts out mapped.
    pub mapped_at_creation: bool,
}

/// A buffer to be created on the accelerator with its first contents.
#[derive(Debug, Clone, PartialEq, Eq)]
pub struct BufferInitRequest {
    /// The label that tells the buffer apart when debugging.
    pub label: String,
    /// What the buffer holds from the start.
    pub contents: Vec<u8>,
    /// The usages of the buffer, as the bits of [`crate::BufferUsage`].
    pub usage: u32,
}

/// The buffer that an allocation of `layout` asks for: of the layout's size,
/// with the usages that `mode` asks for, labelled `id`, not mapped.
pub fn alloc_request(layout: &Layout, mode: AllocMode, id: &BufferID) -> (req: BufferRequest)
    ensures
        req.label@ == id@,
        req.size == layout.size(),
        req.usage == mode.buffer_usages(),
        !req.mapped_at_creation,
{
    BufferRequest {
        label: id.inner().to_owned(),
        size: layout.size() as u64,
        usage: mode.buffer_usages(),
        mapped_at_creation: false,
    }
}

/// The buffer that an allocation of `layout` with the contents `init` asks
/// for; none where `init` is not as long as the layout says.
pub fn alloc_init_request(layout: &Layout, init: &[u8], mode: AllocMode, id: &BufferID) -> (req:
    Option<BufferInitRequest>)
    ensures
        req is Some <==> init@.len() == layout.size(),
        req matches Some(r) ==> r.label@ == id@ && r.contents@ == init@ && r.usage
            == mode.buffer_usages(),
{
    if init.len() != layout.size() {
        return None;
    }
    Some(
        BufferInitRequest {
            label: id.inner().to_owned(),
            contents: slice_to_vec(init),
            usage: mode.buffer_usages(),
        },
    )
}

/// Where a read-back from the accelerator to the host stands.
///
/// The host asks for a mapped read of the buffer; the answer comes from the
/// driver through a channel with a single slot, and only once the host has
/// polled the device in wait mode. So the host polls before it waits on the
/// channel, and whatever comes out of the channel ends the read-back.
#[derive(Debug, Clone, Copy, PartialEq, Eq, Structural)]
pub enum ReadBack {
    /// The mapped read is to be asked for.
    Requesting,
    /// The read was asked for; the device is to be polled.
    Polling,
    /// The device was polled; the reply is to be taken from the channel.
    Receiving,
    /// The read-back is over.
    Finished,
}

/// What the host is to do next in a read-back.
#[derive(Debug, PartialEq, Eq)]
pub enum ReadBackAction {
    /// Ask for a mapped read of the whole buffer, with a callback that posts
    /// the outcome into the channel.
    RequestMap,
    /// Poll the device in wait mode until it has nothing left to do.
    PollWait,
    /// Block on the channel.
    Receive,
    /// Return this to whoever asked for the copy.
    Finish(Result<(), DeviceError>),
}

/// What has happened in a read-back since the last action.
#[derive(Debug, PartialEq, Eq)]
pub enum ReadBackEvent {
    /// The mapped read was asked for.
    MapRequested,
    /// The poll has returned.
    PollReturned,
    /// The channel gave the bytes of the mapped buffer.
    Reply(Vec<u8>),
    /// The channel gave the failure that the callback was told of.
    ReplyFailed,
    /// The channel was closed with nothing in it.
    Disconnected,
}

impl ReadBack {
    /// The name under which the accelerator appears in errors.
    pub open spec fn device_name() -> Seq<char> {
        "WebGPU"@
    }

    /// How many events at most the read-back still takes.
    pub open spec fn steps_left(self) -> nat {
        match self {
            ReadBack::Requesting => 3,
            ReadBack::Polling => 2,
            ReadBack::Receiving => 1,
            ReadBack::Finished => 0,
        }
    }

    /// Where the read-back stands after `event`.
    pub open spec fn after(self, event: ReadBackEvent) -> ReadBack {
        match (self, event) {
            (ReadBack::Requesting, ReadBackEvent::MapRequested) => ReadBack::Polling,
            (ReadBack::Polling, ReadBackEvent::PollReturned) => ReadBack::Receiving,
            _ => ReadBack::Finished,
        }
    }

    /// Starts the read-back of a buffer of `src_len` bytes into `dst_len`
    /// bytes of the host. Where the lengths differ, nothing is asked of the
    /// device.
    pub fn begin(src_len: usize, dst_len: usize) -> (r: (ReadBack, ReadBackAction))
        ensures
            src_len == dst_len ==> r == (ReadBack::Requesting, ReadBackAction::RequestMap),
            src_len != dst_len ==> r == (
                ReadBack::Finished,
                ReadBackAction::Finish(
                    Err::<(), DeviceError>(DeviceError::CopyMismatch(src_len, dst_len)),
                ),
            ),
    {
        match check_copy(src_len, dst_len) {
            Ok(()) => (ReadBack::Requesting, ReadBackAction::RequestMap),
            Err(e) => (ReadBack::Finished, ReadBackAction::Finish(Err(e))),
        }
    }

    /// Takes in what has happened and says what to do next.
    ///
    /// The bytes of a reply go into `dst` if they are as many as `dst`
    /// holds. A failed reply, a closed channel and an event that the
    /// read-back did not wait for all end it with a transfer error. Nothing
    /// but a reply of the right length touches `dst`.
    pub fn step(self, event: ReadBackEvent, dst: &mut [u8]) -> (r: (ReadBack, ReadBackAction))
        ensures
            r.0 == self.after(event),
            final(dst)@.len() == old(dst)@.len(),
            match (self, event) {
                (ReadBack::Requesting, ReadBackEvent::MapRequested) => r.1
                    == ReadBackAction::PollWait && final(dst)@ == old(dst)@,
                (ReadBack::Polling, ReadBackEvent::PollReturned) => r.1 == ReadBackAction::Receive
                    && final(dst)@ == old(dst)@,
                (ReadBack::Receiving, ReadBackEvent::Reply(bytes)) => if bytes@.len() == old(
                    dst,
                )@.len() {
                    r.1 == ReadBackAction::Finish(Ok::<(), DeviceError>(())) && final(dst)@
                        == bytes@
                } else {
                    r.1 == ReadBackAction::Finish(
                        Err::<(), DeviceError>(
                            DeviceError::CopyMismatch(
                                bytes@.len() as usize,
                                old(dst)@.len() as usize,
                            ),
                        ),
                    ) && final(dst)@ == old(dst)@
                },
                _ => final(dst)@ == old(dst)@ && (r.1 matches ReadBackAction::Finish(Err(e))
                    && is_transfer_error(e, Self::device_name())),
            },
    {
        match (self, event) {
            (ReadBack::Requesting, ReadBackEvent::MapRequested) => (
                ReadBack::Polling,
                ReadBackAction::PollWait,
            ),
            (ReadBack::Polling, ReadBackEvent::PollReturned) => (
                ReadBack::Receiving,
                ReadBackAction::Receive,
            ),
            (ReadBack::Receiving, ReadBackEvent::Reply(bytes)) => {
                let done = copy_bytes(bytes.as_slice(), dst);
                (ReadBack::Finished, ReadBackAction::Finish(done))
            },
            _ => (
                ReadBack::Finished,
                ReadBackAction::Finish(Err(DeviceError::TransferError("WebGPU".to_owned()))),
            ),
        }
    }
}

/// Every event brings a read-back that is not over nearer to its end, so
/// that three events at most end it: it cannot wait forever.
pub proof fn lemma_read_back_ends(state: ReadBack, event: ReadBackEvent)
    requires
        state != ReadBack::Finished,
    ensures
        state.after(event).steps_left() < state.steps_left(),
{
}

/// The host comes to wait on the channel only by a poll of the device.
pub proof fn lemma_poll_before_receive(state: ReadBack, event: ReadBackEvent)
    requires
        state.after(event) == ReadBack::Receiving,
    ensures
        state == ReadBack::Polling,
        event == ReadBackEvent::PollReturned,
{
}

/// The backends among which the adapter is looked for.
#[derive(Debug, Clone, Copy, PartialEq, Eq, Structural)]
pub enum BackendChoice {
    /// The backends that the environment names, as the bits that the driver
    /// library gives them.
    Named(u32),
    /// The backends that are supported best.
    Primary,
}

/// Where the handshake with the accelerator stands: the way to a device and
/// its queue.
#[derive(Debug, Clone, Copy, PartialEq, Eq, Structural)]
pub enum Handshake {
    /// The environment is to be asked which backends it prefers.
    Asking,
    /// An adapter is to be found.
    FindingAdapter,
    /// The adapter is to give a device and its queue.
    RequestingDevice,
    /// The handshake is over.
    Finished,
}

/// What is to be done next in a handshake.
#[derive(Debug, PartialEq, Eq)]
pub enum HandshakeAction {
    /// Read the environment's choice of backends.
    ReadEnvironment,
    /// Make an instance for the backends and ask it for an adapter, which
    /// the environment may choose too.
    RequestAdapter(BackendChoice),
    /// Ask the adapter for a device of this label, with the default features
    /// and limits.
    RequestDevice(String),
    /// The handshake has given a device and its queue, or has failed.
    Finish(Result<(), DeviceError>),
}

/// What has happened in a handshake since the last action.
#[derive(Debug, PartialEq, Eq)]
pub enum HandshakeEvent {
    /// The environment names these backends, or none.
    Environment(Option<u32>),
    /// An adapter was found, or there is none.
    Adapter(bool),
    /// The adapter gave a device and its queue, or said why not.
    DeviceReply(Result<(), String>),
}

impl Handshake {
    /// The label of the device that is asked for.
    pub open spec fn device_label() -> Seq<char> {
        "rumble"@
    }

    /// What is said where there is no adapter.
    pub open spec fn no_adapter() -> Seq<char> {
        "Unable to fetch adapter."@
    }

    /// What is said of an event that the handshake did not wait for.
    pub open spec fn out_of_turn() -> Seq<char> {
        "Handshake out of turn."@
    }

    /// Starts a handshake.
    pub fn begin() -> (r: (Handshake, HandshakeAction))
        ensures
            r == (Handshake::Asking, HandshakeAction::ReadEnvironment),
    {
        (Handshake::Asking, HandshakeAction::ReadEnvironment)
    }

    /// Where the handshake stands after `event`.
    pub open spec fn after(self, event: HandshakeEvent) -> Handshake {
        match (self, event) {
            (Handshake::Asking, HandshakeEvent::Environment(_)) => Handshake::FindingAdapter,
            (Handshake::FindingAdapter, HandshakeEvent::Adapter(true)) => Handshake::RequestingDevice,
            _ => Handshake::Finished,
        }
    }

    /// Takes in what has happened and says what to do next.
    ///
    /// The backends are those that the environment names, else the primary
    /// ones. A missing adapter and a device that is refused end the
    /// handshake with a resource error, and so does an event that the
    /// handshake did not wait for.
    pub fn step(self, event: HandshakeEvent) -> (r: (Handshake, HandshakeAction))
        ensures
            r.0 == self.after(event),
            match (self, event) {
                (Handshake::Asking, HandshakeEvent::Environment(Some(bits))) => r.1
                    == HandshakeAction::RequestAdapter(BackendChoice::Named(bits)),
                (Handshake::Asking, HandshakeEvent::Environment(None)) => r.1
                    == HandshakeAction::RequestAdapter(BackendChoice::Primary),
                (Handshake::FindingAdapter, HandshakeEvent::Adapter(true)) => r.1 matches HandshakeAction::RequestDevice(
                    label,
                ) && label@ == Self::device_label(),
                (Handshake::FindingAdapter, HandshakeEvent::Adapter(false)) => r.1 matches HandshakeAction::Finish(
                    Err(e),
                ) && is_resource_error(e, Self::no_adapter()),
                (Handshake::RequestingDevice, HandshakeEvent::DeviceReply(Ok(()))) => r.1
                    == HandshakeAction::Finish(Ok::<(), DeviceError>(())),
                (Handshake::RequestingDevice, HandshakeEvent::DeviceReply(Err(why))) => r.1 matches HandshakeAction::Finish(
                    Err(e),
                ) && is_resource_error(e, why@),
                _ => r.1 matches HandshakeAction::Finish(Err(e)) && is_resource_error(
                    e,
                    Self::out_of_turn(),
                ),
            },
    {
        match (self, event) {
            (Handshake::Asking, HandshakeEvent::Environment(named)) => {
                let choice = match named {
                    Some(bits) => BackendChoice::Named(bits),
                    None => BackendChoice::Primary,
                };
                (Handshake::FindingAdapter, HandshakeAction::RequestAdapter(choice))
            },
            (Handshake::FindingAdapter, HandshakeEvent::Adapter(found)) => {
                if found {
                    (Handshake::RequestingDevice, HandshakeAction::RequestDevice("rumble".to_owned()))
                } else {
                    (
                        Handshake::Finished,
                        HandshakeAction::Finish(
                            Err(DeviceError::ResourceError("Unable to fetch adapter.".to_owned())),
                        ),
                    )
                }
            },
            (Handshake::RequestingDevice, HandshakeEvent::DeviceReply(reply)) => {
                let done = match reply {
                    Ok(()) => Ok(()),
                    Err(why) => Err(DeviceError::ResourceError(why)),
                };
                (Handshake::Finished, HandshakeAction::Finish(done))
            },
            _ => (
                Handshake::Finished,
                HandshakeAction::Finish(
                    Err(DeviceError::ResourceError("Handshake out of turn.".to_owned())),
                ),
            ),
        }
    }
}

} // verus!
