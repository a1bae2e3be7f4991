//! Execution streams and neural runtime handles: who owns which native
//! resource, and the order of the native calls that acquire and release them.
//!
//! The native queue and context handles are held as plain addresses; the
//! caller that talks to the accelerator runtime performs the calls that the
//! methods here lay out, in the order given.
use vstd::prelude::*;
use crate::device::Device;

verus! {

/// One call into the accelerator runtime.
#[derive(Debug, Clone, Copy, PartialEq, Eq, Structural)]
pub enum NativeCall {
    /// Make the device with this index the active one for the process.
    SetDevice(i32),
    /// Allocate a queue on the active device.
    CreateStream,
    /// Release the queue with this handle.
    DestroyStream(usize),
    /// Allocate a runtime context on the active device.
    CreateContext,
    /// Make the context submit its work to the queue.
    BindContext { context: usize, stream: usize },
    /// Release the context with this handle.
    DestroyContext(usize),
}

/// What is known of a stream: its device and its native queue.
pub ghost struct StreamView {
    pub device: Device,
    pub queue: usize,
}

/// What is known of a runtime handle: its native context and the stream it
/// owns.
pub ghost struct HandleView {
    pub context: usize,
    pub stream: StreamView,
}

/// The calls that release a stream: first the owning device is made active
/// again, then the queue is released.
pub open spec fn stream_release(s: StreamView) -> Seq<NativeCall> {
    seq![NativeCall::SetDevice(s.device@ as i32), NativeCall::DestroyStream(s.queue)]
}

/// The calls that release a handle: the context on its device, then the
/// stream it owns.
pub open spec fn handle_release(h: HandleView) -> Seq<NativeCall> {
    seq![NativeCall::SetDevice(h.stream.device@ as i32), NativeCall::DestroyContext(h.context)]
        + stream_release(h.stream)
}

/// An ordered command queue bound to one device for all its life. It is
/// owned by one holder, and neither copied nor cloned.
#[derive(Debug)]
pub struct CudaStream {
    device: Device,
    inner: usize,
}

impl View for CudaStream {
    type V = StreamView;

    closed spec fn view(&self) -> StreamView {
        StreamView { device: self.device, queue: self.inner }
    }
}

impl CudaStream {
    /// The calls that create a queue on `device`: the device is made active,
    /// then the queue is allocated on it.
    pub fn acquire_calls(device: Device) -> (r: Vec<NativeCall>)
        ensures
            r@ == seq![NativeCall::SetDevice(device@ as i32), NativeCall::CreateStream],
    {
        vec![NativeCall::SetDevice(device.inner()), NativeCall::CreateStream]
    }

    /// The stream that owns the queue `inner`, which was created on `device`.
    pub fn new(device: Device, inner: usize) -> (s: CudaStream)
        ensures
            s@ == (StreamView { device, queue: inner }),
    {
        CudaStream { device, inner }
    }

    /// The device the stream is bound to.
    pub fn device(&self) -> (r: Device)
        ensures
            r == self@.device,
    {
        self.device
    }

    /// The native queue.
    pub fn inner(&self) -> (r: usize)
        ensures
            r == self@.queue,
    {
        self.inner
    }

    /// The calls that release the stream, in order.
    pub fn release_calls(&self) -> (r: Vec<NativeCall>)
        ensures
            r@ == stream_release(self@),
    {
        vec![NativeCall::SetDevice(self.device.inner()), NativeCall::DestroyStream(self.inner)]
    }
}

/// A runtime context that owns the stream its work runs on. Its device is
/// the stream's device.
#[derive(Debug)]
pub struct CudnnHandle {
    inner: usize,
    stream: CudaStream,
}

impl View for CudnnHandle {
    type V = HandleView;

    closed spec fn view(&self) -> HandleView {
        HandleView { context: self.inner, stream: self.stream@ }
    }
}

impl CudnnHandle {
    /// The calls that create a context for `stream`: the stream's device is
    /// made active, then the context is allocated on it.
    pub fn acquire_calls(stream: &CudaStream) -> (r: Vec<NativeCall>)
        ensures
            r@ == seq![NativeCall::SetDevice(stream@.device@ as i32), NativeCall::CreateContext],
    {
        vec![NativeCall::SetDevice(stream.device().inner()), NativeCall::CreateContext]
    }

    /// The handle that owns the context `inner` and takes `stream` over;
    /// the stream is no longer the caller's.
    pub fn new(inner: usize, stream: CudaStream) -> (h: CudnnHandle)
        ensures
            h@ == (HandleView { context: inner, stream: stream@ }),
    {
        CudnnHandle { inner, stream }
    }

    /// The call that binds the context to the owned stream's queue, made
    /// once, right after the context was created.
    pub fn bind_call(&self) -> (r: NativeCall)
        ensures
            r == (NativeCall::BindContext { context: self@.context, stream: self@.stream.queue }),
    {
        NativeCall::BindContext { context: self.inner, stream: self.stream.inner() }
    }

    /// The device of the owned stream.
    pub fn device(&self) -> (r: Device)
        ensures
            r == self@.stream.device,
    {
        self.stream.device()
    }

    /// The owned stream, to look at only.
    pub fn stream(&self) -> (r: &CudaStream)
        ensures
            r@ == self@.stream,
    {
        &self.stream
    }

    /// The native context.
    pub fn inner(&self) -> (r: usize)
        ensures
            r == self@.context,
    {
        self.inner
    }

    /// The calls that release the handle, in order: the context, then the
    /// owned stream, each after its device was made active.
    pub fn release_calls(&self) -> (r: Vec<NativeCall>)
        ensures
            r@ == handle_release(self@),
    {
        let mut r = vec![
            NativeCall::SetDevice(self.stream.device().inner()),
            NativeCall::DestroyContext(self.inner),
        ];
        let mut rest = self.stream.release_calls();
        r.append(&mut rest);
        r
    }
}

/// A handle made from a context and a stream releases exactly those two,
/// the context before the stream, and makes the stream's device active
/// before each release.
pub proof fn lemma_release_reverses_acquire(context: usize, s: StreamView)
    ensures
        ({
            let calls = handle_release(HandleView { context, stream: s });
            &&& calls.len() == 4
            &&& calls[0] == NativeCall::SetDevice(s.device@ as i32)
            &&& calls[1] == NativeCall::DestroyContext(context)
            &&& calls[2] == NativeCall::SetDevice(s.device@ as i32)
            &&& calls[3] == NativeCall::DestroyStream(s.queue)
        }),
{
}

} // verus!
