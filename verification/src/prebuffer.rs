use vstd::prelude::*;

verus! {

/// A message for the read-ahead image loader.
#[derive(Debug)]
pub enum PrebufferMessage {
    /// The shared GPU context now exists; the loader may start uploading.
    InitGpu,
    /// Decode the image at this path and upload it ahead of time.
    LoadPath(String),
    /// Stop the loader.
    Exit,
}

/// What the read-ahead loader's loop should do for one message.
#[derive(Debug)]
pub enum PrebufferStep {
    /// Nothing to load; the GPU context was recorded.
    Ready,
    /// Decode and upload the image at this path, then send it on.
    Load(String),
    /// Leave the loop.
    Stop,
}

/// Why the read-ahead loader refused a message.
#[derive(Clone, Copy, Debug, PartialEq, Eq, Structural)]
pub enum PrebufferError {
    /// The GPU context was announced twice; it is created once per process
    /// and never re-initialized.
    AlreadyInitialized,
    /// A load arrived before the GPU context existed.
    NotInitialized,
}

/// The read-ahead image loader's state: whether the GPU context it uploads
/// through exists yet. The channel loop, the decoding and the uploads are
/// the caller's; this state decides what each message means.
#[derive(Debug)]
pub struct ImagePrebuffer {
    gpu: bool,
}

impl ImagePrebuffer {
    pub closed spec fn spec_gpu(self) -> bool {
        self.gpu
    }

    /// A fresh loader, before the GPU context exists.
    pub fn new() -> (r: ImagePrebuffer)
        ensures
            !r.spec_gpu(),
    {
        ImagePrebuffer { gpu: false }
    }

    /// Decide what one message means. The GPU context may be announced only
    /// once, and only after that may images be loaded; the set-once flag
    /// never goes back.
    pub fn handle_message(&mut self, msg: PrebufferMessage) -> (r: Result<
        PrebufferStep,
        PrebufferError,
    >)
        ensures
            old(self).spec_gpu() ==> final(self).spec_gpu(),
            match msg {
                PrebufferMessage::InitGpu => if old(self).spec_gpu() {
                    ({
                        &&& r == Err::<PrebufferStep, PrebufferError>(
                            PrebufferError::AlreadyInitialized,
                        )
                        &&& final(self).spec_gpu()
                    })
                } else {
                    ({
                        &&& r matches Ok(s) && s is Ready
                        &&& final(self).spec_gpu()
                    })
                },
                PrebufferMessage::LoadPath(path) => if old(self).spec_gpu() {
                    ({
                        &&& r matches Ok(s) && s matches PrebufferStep::Load(p) && p == path
                        &&& final(self).spec_gpu() == old(self).spec_gpu()
                    })
                } else {
                    ({
                        &&& r == Err::<PrebufferStep, PrebufferError>(PrebufferError::NotInitialized)
                        &&& final(self).spec_gpu() == old(self).spec_gpu()
                    })
                },
                PrebufferMessage::Exit => ({
                    &&& r matches Ok(s) && s is Stop
                    &&& final(self).spec_gpu() == old(self).spec_gpu()
                }),
            },
    {
        match msg {
            PrebufferMessage::InitGpu => {
                if self.gpu {
                    Err(PrebufferError::AlreadyInitialized)
                } else {
                    self.gpu = true;
                    Ok(PrebufferStep::Ready)
                }
            },
            PrebufferMessage::LoadPath(path) => {
                if self.gpu {
                    Ok(PrebufferStep::Load(path))
                } else {
                    Err(PrebufferError::NotInitialized)
                }
            },
            PrebufferMessage::Exit => Ok(PrebufferStep::Stop),
        }
    }
}

} // verus!
