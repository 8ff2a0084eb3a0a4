use vstd::prelude::*;

verus! {

/// The one-shot reply channel's sending half, from the tokio crate. A
/// request that opens a window carries one so the dispatcher can hand the new
/// window's id back to whoever asked. The type is opaque here: the library
/// only ever moves it and finally sends one value through it.
#[verifier::external_type_specification]
#[verifier::external_body]
#[verifier::reject_recursive_types(T)]
pub struct ExSender<T>(tokio::sync::oneshot::Sender<T>);

/// Relies on tokio::sync::oneshot::Sender::send: it consumes the sender and
/// either delivers the value (Ok) or, when the receiving half is already
/// gone, gives the same value back (Err). It never blocks.
pub assume_specification<T>[ tokio::sync::oneshot::Sender::<T>::send ](
    sender: tokio::sync::oneshot::Sender<T>,
    t: T,
) -> (r: Result<(), T>)
    ensures
        r matches Err(v) ==> v == t,
;

/// Where a requester awaits the id of the window it asked for: in memory on
/// a one-shot channel, or (unsupported) behind a file descriptor.
#[derive(Debug)]
pub enum ReturnAddress {
    Memory(tokio::sync::oneshot::Sender<u64>),
    File(i32),
}

/// Why a reply could not be delivered.
#[derive(Clone, Copy, Debug, PartialEq, Eq, Structural)]
pub enum ReturnerError {
    /// The consumer hung up, or a value was already sent on this channel.
    SenderError,
    /// Replying to a file descriptor is not supported.
    FileError(i32),
}

impl ReturnerError {
    /// A short description of the failure.
    pub fn message(&self) -> (r: &'static str)
        ensures
            r@.len() > 0,
    {
        let s: &'static str = match self {
            ReturnerError::SenderError => "data was already sent on this channel or the consumer hung up",
            ReturnerError::FileError(_) => "cannot write a reply to a file descriptor",
        };
        proof {
            reveal_strlit("data was already sent on this channel or the consumer hung up");
            reveal_strlit("cannot write a reply to a file descriptor");
        }
        s
    }
}

impl ReturnAddress {
    /// Deliver a reply. A memory address takes the value unless its consumer
    /// is gone; a file address always fails, naming its descriptor.
    pub fn send(self, value: u64) -> (r: Result<(), ReturnerError>)
        ensures
            self matches ReturnAddress::File(fd) ==> r == Err::<(), ReturnerError>(
                ReturnerError::FileError(fd),
            ),
            self matches ReturnAddress::Memory(_) ==> (r is Ok || r == Err::<(), ReturnerError>(
                ReturnerError::SenderError,
            )),
    {
        match self {
            ReturnAddress::Memory(sender) => match sender.send(value) {
                Ok(()) => Ok(()),
                Err(_) => Err(ReturnerError::SenderError),
            },
            ReturnAddress::File(fd) => Err(ReturnerError::FileError(fd)),
        }
    }
}

} // verus!
