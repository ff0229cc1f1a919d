use vstd::prelude::*;

verus! {

/// Kind of a message exchanged with a broker's socket.
#[derive(Debug, Clone, Copy, PartialEq, Eq, Structural)]
pub enum MessageType {
    Login,
    GetSymbols,
    GetInstrumentPrice,
    Other,
}

} // verus!
