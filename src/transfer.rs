use vstd::prelude::*;

use crate::display::DisplayErrors;

verus! {

/// One step of work on the hardware, as the model sees it.
pub enum Signal {
    ResetLow,
    ResetHigh,
    BacklightHigh,
    BacklightLow,
    /// Bytes sent with the command/data select line low.
    Command(Seq<u8>),
    /// Bytes sent with the command/data select line high.
    Data(Seq<u8>),
}

/// One step of work on the hardware: drive a pin, or send bytes on the bus.
#[derive(Debug)]
pub enum Op {
    /// Drive the reset line low.
    ResetLow,
    /// Drive the reset line high.
    ResetHigh,
    /// Drive the backlight line high.
    BacklightHigh,
    /// Drive the backlight line low.
    BacklightLow,
    /// Send these bytes as one command transfer.
    Command(Vec<u8>),
    /// Send these bytes as one data transfer.
    Data(Vec<u8>),
}

impl View for Op {
    type V = Signal;

    open spec fn view(&self) -> Signal {
        match self {
            Op::ResetLow => Signal::ResetLow,
            Op::ResetHigh => Signal::ResetHigh,
            Op::BacklightHigh => Signal::BacklightHigh,
            Op::BacklightLow => Signal::BacklightLow,
            Op::Command(b) => Signal::Command(b@),
            Op::Data(b) => Signal::Data(b@),
        }
    }
}

/// The models of a list of operations.
pub open spec fn signals(ops: Seq<Op>) -> Seq<Signal> {
    ops.map_values(|o: Op| o@)
}

/// The error reported when `s` fails: a bus error for a transfer, a pin error otherwise.
pub open spec fn failure_of(s: Signal) -> DisplayErrors {
    match s {
        Signal::Command(_) | Signal::Data(_) => DisplayErrors::SpiError,
        _ => DisplayErrors::PinError,
    }
}

/// A fresh vector with the bytes of `bytes`.
pub fn copy_bytes(bytes: &[u8]) -> (r: Vec<u8>)
    ensures
        r@ == bytes@,
{
    let mut r: Vec<u8> = Vec::new();
    let mut i: usize = 0;
    while i < bytes.len()
        invariant
            i <= bytes@.len(),
            r@ == bytes@.subrange(0, i as int),
        decreases bytes@.len() - i,
    {
        r.push(bytes[i]);
        i = i + 1;
    }
    assert(r@ =~= bytes@);
    r
}

impl Op {
    /// A copy of this operation.
    pub fn duplicate(&self) -> (r: Op)
        ensures
            r@ == self@,
    {
        match self {
            Op::ResetLow => Op::ResetLow,
            Op::ResetHigh => Op::ResetHigh,
            Op::BacklightHigh => Op::BacklightHigh,
            Op::BacklightLow => Op::BacklightLow,
            Op::Command(b) => Op::Command(copy_bytes(b.as_slice())),
            Op::Data(b) => Op::Data(copy_bytes(b.as_slice())),
        }
    }
}

} // verus!
