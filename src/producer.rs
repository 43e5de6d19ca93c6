use vstd::prelude::*;
use crate::text::{decode_text, text_of};

verus! {

/// The most bytes that one read from the console takes.
pub const CHUNK_SIZE: usize = 16;

/// How one blocking read from the console ended.
#[derive(Debug, Clone, Copy, PartialEq, Eq)]
pub enum ConsoleRead {
    /// This many bytes were read into the chunk buffer.
    Bytes(usize),
    /// The read failed.
    Failed,
}

/// What the input producer does after one read from the console.
#[derive(Debug, PartialEq, Eq)]
pub enum ProducerStep {
    /// Nothing was read: read again.
    Retry,
    /// Push this text onto the command queue, as one item.
    Push(String),
    /// The bytes read are not valid UTF-8: report it; nothing is pushed.
    DecodeFailed,
    /// The read failed: report it and read again.
    ReadFailed,
}

/// What a producer step is in the model.
pub enum ProducerStepView {
    Retry,
    Push(Seq<char>),
    DecodeFailed,
    ReadFailed,
}

impl View for ProducerStep {
    type V = ProducerStepView;

    open spec fn view(&self) -> ProducerStepView {
        match self {
            ProducerStep::Retry => ProducerStepView::Retry,
            ProducerStep::Push(s) => ProducerStepView::Push(s@),
            ProducerStep::DecodeFailed => ProducerStepView::DecodeFailed,
            ProducerStep::ReadFailed => ProducerStepView::ReadFailed,
        }
    }
}

/// The producer's step after `read` filled the start of `chunk`: only the
/// bytes that were read are looked at.
pub open spec fn producer_step_of(read: ConsoleRead, chunk: Seq<u8>) -> ProducerStepView {
    match read {
        ConsoleRead::Failed => ProducerStepView::ReadFailed,
        ConsoleRead::Bytes(n) => if n == 0 {
            ProducerStepView::Retry
        } else {
            match text_of(chunk.subrange(0, n as int)) {
                Some(t) => ProducerStepView::Push(t),
                None => ProducerStepView::DecodeFailed,
            }
        },
    }
}

/// Decides what the input producer does with the result of one console read.
pub fn producer_step(read: ConsoleRead, chunk: &[u8]) -> (r: ProducerStep)
    requires
        read matches ConsoleRead::Bytes(n) ==> n <= chunk@.len(),
    ensures
        r@ == producer_step_of(read, chunk@),
{
    match read {
        ConsoleRead::Failed => ProducerStep::ReadFailed,
        ConsoleRead::Bytes(n) => {
            if n == 0 {
                ProducerStep::Retry
            } else {
                let got = &chunk[0..n];
                match decode_text(got) {
                    Some(t) => ProducerStep::Push(t),
                    None => ProducerStep::DecodeFailed,
                }
            }
        },
    }
}

} // verus!
