//! The one-shot completion: a slot for a result, and the waker of whoever
//! waits for it.

use vstd::prelude::*;

verus! {

/// `std::task::Waker`: the handle by which a task is woken. Nothing is
/// known of what is inside.
#[verifier::external_type_specification]
#[verifier::external_body]
pub struct ExTaskWaker(std::task::Waker);

/// `std::task::Poll`, with its two variants as they are: `Ready` with the
/// value, and `Pending`.
#[verifier::external_type_specification]
#[verifier::reject_recursive_types(T)]
pub struct ExPoll<T>(std::task::Poll<T>);

/// `std::task::Waker::wake_by_ref` wakes the task that the waker belongs to.
/// It returns nothing and nothing is claimed of it.
pub assume_specification[ std::task::Waker::wake_by_ref ](waker: &std::task::Waker)
;

/// A completion that carries one value from its producer to its consumer.
///
/// The consumer polls and leaves its waker while nothing is there. The
/// producer deposits the value once and wakes the consumer.
pub struct Waker<Output> {
    pub waker: Option<std::task::Waker>,
    pub output: Option<Output>,
}

impl<Output> Waker<Output> {
    /// A completion with nothing in it and nobody waiting.
    pub fn new() -> (completion: Self)
        ensures
            completion.output is None,
            completion.waker is None,
    {
        Waker { waker: None, output: None }
    }

    /// Takes the value if it is there. Otherwise `waker` is kept, in place of
    /// the one kept before, to be woken when the value arrives.
    pub fn poll(&mut self, waker: std::task::Waker) -> (polled: std::task::Poll<Output>)
        ensures
            final(self).output is None,
            match old(self).output {
                Some(output) => polled == std::task::Poll::Ready(output) && final(self).waker == old(
                    self,
                ).waker,
                None => polled == std::task::Poll::<Output>::Pending && final(self).waker == Some(
                    waker,
                ),
            },
    {
        if let Some(output) = self.output.take() {
            return std::task::Poll::Ready(output);
        }
        self.waker = Some(waker);
        std::task::Poll::Pending
    }

    /// Deposits the value and wakes the consumer if it left a waker. The
    /// slot must be empty: a completion is completed once.
    pub fn ready(&mut self, output: Output)
        requires
            old(self).output is None,
        ensures
            final(self).output == Some(output),
            final(self).waker is None,
    {
        self.output = Some(output);
        if let Some(waker) = self.waker.take() {
            waker.wake_by_ref();
        }
    }
}

} // verus!
