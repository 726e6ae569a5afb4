//! Finding which outstanding invocation an inbound frame answers.
use crate::header::{answers, header_of, CallError, Header, LwipRequest};
use vstd::prelude::*;

verus! {

/// An invocation that was sent and awaits its reply.
#[derive(Clone, Copy, Debug, PartialEq, Eq, Structural)]
pub struct Pending {
    pub sequence: u32,
    pub request: LwipRequest,
}

/// Whether header `h` belongs to the reply to `p`.
pub open spec fn replies_to(h: Header, p: Pending) -> bool {
    answers(h, p.request) && h.sequence == p.sequence
}

/// Picks the pending invocation that `frame` answers.
pub fn match_pending(frame: &[u8], pending: &Vec<Pending>) -> (r: Result<usize, CallError>)
    ensures
        match header_of(frame@) {
            Err(e) => r == Err::<usize, CallError>(e),
            Ok(h) => match r {
                Ok(i) => i < pending@.len() && replies_to(h, pending@[i as int]) && forall|j: int|
                    0 <= j < i ==> !replies_to(h, #[trigger] pending@[j]),
                Err(e) => e == CallError::NotOurs && forall|j: int|
                    0 <= j < pending@.len() ==> !replies_to(h, #[trigger] pending@[j]),
            },
        },
{
    let h = Header::parse(frame)?;
    let mut i: usize = 0;
    while i < pending.len()
        invariant
            i <= pending@.len(),
            header_of(frame@) == Ok::<Header, CallError>(h),
            forall|j: int| 0 <= j < i ==> !replies_to(h, #[trigger] pending@[j]),
        decreases pending@.len() - i,
    {
        let p = pending[i];
        if h.answers(p.request) && h.sequence == p.sequence {
            return Ok(i);
        }
        i += 1;
    }
    Err(CallError::NotOurs)
}

} // verus!
