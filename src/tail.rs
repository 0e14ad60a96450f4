//! Incremental reading of the local log mirror: each poll yields only the
//! bytes appended since the previous one.
use vstd::prelude::*;

verus! {

/// The bytes of `content` past the first `consumed`, and the position after
/// them. A log that is no longer than `consumed` has nothing new, and the
/// position stays put: content that shrank is not detected as new.
pub open spec fn poll_result(consumed: nat, content: Seq<u8>) -> (Seq<u8>, nat) {
    if content.len() > consumed {
        (content.subrange(consumed as int, content.len() as int), content.len())
    } else {
        (seq![], consumed)
    }
}

/// How many bytes of the log mirror have already been handed out.
#[derive(Clone, Copy, Debug, PartialEq, Eq)]
pub struct LogCursor {
    pub bytes_consumed: usize,
}

impl LogCursor {
    /// A cursor at the start of an empty log.
    pub fn new() -> (r: LogCursor)
        ensures
            r.bytes_consumed == 0,
    {
        LogCursor { bytes_consumed: 0 }
    }

    /// Takes the current full content of the log mirror and returns the bytes
    /// appended since the last poll; the cursor advances by exactly as many.
    pub fn poll(&mut self, content: &Vec<u8>) -> (r: Vec<u8>)
        ensures
            (r@, final(self).bytes_consumed as nat) == poll_result(old(self).bytes_consumed as nat, content@),
            final(self).bytes_consumed == old(self).bytes_consumed + r@.len(),
    {
        let mut out: Vec<u8> = Vec::new();
        let start = self.bytes_consumed;
        if content.len() > start {
            let mut i: usize = start;
            while i < content.len()
                invariant
                    start <= i <= content.len(),
                    out@ == content@.subrange(start as int, i as int),
                decreases content.len() - i,
            {
                out.push(content[i]);
                i += 1;
                proof {
                    assert(out@ =~= content@.subrange(start as int, i as int));
                }
            }
            self.bytes_consumed = content.len();
        }
        proof {
            if content@.len() <= start {
                assert(out@ =~= Seq::<u8>::empty());
            }
        }
        out
    }
}

/// Polling a log that has not grown since the cursor last moved yields
/// nothing and leaves the cursor where it is, however often it is repeated;
/// and any poll is followed by such a one when the log does not grow.
pub proof fn lemma_poll_without_growth(consumed: nat, content: Seq<u8>)
    ensures
        content.len() <= consumed ==> poll_result(consumed, content) == (Seq::<u8>::empty(), consumed),
        ({
            let (_, after) = poll_result(consumed, content);
            poll_result(after, content) == (Seq::<u8>::empty(), after)
        }),
{
}

/// When `first` and then `second` are appended to a log that the cursor has
/// fully read, two polls yield exactly `first` and then `second`, and the
/// cursor ends past all of it.
pub proof fn lemma_poll_keeps_append_order(start: Seq<u8>, first: Seq<u8>, second: Seq<u8>)
    ensures
        ({
            let (out1, pos1) = poll_result(start.len(), start + first);
            let (out2, pos2) = poll_result(pos1, start + first + second);
            &&& out1 == first
            &&& out2 == second
            &&& pos2 == start.len() + first.len() + second.len()
        }),
{
    assert((start + first).subrange(start.len() as int, (start + first).len() as int) =~= first);
    let both = start + first + second;
    assert(both.subrange((start.len() + first.len()) as int, both.len() as int) =~= second);
}

} // verus!
