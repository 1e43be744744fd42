//! Replies given to plugins that post messages.
//!
//! When a plugin posts a message (for instance a yes/no question), the
//! host answers with the next configured reply, or `OK` when none is
//! left.

use vstd::prelude::*;
use crate::status::{OfxStatus, status_code, status_succeeded};

verus! {

/// A reply that a command can configure.
#[derive(Copy, Clone, Debug, PartialEq, Eq, Structural)]
pub enum MessageSuiteResponses {
    OK,
    Yes,
    No,
    Failed,
}

/// The status a configured reply is given as.
pub open spec fn response_status(r: MessageSuiteResponses) -> OfxStatus {
    match r {
        MessageSuiteResponses::OK => OfxStatus::OK,
        MessageSuiteResponses::Yes => OfxStatus::ReplyYes,
        MessageSuiteResponses::No => OfxStatus::ReplyNo,
        MessageSuiteResponses::Failed => OfxStatus::Failed,
    }
}

/// The reply the next message gets from the queue `q`: its first
/// reply, or `OK` when it is empty.
pub open spec fn next_reply(q: Seq<OfxStatus>) -> OfxStatus {
    if q.len() > 0 {
        q[0]
    } else {
        OfxStatus::OK
    }
}

/// The queue `q` after one message: without its first reply.
pub open spec fn after_next(q: Seq<OfxStatus>) -> Seq<OfxStatus> {
    if q.len() > 0 {
        q.drop_first()
    } else {
        q
    }
}

/// The replies `k` messages in a row get from the queue `q`.
pub open spec fn replies(q: Seq<OfxStatus>, k: nat) -> Seq<OfxStatus>
    decreases k,
{
    if k == 0 {
        seq![]
    } else {
        seq![next_reply(q)] + replies(after_next(q), (k - 1) as nat)
    }
}

/// The queue `q` after `k` messages.
pub open spec fn after_nexts(q: Seq<OfxStatus>, k: nat) -> Seq<OfxStatus>
    decreases k,
{
    if k == 0 {
        q
    } else {
        after_nexts(after_next(q), (k - 1) as nat)
    }
}

/// The replies still to give, kept with the next one last, with the
/// replies last configured and the number of messages answered since.
pub struct MessageResponses {
    pending: Vec<OfxStatus>,
    configured: Ghost<Seq<OfxStatus>>,
    answered: Ghost<nat>,
}

impl MessageResponses {
    /// The replies still to give are those configured that the
    /// messages answered since have not yet taken.
    #[verifier::type_invariant]
    spec fn inv(&self) -> bool {
        self.queue() == after_nexts(self.configured@, self.answered@)
    }

    /// The replies still to give, in the order they will be given.
    pub closed spec fn queue(&self) -> Seq<OfxStatus> {
        self.pending@.reverse()
    }

    /// The replies as last configured (or as the effect started).
    pub closed spec fn configured(&self) -> Seq<OfxStatus> {
        self.configured@
    }

    /// The number of messages answered since the replies were configured.
    pub closed spec fn answered(&self) -> nat {
        self.answered@
    }

    /// The replies an effect starts with: `ReplyNo`, then `ReplyYes`.
    pub fn new() -> (r: Self)
        ensures
            r.queue() == seq![OfxStatus::ReplyNo, OfxStatus::ReplyYes],
            r.configured() == seq![OfxStatus::ReplyNo, OfxStatus::ReplyYes],
            r.answered() == 0,
    {
        let mut pending: Vec<OfxStatus> = Vec::new();
        pending.push(OfxStatus::ReplyYes);
        pending.push(OfxStatus::ReplyNo);
        let ghost initial = seq![OfxStatus::ReplyNo, OfxStatus::ReplyYes];
        assert(pending@.reverse() =~= initial);
        MessageResponses { pending, configured: Ghost(initial), answered: Ghost(0) }
    }

    /// Replaces the replies by `responses`, to be given in that order.
    pub fn configure(&mut self, responses: &[MessageSuiteResponses])
        ensures
            final(self).queue() == responses@.map_values(|r: MessageSuiteResponses| response_status(r)),
            final(self).configured() == responses@.map_values(
                |r: MessageSuiteResponses| response_status(r),
            ),
            final(self).answered() == 0,
    {
        let mut pending: Vec<OfxStatus> = Vec::new();
        let n = responses.len();
        let mut i: usize = n;
        while i > 0
            invariant
                i <= n,
                n == responses@.len(),
                pending@.len() == n - i,
                forall|j: int| 0 <= j < n - i ==> #[trigger] pending@[j] == response_status(
                    responses@[n - 1 - j],
                ),
            decreases i,
        {
            i = i - 1;
            let status = match responses[i] {
                MessageSuiteResponses::OK => OfxStatus::OK,
                MessageSuiteResponses::Yes => OfxStatus::ReplyYes,
                MessageSuiteResponses::No => OfxStatus::ReplyNo,
                MessageSuiteResponses::Failed => OfxStatus::Failed,
            };
            pending.push(status);
        }
        let ghost all = responses@.map_values(|r: MessageSuiteResponses| response_status(r));
        assert(pending@.reverse() =~= all);
        *self = MessageResponses { pending, configured: Ghost(all), answered: Ghost(0) };
    }

    /// Takes the next reply; `OK` when none is left. The k-th message
    /// answered since the replies were configured gets the k-th
    /// configured reply, or `OK` once they are used up.
    pub fn next(&mut self) -> (r: OfxStatus)
        ensures
            r == next_reply(old(self).queue()),
            final(self).queue() == after_next(old(self).queue()),
            final(self).configured() == old(self).configured(),
            final(self).answered() == old(self).answered() + 1,
            r == (if old(self).answered() < old(self).configured().len() {
                old(self).configured()[old(self).answered() as int]
            } else {
                OfxStatus::OK
            }),
    {
        proof {
            use_type_invariant(&*self);
            lemma_replies(self.configured@, self.answered@);
            lemma_replies(self.configured@, self.answered@ + 1);
        }
        let ghost q = self.queue();
        let ghost c = self.configured@;
        let ghost a = self.answered@;
        let n = self.pending.len();
        if n == 0 {
            assert(q.len() == 0);
            *self = MessageResponses { pending: Vec::new(), configured: Ghost(c), answered: Ghost(a + 1) };
            assert(self.queue() =~= q);
            OfxStatus::OK
        } else {
            let s = self.pending[n - 1];
            let mut rest: Vec<OfxStatus> = Vec::new();
            let mut i: usize = 0;
            while i < n - 1
                invariant
                    i <= n - 1,
                    n == self.pending@.len(),
                    rest@ == self.pending@.take(i as int),
                decreases n - 1 - i,
            {
                rest.push(self.pending[i]);
                assert(rest@ =~= self.pending@.take(i as int + 1));
                i = i + 1;
            }
            assert(rest@.reverse() =~= q.drop_first());
            assert(q[0] == s);
            assert(a < c.len());
            assert(q == c.skip(a as int));
            assert(c.skip(a as int).drop_first() =~= c.skip(a as int + 1));
            assert(after_nexts(c, a + 1) == c.skip(a as int + 1));
            *self = MessageResponses { pending: rest, configured: Ghost(c), answered: Ghost(a + 1) };
            s
        }
    }

    /// The number of replies still to give.
    pub fn len(&self) -> (r: usize)
        ensures
            r == self.queue().len(),
    {
        self.pending.len()
    }
}

/// The replies of a configured queue come back in the configured
/// order: taking replies one by one from `map(responses)` yields
/// `response_status(responses[i])` as the i-th reply, and `OK` once all
/// are used.
pub proof fn law_replies_in_order(responses: Seq<MessageSuiteResponses>, i: int)
    requires
        0 <= i <= responses.len(),
    ensures
        ({
            let q = responses.map_values(|r: MessageSuiteResponses| response_status(r)).skip(i);
            &&& i < responses.len() ==> q.len() > 0 && q[0] == response_status(responses[i])
                && q.drop_first() == responses.map_values(
                |r: MessageSuiteResponses| response_status(r),
            ).skip(i + 1)
            &&& i == responses.len() ==> q.len() == 0
        }),
{
    let all = responses.map_values(|r: MessageSuiteResponses| response_status(r));
    if i < responses.len() {
        assert(all.skip(i).drop_first() =~= all.skip(i + 1));
    }
}

/// `k` messages in a row take the queue's replies in order: the j-th
/// gets the queue's j-th reply, or `OK` once the queue is used up, and
/// afterwards the replies not yet given remain.
proof fn lemma_replies(q: Seq<OfxStatus>, k: nat)
    ensures
        replies(q, k).len() == k,
        forall|j: int| 0 <= j < k ==> #[trigger] replies(q, k)[j] == (if j < q.len() {
            q[j]
        } else {
            OfxStatus::OK
        }),
        after_nexts(q, k) == (if k <= q.len() { q.skip(k as int) } else { seq![] }),
    decreases k,
{
    if k > 0 {
        let q1 = after_next(q);
        lemma_replies(q1, (k - 1) as nat);
        assert forall|j: int| 0 <= j < k implies #[trigger] replies(q, k)[j] == (if j < q.len() {
            q[j]
        } else {
            OfxStatus::OK
        }) by {
            if j > 0 {
                assert(replies(q, k)[j] == replies(q1, (k - 1) as nat)[j - 1]);
                if q.len() > 0 && j < q.len() {
                    assert(q1[j - 1] == q[j]);
                }
            }
        }
        if q.len() > 0 {
            if k <= q.len() {
                assert(q1.skip(k - 1) =~= q.skip(k as int));
            }
        } else {
            assert(q =~= seq![]);
        }
    } else {
        assert(q.skip(0) =~= q);
    }
}

/// After the replies `responses` are configured, `k` messages in a row
/// get `responses` in order, then `OK` for every message past the
/// last; the replies not yet given remain, and none once all are used.
pub proof fn law_replies_over_calls(responses: Seq<MessageSuiteResponses>, k: nat)
    ensures
        ({
            let q = responses.map_values(|r: MessageSuiteResponses| response_status(r));
            &&& replies(q, k).len() == k
            &&& forall|j: int| 0 <= j < k ==> #[trigger] replies(q, k)[j] == (if j < responses.len() {
                response_status(responses[j])
            } else {
                OfxStatus::OK
            })
            &&& after_nexts(q, k) == (if k <= responses.len() {
                q.skip(k as int)
            } else {
                seq![]
            })
        }),
{
    let q = responses.map_values(|r: MessageSuiteResponses| response_status(r));
    lemma_replies(q, k);
}

/// A configured reply reaches the plugin as the status of the same
/// name, with its C value: `OK` as `kOfxStatOK` (0), `Yes` as
/// `kOfxStatReplyYes` (12), `No` as `kOfxStatReplyNo` (13) and `Failed`
/// as `kOfxStatFailed` (1); only `OK` counts as a success.
pub proof fn law_replies_keep_their_names(r: MessageSuiteResponses)
    ensures
        r == MessageSuiteResponses::OK ==> response_status(r) == OfxStatus::OK && status_code(
            response_status(r),
        ) == 0,
        r == MessageSuiteResponses::Yes ==> response_status(r) == OfxStatus::ReplyYes
            && status_code(response_status(r)) == 12,
        r == MessageSuiteResponses::No ==> response_status(r) == OfxStatus::ReplyNo && status_code(
            response_status(r),
        ) == 13,
        r == MessageSuiteResponses::Failed ==> response_status(r) == OfxStatus::Failed
            && status_code(response_status(r)) == 1,
        status_succeeded(response_status(r)) <==> r == MessageSuiteResponses::OK,
{
}

/// After `configure(responses)`, the j-th message gets the status named
/// like the j-th configured reply: `OK` for `OK`, `ReplyYes` for `Yes`,
/// `ReplyNo` for `No`, `Failed` for `Failed`, and `OK` past the end.
pub proof fn law_configured_replies_by_name(responses: Seq<MessageSuiteResponses>, k: nat, j: int)
    requires
        0 <= j < k,
    ensures
        ({
            let got = replies(responses.map_values(|r: MessageSuiteResponses| response_status(r)), k)[j];
            &&& j >= responses.len() ==> got == OfxStatus::OK
            &&& j < responses.len() && responses[j] == MessageSuiteResponses::OK ==> got == OfxStatus::OK
            &&& j < responses.len() && responses[j] == MessageSuiteResponses::Yes ==> got
                == OfxStatus::ReplyYes
            &&& j < responses.len() && responses[j] == MessageSuiteResponses::No ==> got
                == OfxStatus::ReplyNo
            &&& j < responses.len() && responses[j] == MessageSuiteResponses::Failed ==> got
                == OfxStatus::Failed
        }),
{
    law_replies_over_calls(responses, k);
}

} // verus!
