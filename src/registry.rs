use vstd::prelude::*;

verus! {

/// What is left of `subs` after dropping each one whose delivery failed
/// (`delivered[i]` false), order kept.
pub open spec fn survivors<S>(subs: Seq<S>, delivered: Seq<bool>) -> Seq<S>
    decreases subs.len(),
{
    if subs.len() == 0 {
        Seq::empty()
    } else if delivered[0] {
        seq![subs[0]] + survivors(subs.drop_first(), delivered.drop_first())
    } else {
        survivors(subs.drop_first(), delivered.drop_first())
    }
}

/// Number of failed deliveries in `delivered`.
pub open spec fn failures(delivered: Seq<bool>) -> nat
    decreases delivered.len(),
{
    if delivered.len() == 0 {
        0
    } else {
        (if delivered[0] { 0nat } else { 1nat }) + failures(delivered.drop_first())
    }
}

/// Number of successful deliveries in `delivered`.
pub open spec fn successes(delivered: Seq<bool>) -> nat
    decreases delivered.len(),
{
    if delivered.len() == 0 {
        0
    } else {
        (if delivered[0] { 1nat } else { 0nat }) + successes(delivered.drop_first())
    }
}

/// A delivery pass in which every subscriber was reached removes no one.
pub proof fn lemma_live_subscribers_stay<S>(subs: Seq<S>, delivered: Seq<bool>)
    requires
        delivered.len() == subs.len(),
        forall|i: int| 0 <= i < delivered.len() ==> delivered[i],
    ensures
        survivors(subs, delivered) == subs,
    decreases subs.len(),
{
    if subs.len() > 0 {
        lemma_live_subscribers_stay(subs.drop_first(), delivered.drop_first());
        assert(seq![subs[0]] + subs.drop_first() =~= subs);
    }
}

/// Each failed delivery removes exactly one subscriber: the registry shrinks by
/// the number of failures, and what remains is as many as were reached.
pub proof fn lemma_each_failure_removed_once<S>(subs: Seq<S>, delivered: Seq<bool>)
    requires
        delivered.len() == subs.len(),
    ensures
        survivors(subs, delivered).len() + failures(delivered) == subs.len(),
        survivors(subs, delivered).len() == successes(delivered),
    decreases subs.len(),
{
    if subs.len() > 0 {
        lemma_each_failure_removed_once(subs.drop_first(), delivered.drop_first());
    }
}

/// A subscriber that was reached stays, at the position given by the number of
/// subscribers reached before it; so the survivors are exactly the reached
/// subscribers, in registry order.
pub proof fn lemma_reached_subscriber_kept<S>(subs: Seq<S>, delivered: Seq<bool>, i: int)
    requires
        delivered.len() == subs.len(),
        0 <= i < subs.len(),
        delivered[i],
    ensures
        successes(delivered.take(i)) < survivors(subs, delivered).len(),
        survivors(subs, delivered)[successes(delivered.take(i)) as int] == subs[i],
    decreases subs.len(),
{
    if i == 0 {
        assert(delivered.take(0) =~= Seq::<bool>::empty());
    } else {
        let d = delivered.take(i);
        lemma_reached_subscriber_kept(subs.drop_first(), delivered.drop_first(), i - 1);
        assert(d.drop_first() =~= delivered.drop_first().take(i - 1));
        assert(d[0] == delivered[0]);
    }
}

/// Over two successive delivery passes, the second over the survivors of the
/// first, the registry loses exactly one subscriber per failed delivery: one
/// dropped in the first pass is not there to fail, or be removed, again.
pub proof fn lemma_successive_passes<S>(subs: Seq<S>, first: Seq<bool>, second: Seq<bool>)
    requires
        first.len() == subs.len(),
        second.len() == survivors(subs, first).len(),
    ensures
        survivors(survivors(subs, first), second).len() + failures(first) + failures(second)
            == subs.len(),
{
    lemma_each_failure_removed_once(subs, first);
    lemma_each_failure_removed_once(survivors(subs, first), second);
}

/// The registry of live push targets, in the order they registered.
pub struct Registry<S> {
    subscribers: Vec<S>,
}

impl<S> View for Registry<S> {
    type V = Seq<S>;

    closed spec fn view(&self) -> Seq<S> {
        self.subscribers@
    }
}

impl<S> Registry<S> {
    /// An empty registry.
    pub fn new() -> (r: Registry<S>)
        ensures
            r@ == Seq::<S>::empty(),
    {
        Registry { subscribers: Vec::new() }
    }

    /// Number of registered subscribers.
    pub fn len(&self) -> (r: usize)
        ensures
            r == self@.len(),
    {
        self.subscribers.len()
    }

    /// The subscribers, in registry order, for a delivery pass.
    pub fn subscribers(&self) -> (r: &Vec<S>)
        ensures
            r@ == self@,
    {
        &self.subscribers
    }

    /// Appends a newly connected subscriber.
    pub fn register(&mut self, subscriber: S)
        ensures
            final(self)@ == old(self)@.push(subscriber),
    {
        self.subscribers.push(subscriber);
    }

    /// Ends a delivery pass: `delivered[i]` tells whether the payload reached the
    /// subscriber at position `i`. Every subscriber whose delivery failed is
    /// removed, from the highest position down, and no other.
    pub fn prune(&mut self, delivered: &Vec<bool>)
        requires
            delivered@.len() == old(self)@.len(),
        ensures
            final(self)@ == survivors(old(self)@, delivered@),
    {
        let ghost orig = self.subscribers@;
        let n = self.subscribers.len();
        let mut i: usize = n;
        proof {
            assert(orig.subrange(0, n as int) =~= orig);
        }
        while i > 0
            invariant
                n == orig.len(),
                n == delivered@.len(),
                i <= n,
                self.subscribers@ == orig.subrange(0, i as int) + survivors(
                    orig.subrange(i as int, n as int),
                    delivered@.subrange(i as int, n as int),
                ),
            decreases i,
        {
            let ghost before = self.subscribers@;
            let ghost tail = orig.subrange(i as int, n as int);
            let ghost dtail = delivered@.subrange(i as int, n as int);
            let ghost wider = orig.subrange(i - 1, n as int);
            let ghost dwider = delivered@.subrange(i - 1, n as int);
            assert(wider.drop_first() =~= tail);
            assert(dwider.drop_first() =~= dtail);
            assert(wider[0] == orig[i - 1]);
            i = i - 1;
            if !delivered[i] {
                self.subscribers.remove(i);
                assert(self.subscribers@ =~= orig.subrange(0, i as int) + survivors(wider, dwider));
            } else {
                assert(self.subscribers@ =~= orig.subrange(0, i as int) + survivors(wider, dwider));
            }
        }
        assert(orig.subrange(0, 0) + survivors(orig, delivered@) =~= survivors(orig, delivered@));
        assert(orig.subrange(0, n as int) =~= orig);
        assert(delivered@.subrange(0, n as int) =~= delivered@);
    }
}

} // verus!
