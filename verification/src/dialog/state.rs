use vstd::prelude::*;

verus! {

/// The state shared between a presented dialogue and the future that awaits its result.
///
/// `W` is whatever wakes the task that polls the future.
pub struct SharedState<R, W> {
    /// The result, once the dialogue has produced one and until it is polled.
    pub result: Option<R>,
    /// The waker registered by the last poll that found no result.
    pub waker: Option<W>,
}

/// What one poll does: a stored result is taken out and returned; with none stored, the
/// poller's waker is registered and nothing is returned.
pub open spec fn spec_poll<R, W>(s: SharedState<R, W>, waker: W) -> (SharedState<R, W>, Option<R>) {
    match s.result {
        Some(r) => (SharedState { result: None, waker: s.waker }, Some(r)),
        None => (SharedState { result: None, waker: Some(waker) }, None),
    }
}

/// What sending a result does: the result is stored, replacing any earlier one, and the
/// registered waker, if any, is taken out to be woken.
pub open spec fn spec_send<R, W>(s: SharedState<R, W>, result: R) -> (SharedState<R, W>, Option<W>) {
    (SharedState { result: Some(result), waker: None }, s.waker)
}

impl<R, W> SharedState<R, W> {
    /// Creates a state with no result and no waker.
    pub fn new() -> (s: Self)
        ensures
            s.result is None,
            s.waker is None,
    {
        SharedState { result: None, waker: None }
    }

    /// Polls for the result, registering `waker` when there is none yet.
    pub fn poll(&mut self, waker: W) -> (ready: Option<R>)
        ensures
            (*final(self), ready) == spec_poll(*old(self), waker),
    {
        let taken = self.result.take();
        match taken {
            Some(r) => Some(r),
            None => {
                self.waker = Some(waker);
                None
            },
        }
    }

    /// Stores `result` and returns the waker to wake, if one was registered.
    pub fn send_result(&mut self, result: R) -> (to_wake: Option<W>)
        ensures
            (*final(self), to_wake) == spec_send(*old(self), result),
    {
        self.result = Some(result);
        self.waker.take()
    }
}

/// The result that one poll after sending `result` returns is `result`, and that poll
/// leaves neither a result nor a waker behind.
pub proof fn lemma_sent_result_is_polled<R, W>(s: SharedState<R, W>, result: R, waker: W)
    ensures
        spec_poll(spec_send(s, result).0, waker) == (
        SharedState::<R, W> { result: None, waker: None },
        Some(result),
        ),
{
}

/// When a poll finds no result, the next result sent wakes the waker that poll registered.
pub proof fn lemma_pending_poll_is_woken<R, W>(s: SharedState<R, W>, waker: W, result: R)
    requires
        spec_poll(s, waker).1 is None,
    ensures
        spec_send(spec_poll(s, waker).0, result).1 == Some(waker),
{
}

/// A result is handed out at most once: right after any poll, another poll finds nothing.
pub proof fn lemma_result_polled_once<R, W>(s: SharedState<R, W>, w1: W, w2: W)
    ensures
        spec_poll(spec_poll(s, w1).0, w2).1 is None,
{
}

/// Of two results sent before a poll, the later one is the one polled.
pub proof fn lemma_last_sent_wins<R, W>(s: SharedState<R, W>, r1: R, r2: R, waker: W)
    ensures
        spec_poll(spec_send(spec_send(s, r1).0, r2).0, waker).1 == Some(r2),
{
}

/// The values present in `s`, in order.
pub open spec fn present<T>(s: Seq<Option<T>>) -> Seq<T>
    decreases s.len(),
{
    if s.len() == 0 {
        Seq::empty()
    } else {
        let rest = present(s.drop_last());
        match s.last() {
            Some(x) => rest.push(x),
            None => rest,
        }
    }
}

/// Nothing is present in an empty sequence.
pub proof fn lemma_present_empty<T>()
    ensures
        present(Seq::<Option<T>>::empty()) == Seq::<T>::empty(),
{
}

/// A single value is present exactly when it is `Some`.
pub proof fn lemma_present_single<T>(x: Option<T>)
    ensures
        present(seq![x]) == match x {
            Some(v) => seq![v],
            None => Seq::<T>::empty(),
        },
{
    assert(seq![x].drop_last() =~= Seq::<Option<T>>::empty());
    assert(seq![x].last() == x);
    assert(present(Seq::<Option<T>>::empty()) == Seq::<T>::empty());
    assert(present(seq![x].drop_last()) == Seq::<T>::empty());
    match x {
        Some(v) => {
            assert(Seq::<T>::empty().push(v) =~= seq![v]);
        },
        None => {},
    }
}

/// The values present in two sequences put together are those present in the first,
/// then those present in the second: every present value is kept, in order.
pub proof fn lemma_present_concat<T>(s1: Seq<Option<T>>, s2: Seq<Option<T>>)
    ensures
        present(s1 + s2) == present(s1) + present(s2),
    decreases s2.len(),
{
    if s2.len() == 0 {
        assert(s1 + s2 =~= s1);
        assert(present(s1) + present(s2) =~= present(s1));
    } else {
        lemma_present_concat(s1, s2.drop_last());
        assert((s1 + s2).drop_last() =~= s1 + s2.drop_last());
        assert((s1 + s2).last() == s2.last());
        match s2.last() {
            Some(x) => {
                assert(present(s1) + present(s2.drop_last()).push(x) =~= (present(s1) + present(
                    s2.drop_last(),
                )).push(x));
            },
            None => {},
        }
    }
}

/// When every value is present, the present values are all of them, in order.
pub proof fn lemma_present_all_some<T>(s: Seq<Option<T>>)
    requires
        forall|i: int| 0 <= i < s.len() ==> (#[trigger] s[i]) is Some,
    ensures
        present(s) == s.map_values(|x: Option<T>| x->0),
    decreases s.len(),
{
    if s.len() > 0 {
        lemma_present_all_some(s.drop_last());
        assert(s.map_values(|x: Option<T>| x->0) =~= s.drop_last().map_values(
            |x: Option<T>| x->0,
        ).push(s.last()->0));
    } else {
        assert(s.map_values(|x: Option<T>| x->0) =~= Seq::<T>::empty());
    }
}

/// Collects the strings that are present, in order.
pub fn collect_present(values: &Vec<Option<String>>) -> (out: Vec<String>)
    ensures
        out@ == present(values@),
{
    let mut out: Vec<String> = Vec::new();
    let n = values.len();
    for i in 0..n
        invariant
            n == values@.len(),
            out@ == present(values@.take(i as int)),
    {
        assert(values@.take(i + 1).drop_last() =~= values@.take(i as int));
        match &values[i] {
            Some(s) => {
                out.push(s.clone());
            },
            None => {},
        }
    }
    assert(values@.take(n as int) =~= values@);
    out
}

} // verus!
