use vstd::prelude::*;

use crate::cell::{after_complete, read_outcome, CellState};
use crate::error::BridgeError;

verus! {

/// An observer that adapts one asynchronous foreign operation: a one-shot
/// result slot plus the reference to its foreign counterpart.
pub trait Bridge: Sized {
    /// What a successful operation delivers.
    type Payload;

    /// The reference to the foreign half of the observer.
    type Counterpart;

    /// The state of the result slot.
    spec fn bridge_state(&self) -> CellState<Self::Payload>;

    /// The recorded foreign counterpart, if any.
    spec fn bridge_counterpart(&self) -> Option<Self::Counterpart>;

    /// A pending observer with no counterpart.
    fn fresh() -> (r: Self)
        ensures
            r.bridge_state() is Pending,
            r.bridge_counterpart() is None,
    ;

    /// Stores `value` if nothing was delivered before; reports whether it did.
    fn deliver(&mut self, value: Result<Self::Payload, BridgeError>) -> (stored: bool)
        ensures
            stored == (old(self).bridge_state() is Pending),
            final(self).bridge_state() == after_complete(old(self).bridge_state(), value),
            final(self).bridge_counterpart() == old(self).bridge_counterpart(),
    ;

    /// Whether the outcome has been delivered.
    fn delivered(&self) -> (r: bool)
        ensures
            r == !(self.bridge_state() is Pending),
    ;

    /// The delivered outcome, if any, on every read.
    fn outcome(&self) -> (r: Option<Result<Self::Payload, BridgeError>>)
        ensures
            r == read_outcome(self.bridge_state()),
    ;

    /// Records the foreign counterpart.
    fn record_counterpart(&mut self, c: Self::Counterpart)
        ensures
            final(self).bridge_counterpart() == Some(c),
            final(self).bridge_state() == old(self).bridge_state(),
    ;
}

/// The table's states after a delivery of `value` to `token`: only that
/// slot may change, and only if it is pending. An unknown token changes
/// nothing.
pub open spec fn deliver_to<T>(
    s: Seq<CellState<T>>,
    token: u64,
    value: Result<T, BridgeError>,
) -> Seq<CellState<T>> {
    if token < s.len() {
        s.update(token as int, after_complete(s[token as int], value))
    } else {
        s
    }
}

/// The table's states after the deliveries `ds`, in order, each a token and
/// the outcome handed to it.
pub open spec fn deliver_all<T>(
    s: Seq<CellState<T>>,
    ds: Seq<(u64, Result<T, BridgeError>)>,
) -> Seq<CellState<T>>
    decreases ds.len(),
{
    if ds.len() == 0 {
        s
    } else {
        deliver_to(deliver_all(s, ds.drop_last()), ds.last().0, ds.last().1)
    }
}

/// What a read of `token` returns: an unknown token is a protocol error.
pub open spec fn read_of<T>(s: Seq<CellState<T>>, token: u64) -> Option<Result<T, BridgeError>> {
    if token < s.len() {
        read_outcome(s[token as int])
    } else {
        Some(Err(BridgeError::BridgeFailure))
    }
}

/// Correlates callbacks of the foreign engine with the observers waiting for
/// them. Each observer gets a token, an index that is never reused, so a
/// callback reaches exactly the observer of the operation that started it,
/// and a stray token reaches none.
pub struct BridgeTable<B> {
    slots: Vec<B>,
}

impl<B: Bridge> View for BridgeTable<B> {
    type V = Seq<CellState<B::Payload>>;

    closed spec fn view(&self) -> Seq<CellState<B::Payload>> {
        self.slots@.map_values(|b: B| b.bridge_state())
    }
}

impl<B: Bridge> BridgeTable<B> {
    /// The counterpart recorded for `token`, if any.
    pub closed spec fn counterpart_of(&self, token: u64) -> Option<B::Counterpart> {
        if token < self.slots@.len() {
            self.slots@[token as int].bridge_counterpart()
        } else {
            None
        }
    }

    /// An empty table.
    pub fn new() -> (r: Self)
        ensures
            r@ == Seq::<CellState<B::Payload>>::empty(),
    {
        let r = BridgeTable { slots: Vec::new() };
        assert(r@ =~= Seq::<CellState<B::Payload>>::empty());
        r
    }

    /// Number of tokens handed out so far.
    pub fn len(&self) -> (r: usize)
        ensures
            r == self@.len(),
    {
        self.slots.len()
    }

    /// Starts tracking a new, pending observer and returns its token.
    pub fn register(&mut self) -> (token: u64)
        requires
            old(self)@.len() < u64::MAX,
        ensures
            token == old(self)@.len(),
            final(self)@ == old(self)@.push(CellState::Pending),
            final(self).counterpart_of(token) is None,
            forall|t: u64| t != token ==> final(self).counterpart_of(t) == old(self).counterpart_of(t),
    {
        let token = self.slots.len() as u64;
        self.slots.push(B::fresh());
        assert(self@ =~= old(self)@.push(CellState::Pending));
        token
    }

    /// Records the counterpart that the foreign engine built for `token`
    /// (`None` if it built none, which fails the setup).
    pub fn attach(&mut self, token: u64, counterpart: Option<B::Counterpart>) -> (r: Result<(), BridgeError>)
        ensures
            final(self)@ == old(self)@,
            token >= old(self)@.len() ==> r == Err::<(), BridgeError>(BridgeError::BridgeFailure)
                && final(self).counterpart_of(token) == old(self).counterpart_of(token),
            token < old(self)@.len() && counterpart is None ==> r == Err::<(), BridgeError>(
                BridgeError::CounterpartCreationFailed,
            ) && final(self).counterpart_of(token) == old(self).counterpart_of(token),
            token < old(self)@.len() && counterpart is Some ==> r is Ok && final(self).counterpart_of(
                token,
            ) == counterpart,
            forall|t: u64| t != token ==> final(self).counterpart_of(t) == old(self).counterpart_of(t),
    {
        if token >= self.slots.len() as u64 {
            return Err(BridgeError::BridgeFailure);
        }
        match counterpart {
            None => Err(BridgeError::CounterpartCreationFailed),
            Some(c) => {
                let i = token as usize;
                self.slots[i].record_counterpart(c);
                assert(self@ =~= old(self)@);
                Ok(())
            },
        }
    }

    /// Delivers an outcome to the observer of `token`. Returns whether it
    /// was stored: a second delivery, or one to an unknown token, is ignored.
    pub fn deliver(&mut self, token: u64, value: Result<B::Payload, BridgeError>) -> (stored: bool)
        ensures
            stored == (token < old(self)@.len() && old(self)@[token as int] is Pending),
            final(self)@ == deliver_to(old(self)@, token, value),
            forall|t: u64| final(self).counterpart_of(t) == old(self).counterpart_of(t),
    {
        if token >= self.slots.len() as u64 {
            return false;
        }
        let i = token as usize;
        let stored = self.slots[i].deliver(value);
        assert(self@ =~= deliver_to(old(self)@, token, value));
        stored
    }

    /// Success callback of the foreign engine for `token`.
    pub fn on_success(&mut self, token: u64, payload: B::Payload) -> (stored: bool)
        ensures
            stored == (token < old(self)@.len() && old(self)@[token as int] is Pending),
            final(self)@ == deliver_to(old(self)@, token, Ok(payload)),
            forall|t: u64| final(self).counterpart_of(t) == old(self).counterpart_of(t),
    {
        self.deliver(token, Ok(payload))
    }

    /// Failure callback of the foreign engine for `token`.
    pub fn on_failure(&mut self, token: u64, message: String, code: i32) -> (stored: bool)
        ensures
            stored == (token < old(self)@.len() && old(self)@[token as int] is Pending),
            final(self)@ == deliver_to(
                old(self)@,
                token,
                Err(BridgeError::OperationFailed { message, code }),
            ),
            forall|t: u64| final(self).counterpart_of(t) == old(self).counterpart_of(t),
    {
        self.deliver(token, Err(BridgeError::OperationFailed { message, code }))
    }

    /// Whether the observer of `token` has its outcome (an unknown token
    /// never will).
    pub fn is_complete(&self, token: u64) -> (r: bool)
        ensures
            r == (token < self@.len() && !(self@[token as int] is Pending)),
    {
        if token >= self.slots.len() as u64 {
            false
        } else {
            self.slots[token as usize].delivered()
        }
    }

    /// Reads the outcome of `token` without waiting (see `read_of`); reads
    /// change nothing, so every read after delivery returns the same outcome.
    pub fn read_result(&self, token: u64) -> (r: Option<Result<B::Payload, BridgeError>>)
        ensures
            r == read_of(self@, token),
    {
        if token >= self.slots.len() as u64 {
            return Some(Err(BridgeError::BridgeFailure));
        }
        self.slots[token as usize].outcome()
    }

    /// The observer of `token`, if that token was handed out.
    pub fn observer(&self, token: u64) -> (r: Option<&B>)
        ensures
            r is Some <==> token < self@.len(),
            r is Some ==> r->0.bridge_state() == self@[token as int]
                && r->0.bridge_counterpart() == self.counterpart_of(token),
    {
        if token >= self.slots.len() as u64 {
            None
        } else {
            Some(&self.slots[token as usize])
        }
    }
}

/// Outcomes delivered to distinct tokens never mix: after the deliveries
/// `ds`, in any order and to any number of pending tokens, each token reads
/// back the outcome delivered to it, and every other token is untouched.
pub proof fn lemma_outcomes_stay_with_their_token<T>(
    s: Seq<CellState<T>>,
    ds: Seq<(u64, Result<T, BridgeError>)>,
)
    requires
        forall|i: int, j: int| 0 <= i < j < ds.len() ==> ds[i].0 != ds[j].0,
        forall|i: int| 0 <= i < ds.len() ==> ds[i].0 < s.len() && s[ds[i].0 as int] is Pending,
    ensures
        deliver_all(s, ds).len() == s.len(),
        forall|k: int| 0 <= k < ds.len() ==> read_of(deliver_all(s, ds), ds[k].0) == Some(ds[k].1),
        forall|t: int|
            0 <= t < s.len() && (forall|k: int| 0 <= k < ds.len() ==> ds[k].0 != t) ==> deliver_all(
                s,
                ds,
            )[t] == s[t],
    decreases ds.len(),
{
    if ds.len() > 0 {
        let p = ds.drop_last();
        let n = ds.len() - 1;
        assert forall|i: int, j: int| 0 <= i < j < p.len() implies p[i].0 != p[j].0 by {
            assert(p[i] == ds[i] && p[j] == ds[j]);
        }
        assert forall|i: int| 0 <= i < p.len() implies p[i].0 < s.len() && s[p[i].0 as int] is Pending by {
            assert(p[i] == ds[i]);
        }
        lemma_outcomes_stay_with_their_token(s, p);
        let prev = deliver_all(s, p);
        let last = ds[n];
        assert(ds.last() == last);
        assert forall|k: int| 0 <= k < p.len() implies p[k].0 != last.0 by {
            assert(p[k] == ds[k]);
        }
        assert(prev[last.0 as int] == s[last.0 as int]);
        assert forall|k: int| 0 <= k < ds.len() implies read_of(deliver_all(s, ds), ds[k].0) == Some(
            ds[k].1,
        ) by {
            if k < n {
                assert(p[k] == ds[k]);
                assert(read_of(prev, p[k].0) == Some(p[k].1));
            }
        }
        assert forall|t: int|
            0 <= t < s.len() && (forall|k: int| 0 <= k < ds.len() ==> ds[k].0 != t) implies deliver_all(
            s,
            ds,
        )[t] == s[t] by {
            assert(ds[n].0 != t);
            assert forall|k: int| 0 <= k < p.len() implies p[k].0 != t by {
                assert(p[k] == ds[k]);
            }
        }
    }
}

} // verus!
