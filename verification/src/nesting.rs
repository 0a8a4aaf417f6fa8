use vstd::prelude::*;
use crate::sink::{SinkCall, ZoneContext};
use crate::zone::{end_call, Zone};

verus! {

/// The calls that close every zone of `open`, the last one opened first.
///
/// `open` lists the zones from the outermost to the innermost, each by its
/// token. An inert zone, which has none, is closed without a call.
pub open spec fn unwinding(open: Seq<Option<ZoneContext>>) -> Seq<SinkCall<'static>>
    decreases open.len(),
{
    if open.len() == 0 {
        Seq::empty()
    } else {
        match open.last() {
            Some(ctx) => seq![SinkCall::ZoneEnd { ctx }] + unwinding(open.drop_last()),
            None => unwinding(open.drop_last()),
        }
    }
}

/// The zones that one thread has open, from the outermost to the innermost.
///
/// Zones nest: the only zone that can be closed is the one opened last.
#[derive(Debug)]
pub struct ZoneStack {
    open: Vec<Zone>,
}

impl View for ZoneStack {
    type V = Seq<Option<ZoneContext>>;

    /// The tokens of the open zones, the innermost last.
    closed spec fn view(&self) -> Seq<Option<ZoneContext>> {
        self.open@.map_values(|zone: Zone| zone.context())
    }
}

impl ZoneStack {
    /// A thread with no zone open.
    pub fn new() -> (stack: ZoneStack)
        ensures
            stack@ == Seq::<Option<ZoneContext>>::empty(),
    {
        let stack = ZoneStack { open: Vec::new() };
        assert(stack@ =~= Seq::empty());
        stack
    }

    /// How many zones are open.
    pub fn depth(&self) -> (depth: usize)
        ensures
            depth == self@.len(),
    {
        self.open.len()
    }

    /// Puts a zone that was just opened inside the ones that are open.
    pub fn enter(&mut self, zone: Zone)
        ensures
            final(self)@ == old(self)@.push(zone.context()),
    {
        self.open.push(zone);
        assert(self@ =~= old(self)@.push(zone.context()));
    }

    /// Closes the innermost zone and gives the call that ends it.
    ///
    /// `None` comes back, and nothing changes, when no zone is open.
    pub fn leave(&mut self) -> (call: Option<SinkCall<'static>>)
        ensures
            old(self)@.len() == 0 ==> call is None && final(self)@ == old(self)@,
            old(self)@.len() > 0 ==> call == end_call(old(self)@.last()) && final(self)@ == old(
                self,
            )@.drop_last(),
    {
        match self.open.pop() {
            Some(zone) => {
                assert(self@ =~= old(self)@.drop_last());
                zone.end()
            },
            None => {
                assert(self@ =~= old(self)@);
                None
            },
        }
    }

    /// Closes every open zone, the innermost first, and gives the calls in
    /// the order in which they are to be made.
    pub fn unwind(&mut self) -> (calls: Vec<SinkCall<'static>>)
        ensures
            calls@ == unwinding(old(self)@),
            final(self)@.len() == 0,
    {
        let mut calls: Vec<SinkCall<'static>> = Vec::new();
        while self.open.len() > 0
            invariant
                calls@ + unwinding(self@) == unwinding(old(self)@),
            decreases self.open.len(),
        {
            let ghost before = self@;
            let ghost made = calls@;
            let call = self.leave();
            match call {
                Some(call) => {
                    calls.push(call);
                    assert(calls@ + unwinding(self@) =~= made + unwinding(before));
                },
                None => {},
            }
        }
        assert(self@.len() == 0);
        assert(calls@ + unwinding(self@) =~= calls@);
        calls
    }
}

/// The stack of live zones that were opened under `tokens`, in that order.
pub open spec fn live_zones(tokens: Seq<ZoneContext>) -> Seq<Option<ZoneContext>> {
    tokens.map_values(|ctx: ZoneContext| Some(ctx))
}

/// Zones close in the reverse of the order in which they were opened, and
/// each of them closes once: unwinding the live zones opened under `tokens`
/// gives as many calls as there are zones, and the call at place `i` ends the
/// zone that was opened at place `i` counted from the last.
pub proof fn lemma_zones_close_in_reverse(tokens: Seq<ZoneContext>)
    ensures
        unwinding(live_zones(tokens)).len() == tokens.len(),
        forall|i: int|
            0 <= i < tokens.len() ==> #[trigger] unwinding(live_zones(tokens))[i] == (
            SinkCall::ZoneEnd { ctx: tokens[tokens.len() - 1 - i] }),
    decreases tokens.len(),
{
    if tokens.len() > 0 {
        lemma_zones_close_in_reverse(tokens.drop_last());
        assert(live_zones(tokens).drop_last() =~= live_zones(tokens.drop_last()));
        assert(live_zones(tokens).last() == Some(tokens.last()));
    }
}

} // verus!
