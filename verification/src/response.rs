//! The partial response a module returns from `instantiate` or `execute`,
//! and the composition layer's merge: attributes and events are concatenated
//! in module-invocation order, and of the embedded instructions only
//! financial transfers cross the module boundary — a module cannot trigger
//! arbitrary calls into other contracts through the generic merge path.

use vstd::prelude::*;
use crate::types::Coin;

verus! {

/// One string key/value pair attached to a response.
#[derive(Debug, PartialEq, Eq)]
pub struct Attribute {
    pub key: String,
    pub value: String,
}

impl Clone for Attribute {
    fn clone(&self) -> (r: Self)
        ensures
            r == *self,
    {
        Attribute { key: self.key.clone(), value: self.value.clone() }
    }
}

/// A named group of attributes emitted by a module.
#[derive(Debug, PartialEq, Eq)]
pub struct Event {
    pub name: String,
    pub attributes: Vec<Attribute>,
}

/// An outbound financial transfer instruction: pay `amount` to `recipient`.
#[derive(Debug, PartialEq, Eq)]
pub struct TransferMsg {
    pub recipient: String,
    pub amount: Coin,
}

impl Clone for TransferMsg {
    fn clone(&self) -> (r: Self)
        ensures
            r == *self,
    {
        TransferMsg { recipient: self.recipient.clone(), amount: self.amount.clone() }
    }
}

/// A call into another contract. Modules may embed one in their partial
/// response, but the merge drops it: only transfers are forwarded outward.
#[derive(Debug, PartialEq, Eq)]
pub struct ContractCall {
    pub contract: String,
    pub payload: String,
}

/// An instruction embedded in a module's partial response.
#[derive(Debug, PartialEq, Eq)]
pub enum OutMsg {
    Transfer(TransferMsg),
    Contract(ContractCall),
}

/// A structured (partial or merged) response: ordered attributes, ordered
/// events, and ordered outbound instructions.
#[derive(Debug, PartialEq, Eq)]
pub struct Response {
    pub attributes: Vec<Attribute>,
    pub events: Vec<Event>,
    pub messages: Vec<OutMsg>,
}

impl Response {
    /// The empty response.
    pub fn new() -> (r: Response)
        ensures
            r.attributes@ == Seq::<Attribute>::empty(),
            r.events@ == Seq::<Event>::empty(),
            r.messages@ == Seq::<OutMsg>::empty(),
    {
        Response { attributes: Vec::new(), events: Vec::new(), messages: Vec::new() }
    }

    /// Whether the response carries no attribute, event or instruction.
    pub open spec fn is_empty(self) -> bool {
        self.attributes@ =~= Seq::<Attribute>::empty() && self.events@ =~= Seq::<
            Event,
        >::empty() && self.messages@ =~= Seq::<OutMsg>::empty()
    }
}

/// The transfer instructions of `ms`, in order; other instruction kinds are
/// dropped.
pub open spec fn spec_transfers(ms: Seq<OutMsg>) -> Seq<OutMsg>
    decreases ms.len(),
{
    if ms.len() == 0 {
        Seq::empty()
    } else {
        spec_transfers(ms.drop_last()) + (match ms.last() {
            OutMsg::Transfer(t) => seq![OutMsg::Transfer(t)],
            OutMsg::Contract(_) => Seq::empty(),
        })
    }
}

/// All attributes of `rs`, concatenated in order.
pub open spec fn spec_all_attributes(rs: Seq<Response>) -> Seq<Attribute>
    decreases rs.len(),
{
    if rs.len() == 0 {
        Seq::empty()
    } else {
        spec_all_attributes(rs.drop_last()) + rs.last().attributes@
    }
}

/// All events of `rs`, concatenated in order.
pub open spec fn spec_all_events(rs: Seq<Response>) -> Seq<Event>
    decreases rs.len(),
{
    if rs.len() == 0 {
        Seq::empty()
    } else {
        spec_all_events(rs.drop_last()) + rs.last().events@
    }
}

/// The transfer instructions of all responses of `rs`, concatenated in order.
pub open spec fn spec_all_transfers(rs: Seq<Response>) -> Seq<OutMsg>
    decreases rs.len(),
{
    if rs.len() == 0 {
        Seq::empty()
    } else {
        spec_all_transfers(rs.drop_last()) + spec_transfers(rs.last().messages@)
    }
}

/// Merging empty responses adds nothing.
pub proof fn lemma_all_empty(rs: Seq<Response>)
    requires
        forall|i: int| 0 <= i < rs.len() ==> (#[trigger] rs[i]).is_empty(),
    ensures
        spec_all_attributes(rs) == Seq::<Attribute>::empty(),
        spec_all_events(rs) == Seq::<Event>::empty(),
        spec_all_transfers(rs) == Seq::<OutMsg>::empty(),
    decreases rs.len(),
{
    if rs.len() > 0 {
        lemma_all_empty(rs.drop_last());
        assert(rs.last() == rs[rs.len() - 1]);
        assert(spec_transfers(rs.last().messages@) =~= Seq::<OutMsg>::empty());
        assert(spec_all_attributes(rs) =~= Seq::<Attribute>::empty());
        assert(spec_all_events(rs) =~= Seq::<Event>::empty());
        assert(spec_all_transfers(rs) =~= Seq::<OutMsg>::empty());
    }
}

/// Merging one response contributes its attributes, its events, and its
/// transfer instructions.
pub proof fn lemma_all_single(r: Response)
    ensures
        spec_all_attributes(seq![r]) == r.attributes@,
        spec_all_events(seq![r]) == r.events@,
        spec_all_transfers(seq![r]) == spec_transfers(r.messages@),
{
    assert(seq![r].drop_last() =~= Seq::<Response>::empty());
    assert(seq![r].last() == r);
    assert(spec_all_attributes(Seq::<Response>::empty()) == Seq::<Attribute>::empty());
    assert(spec_all_events(Seq::<Response>::empty()) == Seq::<Event>::empty());
    assert(spec_all_transfers(Seq::<Response>::empty()) == Seq::<OutMsg>::empty());
    assert(spec_all_attributes(seq![r]) =~= r.attributes@);
    assert(spec_all_events(seq![r]) =~= r.events@);
    assert(spec_all_transfers(seq![r]) =~= spec_transfers(r.messages@));
}

/// A message list of transfer instructions alone passes the merge unchanged.
pub proof fn lemma_transfers_all(ms: Seq<OutMsg>)
    requires
        forall|k: int| 0 <= k < ms.len() ==> (#[trigger] ms[k]) is Transfer,
    ensures
        spec_transfers(ms) == ms,
    decreases ms.len(),
{
    if ms.len() == 0 {
        assert(spec_transfers(ms) =~= ms);
    } else {
        lemma_transfers_all(ms.drop_last());
        assert(ms.last() == ms[ms.len() - 1]);
        assert(spec_transfers(ms) =~= ms);
    }
}

/// Merges the modules' partial responses into `main_response`, in invocation
/// order: attributes and events are concatenated; of the instructions only
/// financial transfers are forwarded, every other kind is dropped.
pub fn merge_responses(main_response: &mut Response, responses: Vec<Response>)
    ensures
        final(main_response).attributes@ == old(main_response).attributes@
            + spec_all_attributes(responses@),
        final(main_response).events@ == old(main_response).events@ + spec_all_events(
            responses@,
        ),
        final(main_response).messages@ == old(main_response).messages@ + spec_all_transfers(
            responses@,
        ),
{
    let ghost orig: Seq<Response> = responses@;
    let mut rest = responses;
    let ghost mut k: int = 0;
    proof {
        assert(orig.take(0) =~= Seq::<Response>::empty());
        assert(old(main_response).attributes@ + spec_all_attributes(orig.take(0))
            =~= old(main_response).attributes@);
        assert(old(main_response).events@ + spec_all_events(orig.take(0)) =~= old(
            main_response,
        ).events@);
        assert(old(main_response).messages@ + spec_all_transfers(orig.take(0)) =~= old(
            main_response,
        ).messages@);
    }
    while rest.len() > 0
        invariant
            0 <= k <= orig.len(),
            rest@ =~= orig.skip(k),
            main_response.attributes@ == old(main_response).attributes@ + spec_all_attributes(
                orig.take(k),
            ),
            main_response.events@ == old(main_response).events@ + spec_all_events(orig.take(k)),
            main_response.messages@ == old(main_response).messages@ + spec_all_transfers(
                orig.take(k),
            ),
        decreases rest@.len(),
    {
        proof {
            assert(rest@[0] == orig[k]);
            assert(rest@.remove(0) =~= orig.skip(k + 1));
        }
        let mut response = rest.remove(0);
        let ghost this: Response = response;
        proof {
            assert(this == orig[k]);
            assert(orig.take(k + 1).drop_last() =~= orig.take(k));
            assert(orig.take(k + 1).last() == orig[k]);
        }
        main_response.attributes.append(&mut response.attributes);
        main_response.events.append(&mut response.events);
        proof {
            assert(spec_all_attributes(orig.take(k + 1)) == spec_all_attributes(orig.take(k))
                + this.attributes@);
            assert(old(main_response).attributes@ + (spec_all_attributes(orig.take(k))
                + this.attributes@) =~= (old(main_response).attributes@ + spec_all_attributes(
                orig.take(k),
            )) + this.attributes@);
            assert(main_response.attributes@ == old(main_response).attributes@
                + spec_all_attributes(orig.take(k + 1)));
            assert(spec_all_events(orig.take(k + 1)) == spec_all_events(orig.take(k))
                + this.events@);
            assert(old(main_response).events@ + (spec_all_events(orig.take(k)) + this.events@)
                =~= (old(main_response).events@ + spec_all_events(orig.take(k))) + this.events@);
            assert(main_response.events@ == old(main_response).events@ + spec_all_events(
                orig.take(k + 1),
            ));
        }
        // forward only the financial transfer instructions
        let ghost msgs: Seq<OutMsg> = this.messages@;
        let ghost base: Seq<OutMsg> = main_response.messages@;
        let ghost cur_attrs: Seq<Attribute> = main_response.attributes@;
        let ghost cur_events: Seq<Event> = main_response.events@;
        let ghost mut j: int = 0;
        proof {
            assert(msgs.take(0) =~= Seq::<OutMsg>::empty());
            assert(base + spec_transfers(msgs.take(0)) =~= base);
        }
        while response.messages.len() > 0
            invariant
                0 <= j <= msgs.len(),
                response.messages@ =~= msgs.skip(j),
                main_response.messages@ == base + spec_transfers(msgs.take(j)),
                main_response.attributes@ == cur_attrs,
                main_response.events@ == cur_events,
            decreases response.messages@.len(),
        {
            proof {
                assert(response.messages@[0] == msgs[j]);
                assert(response.messages@.remove(0) =~= msgs.skip(j + 1));
            }
            let m = response.messages.remove(0);
            proof {
                assert(m == msgs[j]);
                assert(msgs.take(j + 1).drop_last() =~= msgs.take(j));
                assert(msgs.take(j + 1).last() == msgs[j]);
            }
            match m {
                OutMsg::Transfer(t) => {
                    proof {
                        assert(spec_transfers(msgs.take(j + 1)) == spec_transfers(msgs.take(j))
                            + seq![OutMsg::Transfer(t)]);
                        assert((base + spec_transfers(msgs.take(j))).push(OutMsg::Transfer(t))
                            =~= base + spec_transfers(msgs.take(j + 1)));
                    }
                    main_response.messages.push(OutMsg::Transfer(t));
                },
                OutMsg::Contract(_) => {
                    proof {
                        assert(spec_transfers(msgs.take(j + 1)) =~= spec_transfers(msgs.take(j)));
                    }
                },
            }
            proof {
                j = j + 1;
            }
        }
        proof {
            assert(msgs.take(msgs.len() as int) =~= msgs);
            assert(spec_all_transfers(orig.take(k + 1)) == spec_all_transfers(orig.take(k))
                + spec_transfers(msgs));
            assert(old(main_response).messages@ + (spec_all_transfers(orig.take(k))
                + spec_transfers(msgs)) =~= (old(main_response).messages@ + spec_all_transfers(
                orig.take(k),
            )) + spec_transfers(msgs));
            assert(main_response.messages@ == old(main_response).messages@ + spec_all_transfers(
                orig.take(k + 1),
            ));
            k = k + 1;
        }
    }
    proof {
        assert(orig.take(orig.len() as int) =~= orig);
    }
}

} // verus!
