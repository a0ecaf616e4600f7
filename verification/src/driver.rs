//! The hooks of the embedded analysis engine and the slot that takes the
//! primary unit's analysis.

use vstd::prelude::*;

verus! {

/// `Analysis` of the crate `rls_data`: the analysis of one unit as the
/// engine hands it out. It is declared without its fields: nothing of its
/// content is read here, a value is carried to the slot and out of it.
#[verifier::external_type_specification]
#[verifier::external_body]
pub struct ExAnalysis(rls_data::Analysis);

/// What a slot holds after `payload` is offered to it: an empty slot takes
/// it, a filled one keeps what it has.
pub open spec fn offered(
    slot: Option<rls_data::Analysis>,
    payload: rls_data::Analysis,
) -> Option<rls_data::Analysis> {
    if slot.is_none() {
        Some(payload)
    } else {
        slot
    }
}

/// What a slot that starts empty holds after the payloads of `offers` were
/// offered to it in order.
pub open spec fn after_offers(offers: Seq<rls_data::Analysis>) -> Option<rls_data::Analysis>
    decreases offers.len(),
{
    if offers.len() == 0 {
        None
    } else {
        offered(after_offers(offers.drop_last()), offers.last())
    }
}

/// The slot is set once: whatever is offered, and however often, a slot
/// that starts empty holds the first payload offered, and is empty only
/// while nothing was offered.
pub proof fn lemma_set_once(offers: Seq<rls_data::Analysis>)
    ensures
        offers.len() == 0 ==> after_offers(offers).is_none(),
        offers.len() > 0 ==> after_offers(offers) == Some(offers[0]),
    decreases offers.len(),
{
    if offers.len() > 0 {
        lemma_set_once(offers.drop_last());
    }
}

/// The single place that takes the analysis of the primary unit. It goes
/// from empty to filled once and is never filled again.
pub struct PayloadSlot {
    payload: Option<rls_data::Analysis>,
}

impl PayloadSlot {
    /// What the slot holds.
    pub closed spec fn content(&self) -> Option<rls_data::Analysis> {
        self.payload
    }

    /// An empty slot.
    pub fn new() -> (slot: PayloadSlot)
        ensures
            slot.content().is_none(),
    {
        PayloadSlot { payload: None }
    }

    /// Whether a payload was stored.
    pub fn is_filled(&self) -> (filled: bool)
        ensures
            filled == self.content().is_some(),
    {
        self.payload.is_some()
    }

    /// Stores `payload` if the slot is empty and says whether it did. A
    /// filled slot keeps its payload.
    pub fn fill(&mut self, payload: rls_data::Analysis) -> (stored: bool)
        ensures
            stored == old(self).content().is_none(),
            final(self).content() == offered(old(self).content(), payload),
            final(self).content().is_some(),
    {
        if self.payload.is_none() {
            self.payload = Some(payload);
            true
        } else {
            false
        }
    }

    /// Hands the payload out, if there is one.
    pub fn take(self) -> (payload: Option<rls_data::Analysis>)
        ensures
            payload == self.content(),
    {
        self.payload
    }
}

/// The hooks that the embedded engine calls between its phases, with the
/// slot that the analysis goes to. Every hook asks the engine to go on.
pub struct MyRustcCalls {
    /// The slot of the session.
    pub analysis: PayloadSlot,
}

impl MyRustcCalls {
    /// Hooks with an empty slot.
    pub fn new() -> (calls: MyRustcCalls)
        ensures
            calls.analysis.content().is_none(),
    {
        MyRustcCalls { analysis: PayloadSlot::new() }
    }

    /// Whether the engine is to save its analysis: always.
    pub fn config(&self) -> (save_analysis: bool)
        ensures
            save_analysis,
    {
        true
    }

    /// After parsing: the engine goes on, the slot is not touched.
    pub fn after_parsing(&mut self) -> (go_on: bool)
        ensures
            go_on,
            final(self).analysis.content() == old(self).analysis.content(),
    {
        true
    }

    /// After the analysis phase: `payload`, an independent copy of the
    /// engine's analysis, goes to the slot if that is empty; the engine
    /// goes on.
    pub fn after_analysis(&mut self, payload: rls_data::Analysis) -> (go_on: bool)
        ensures
            go_on,
            final(self).analysis.content() == offered(old(self).analysis.content(), payload),
            final(self).analysis.content().is_some(),
            old(self).analysis.content().is_none() ==> final(self).analysis.content() == Some(
                payload,
            ),
    {
        self.analysis.fill(payload);
        true
    }
}

} // verus!
