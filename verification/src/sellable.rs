//! Fixed-price listings layered over the token ledger. A token may be listed
//! only by its owner and only while it is not redeemed; a purchase atomically
//! removes the listing, transfers ownership to the buyer, and emits a
//! financial transfer instruction paying the listed price to the seller.
//! Redemption state is re-checked at buy time, guarding the race where a
//! token is locked after it was listed.

use vstd::prelude::*;
use crate::types::{Coin, Env, MessageInfo, spec_payment_covers, payment_covers};
use crate::response::{OutMsg, Response, TransferMsg};
use crate::token::Tokens;
use crate::redeemable::Redeemable;

verus! {

/// An offer to sell one token at a fixed price.
#[derive(Debug, PartialEq, Eq)]
pub struct Listing {
    pub token_id: String,
    pub price: Coin,
}

impl Clone for Listing {
    fn clone(&self) -> (r: Self)
        ensures
            r == *self,
    {
        Listing { token_id: self.token_id.clone(), price: self.price.clone() }
    }
}

pub struct InstantiateMsg {
    pub tokens: Vec<Listing>,
}

pub enum ExecuteMsg {
    List { listings: Vec<Listing> },
    Delist { token_id: String },
    Buy { token_id: String },
}

pub enum QueryMsg {
    ListedTokens { start_after: Option<String>, limit: Option<usize> },
}

#[derive(Debug, PartialEq, Eq)]
pub enum QueryResp {
    ListedTokens(Vec<Listing>),
}

#[derive(Debug, PartialEq, Eq)]
pub enum SellableError {
    Unauthorized,
    NotFound,
    Conflict,
    InvalidInput,
}

/// Whether `entries` holds a listing for `id`.
pub open spec fn seq_has_listing(entries: Seq<Listing>, id: Seq<char>) -> bool {
    exists|i: int| 0 <= i < entries.len() && entries[i].token_id@ == id
}

/// The position of the listing for `id` (meaningful under well-formedness).
pub open spec fn seq_listing_index(entries: Seq<Listing>, id: Seq<char>) -> int {
    choose|i: int| 0 <= i < entries.len() && entries[i].token_id@ == id
}

/// Creates or replaces the listing for `item`'s token id.
pub open spec fn seq_upsert(entries: Seq<Listing>, item: Listing) -> Seq<Listing> {
    if seq_has_listing(entries, item.token_id@) {
        entries.update(seq_listing_index(entries, item.token_id@), item)
    } else {
        entries.push(item)
    }
}

/// Applies `seq_upsert` for each of `items`, in order.
pub open spec fn seq_upsert_all(entries: Seq<Listing>, items: Seq<Listing>) -> Seq<Listing>
    decreases items.len(),
{
    if items.len() == 0 {
        entries
    } else {
        seq_upsert_all(seq_upsert(entries, items[0]), items.drop_first())
    }
}

/// The sellable module's state: the listings, in insertion order.
pub struct Sellable {
    pub listed_tokens: Vec<Listing>,
}

/// Well-formedness of a listing sequence: at most one listing per token id.
pub open spec fn entries_wf(entries: Seq<Listing>) -> bool {
    forall|i: int, j: int|
        0 <= i < j < entries.len() ==> entries[i].token_id@ != entries[j].token_id@
}

/// Removing an entry keeps the ids pairwise distinct.
proof fn lemma_entries_remove_wf(pre: Seq<Listing>, at: int)
    requires
        0 <= at < pre.len(),
        entries_wf(pre),
    ensures
        entries_wf(pre.remove(at)),
{
    let post = pre.remove(at);
    assert forall|i: int, j: int| 0 <= i < j < post.len() implies post[i].token_id@
        != post[j].token_id@ by {
        if i < at {
            assert(post[i] == pre[i]);
        } else {
            assert(post[i] == pre[i + 1]);
        }
        if j < at {
            assert(post[j] == pre[j]);
        } else {
            assert(post[j] == pre[j + 1]);
        }
    }
}

impl Sellable {
    /// Well-formedness: at most one listing per token id.
    pub open spec fn wf(self) -> bool {
        entries_wf(self.listed_tokens@)
    }

    /// Whether `id` is listed.
    pub open spec fn has_listing(self, id: Seq<char>) -> bool {
        seq_has_listing(self.listed_tokens@, id)
    }

    /// The position of the listing for `id`.
    pub open spec fn listing_index(self, id: Seq<char>) -> int {
        seq_listing_index(self.listed_tokens@, id)
    }

    /// The listed price of `id`.
    pub open spec fn spec_price(self, id: Seq<char>) -> Coin {
        self.listed_tokens@[self.listing_index(id)].price
    }

    /// Every listing refers to a token that exists in the ledger.
    pub open spec fn listings_backed<X>(self, tokens: Tokens<X>) -> bool {
        forall|id: Seq<char>| #[trigger] self.has_listing(id) ==> tokens.has_id(id)
    }
}

impl Default for Sellable {
    /// A sellable module with no listings.
    fn default() -> (s: Self)
        ensures
            s.listed_tokens@.len() == 0,
            s.wf(),
    {
        Sellable { listed_tokens: Vec::new() }
    }
}

/// Whether `caller` may create this listing: the token exists, the caller
/// owns it, it is not redeemed, and the price is a positive amount.
pub open spec fn valid_listing<X>(
    tokens: Tokens<X>,
    redeemable: Redeemable,
    caller: Seq<char>,
    item: Listing,
) -> bool {
    &&& tokens.has_id(item.token_id@)
    &&& tokens.spec_token(item.token_id@).owner@ == caller
    &&& !redeemable.contains(item.token_id@)
    &&& item.price.amount > 0
}

/// The error an invalid listing draws, by the first failing check.
pub open spec fn listing_error<X>(
    tokens: Tokens<X>,
    redeemable: Redeemable,
    caller: Seq<char>,
    item: Listing,
) -> SellableError {
    if !tokens.has_id(item.token_id@) {
        SellableError::NotFound
    } else if tokens.spec_token(item.token_id@).owner@ != caller {
        SellableError::Unauthorized
    } else if redeemable.contains(item.token_id@) {
        SellableError::Conflict
    } else {
        SellableError::InvalidInput
    }
}

/// The error the first invalid item of `items` draws, if any.
pub open spec fn batch_error<X>(
    tokens: Tokens<X>,
    redeemable: Redeemable,
    caller: Seq<char>,
    items: Seq<Listing>,
) -> Option<SellableError>
    decreases items.len(),
{
    if items.len() == 0 {
        None
    } else if !valid_listing(tokens, redeemable, caller, items[0]) {
        Some(listing_error(tokens, redeemable, caller, items[0]))
    } else {
        batch_error(tokens, redeemable, caller, items.drop_first())
    }
}

/// When every item up to `i` is valid and item `i` is not, the batch draws
/// item `i`'s error.
proof fn lemma_batch_error_at<X>(
    tokens: Tokens<X>,
    redeemable: Redeemable,
    caller: Seq<char>,
    items: Seq<Listing>,
    i: int,
)
    requires
        0 <= i < items.len(),
        forall|k: int| 0 <= k < i ==> valid_listing(tokens, redeemable, caller, #[trigger] items[k]),
        !valid_listing(tokens, redeemable, caller, items[i]),
    ensures
        batch_error(tokens, redeemable, caller, items) == Some(
            listing_error(tokens, redeemable, caller, items[i]),
        ),
    decreases i,
{
    if i == 0 {
    } else {
        assert(valid_listing(tokens, redeemable, caller, items[0]));
        assert(items.drop_first()[i - 1] == items[i]);
        lemma_batch_error_at(tokens, redeemable, caller, items.drop_first(), i - 1);
    }
}

/// When every item is valid, the batch draws no error.
proof fn lemma_batch_error_none<X>(
    tokens: Tokens<X>,
    redeemable: Redeemable,
    caller: Seq<char>,
    items: Seq<Listing>,
)
    requires
        forall|k: int|
            0 <= k < items.len() ==> valid_listing(tokens, redeemable, caller, #[trigger] items[k]),
    ensures
        batch_error(tokens, redeemable, caller, items) is None,
    decreases items.len(),
{
    if items.len() > 0 {
        lemma_batch_error_none(tokens, redeemable, caller, items.drop_first());
    }
}

/// After upserting `items`, every listed id was listed before or is one of
/// the items' ids.
pub proof fn lemma_upsert_all_ids(entries: Seq<Listing>, items: Seq<Listing>)
    ensures
        forall|id: Seq<char>|
            seq_has_listing(#[trigger] seq_upsert_all(entries, items), id) ==> seq_has_listing(
                entries,
                id,
            ) || (exists|k: int| 0 <= k < items.len() && items[k].token_id@ == id),
    decreases items.len(),
{
    if items.len() > 0 {
        let step = seq_upsert(entries, items[0]);
        lemma_upsert_all_ids(step, items.drop_first());
        assert forall|id: Seq<char>| seq_has_listing(step, id) implies seq_has_listing(entries, id)
            || (exists|k: int| 0 <= k < items.len() && items[k].token_id@ == id) by {
            let w = choose|i: int| 0 <= i < step.len() && step[i].token_id@ == id;
            if seq_has_listing(entries, items[0].token_id@) {
                let at = seq_listing_index(entries, items[0].token_id@);
                if w == at {
                    assert(items[0].token_id@ == id);
                } else {
                    assert(entries[w].token_id@ == id);
                }
            } else {
                if w == entries.len() {
                    assert(items[0].token_id@ == id);
                } else {
                    assert(entries[w].token_id@ == id);
                }
            }
        }
        assert forall|id: Seq<char>|
            seq_has_listing(#[trigger] seq_upsert_all(entries, items), id) implies seq_has_listing(
            entries,
            id,
        ) || (exists|k: int| 0 <= k < items.len() && items[k].token_id@ == id) by {
            if seq_has_listing(step, id) || (exists|k: int|
                0 <= k < items.drop_first().len() && items.drop_first()[k].token_id@ == id) {
                if exists|k: int|
                    0 <= k < items.drop_first().len() && items.drop_first()[k].token_id@ == id {
                    let k = choose|k: int|
                        0 <= k < items.drop_first().len() && items.drop_first()[k].token_id@ == id;
                    assert(items[k + 1].token_id@ == id);
                }
            }
        }
    }
}

impl Sellable {
    /// The position of the listing for `id`, if any.
    fn find_listing(&self, id: &String) -> (r: Option<usize>)
        ensures
            match r {
                Some(i) => i < self.listed_tokens@.len() && self.listed_tokens@[i as int].token_id@
                    == id@ && (self.wf() ==> i as int == self.listing_index(id@)),
                None => !self.has_listing(id@),
            },
    {
        let mut i: usize = 0;
        while i < self.listed_tokens.len()
            invariant
                0 <= i <= self.listed_tokens@.len(),
                forall|k: int| 0 <= k < i ==> self.listed_tokens@[k].token_id@ != id@,
            decreases self.listed_tokens@.len() - i,
        {
            if self.listed_tokens[i].token_id == *id {
                proof {
                    assert(self.has_listing(id@));
                    if self.wf() {
                        let w = self.listing_index(id@);
                        assert(0 <= w < self.listed_tokens@.len() && self.listed_tokens@[w].token_id@
                            == id@);
                        assert(w == i as int);
                    }
                }
                return Some(i);
            }
            i = i + 1;
        }
        None
    }

    /// Creates or replaces the listing for `item`'s token id.
    fn upsert_entry(&mut self, item: Listing)
        requires
            old(self).wf(),
        ensures
            final(self).wf(),
            final(self).listed_tokens@ == seq_upsert(old(self).listed_tokens@, item),
    {
        let ghost pre = self.listed_tokens@;
        match self.find_listing(&item.token_id) {
            Some(at) => {
                self.listed_tokens.remove(at);
                self.listed_tokens.insert(at, item);
                proof {
                    assert(self.listed_tokens@ =~= pre.update(
                        seq_listing_index(pre, item.token_id@),
                        item,
                    ));
                }
            },
            None => {
                self.listed_tokens.push(item);
            },
        }
        proof {
            assert forall|i: int, j: int|
                0 <= i < j < self.listed_tokens@.len() implies self.listed_tokens@[i].token_id@
                != self.listed_tokens@[j].token_id@ by {
                if seq_has_listing(pre, item.token_id@) {
                } else {
                    if j < pre.len() {
                    } else {
                        assert(self.listed_tokens@[j] == item);
                        assert(self.listed_tokens@[i] == pre[i]);
                    }
                }
            }
        }
    }

    /// Creates or replaces one listing on behalf of `caller`, who must own
    /// the not-redeemed token; a redeemed token cannot be newly listed. On
    /// failure the state is unchanged.
    pub fn list<X>(
        &mut self,
        tokens: &Tokens<X>,
        redeemable: &Redeemable,
        caller: &String,
        token_id: String,
        price: Coin,
    ) -> (r: Result<Response, SellableError>)
        requires
            old(self).wf(),
            tokens.wf(),
        ensures
            final(self).wf(),
            match r {
                Ok(resp) => valid_listing(*tokens, *redeemable, caller@, (Listing { token_id, price }))
                    && final(self).listed_tokens@ == seq_upsert(
                    old(self).listed_tokens@,
                    (Listing { token_id, price }),
                ) && resp.is_empty(),
                Err(e) => *final(self) == *old(self) && !valid_listing(
                    *tokens,
                    *redeemable,
                    caller@,
                    (Listing { token_id, price }),
                ) && e == listing_error(
                    *tokens,
                    *redeemable,
                    caller@,
                    (Listing { token_id, price }),
                ),
            },
    {
        let item = Listing { token_id, price };
        match check_one_listing(tokens, redeemable, caller, &item) {
            Ok(_) => {
                self.upsert_entry(item);
                Ok(Response::new())
            },
            Err(e) => Err(e),
        }
    }

    /// Removes the listing for `token_id` on behalf of `caller`, who must
    /// own the token. On failure the state is unchanged.
    pub fn delist<X>(&mut self, tokens: &Tokens<X>, caller: &String, token_id: &String) -> (r:
        Result<Response, SellableError>)
        requires
            old(self).wf(),
            tokens.wf(),
            old(self).listings_backed(*tokens),
        ensures
            final(self).wf(),
            final(self).listings_backed(*tokens),
            match r {
                Ok(resp) => old(self).has_listing(token_id@) && tokens.spec_token(
                    token_id@,
                ).owner@ == caller@ && final(self).listed_tokens@ == old(
                    self,
                ).listed_tokens@.remove(old(self).listing_index(token_id@)) && resp.is_empty(),
                Err(e) => *final(self) == *old(self) && (match e {
                    SellableError::NotFound => !old(self).has_listing(token_id@),
                    SellableError::Unauthorized => old(self).has_listing(token_id@)
                        && tokens.spec_token(token_id@).owner@ != caller@,
                    _ => false,
                }),
            },
    {
        let at = match self.find_listing(token_id) {
            Some(i) => i,
            None => {
                return Err(SellableError::NotFound);
            },
        };
        proof {
            assert(self.has_listing(token_id@));
            assert(tokens.has_id(token_id@));
        }
        let owner = match tokens.owner_of(token_id) {
            Some(o) => o,
            None => {
                // unreachable: every listing is backed by a token
                proof {
                    assert(false);
                }
                return Err(SellableError::NotFound);
            },
        };
        if owner != *caller {
            return Err(SellableError::Unauthorized);
        }
        let ghost pre = self.listed_tokens@;
        self.listed_tokens.remove(at);
        proof {
            lemma_entries_remove_wf(pre, at as int);
            assert forall|id2: Seq<char>| self.has_listing(id2) implies tokens.has_id(id2) by {
                let w = choose|i: int|
                    0 <= i < self.listed_tokens@.len() && self.listed_tokens@[i].token_id@ == id2;
                if w < at {
                    assert(pre[w].token_id@ == id2);
                } else {
                    assert(pre[w + 1].token_id@ == id2);
                }
                assert(seq_has_listing(pre, id2));
                assert(old(self).has_listing(id2));
            }
        }
        Ok(Response::new())
    }

    /// Buys the listed token `token_id` with the funds sent along: removes
    /// the listing, transfers ownership to the buyer, and emits a transfer
    /// instruction paying the listed price to the previous owner — all or
    /// nothing. Fails with `NotFound` if no listing exists, `InvalidInput`
    /// if the payment does not cover the listed price, and `Conflict` if the
    /// token was redeemed after listing; on failure nothing changes.
    pub fn buy<X>(
        &mut self,
        tokens: &mut Tokens<X>,
        redeemable: &Redeemable,
        info: &MessageInfo,
        token_id: &String,
    ) -> (r: Result<Response, SellableError>)
        requires
            old(self).wf(),
            old(tokens).wf(),
            old(self).listings_backed(*old(tokens)),
        ensures
            final(self).wf(),
            final(tokens).wf(),
            final(self).listings_backed(*final(tokens)),
            match r {
                Ok(resp) => {
                    &&& old(self).has_listing(token_id@)
                    &&& spec_payment_covers(info.funds@, old(self).spec_price(token_id@))
                    &&& !redeemable.contains(token_id@)
                    &&& final(self).listed_tokens@ == old(self).listed_tokens@.remove(
                        old(self).listing_index(token_id@),
                    )
                    &&& crate::token::transfer_ok(*old(tokens), *final(tokens), token_id@, info.sender)
                    &&& resp.attributes@.len() == 0
                    &&& resp.events@.len() == 0
                    &&& resp.messages@ == seq![
                        OutMsg::Transfer(
                            TransferMsg {
                                recipient: old(tokens).spec_token(token_id@).owner,
                                amount: old(self).spec_price(token_id@),
                            },
                        ),
                    ]
                },
                Err(e) => *final(self) == *old(self) && *final(tokens) == *old(tokens) && (match e {
                    SellableError::NotFound => !old(self).has_listing(token_id@),
                    SellableError::InvalidInput => old(self).has_listing(token_id@)
                        && !spec_payment_covers(info.funds@, old(self).spec_price(token_id@)),
                    SellableError::Conflict => old(self).has_listing(token_id@)
                        && spec_payment_covers(info.funds@, old(self).spec_price(token_id@))
                        && redeemable.contains(token_id@),
                    SellableError::Unauthorized => false,
                }),
            },
    {
        let at = match self.find_listing(token_id) {
            Some(i) => i,
            None => {
                return Err(SellableError::NotFound);
            },
        };
        if !payment_covers(&info.funds, &self.listed_tokens[at].price) {
            return Err(SellableError::InvalidInput);
        }
        if redeemable.is_redeemed(token_id) {
            return Err(SellableError::Conflict);
        }
        proof {
            assert(self.has_listing(token_id@));
            assert(tokens.has_id(token_id@));
        }
        let seller = match tokens.owner_of(token_id) {
            Some(o) => o,
            None => {
                // unreachable: every listing is backed by a token
                proof {
                    assert(false);
                }
                return Err(SellableError::NotFound);
            },
        };
        let ghost pre = self.listed_tokens@;
        let listing = self.listed_tokens.remove(at);
        proof {
            lemma_entries_remove_wf(pre, at as int);
        }
        match tokens.transfer_internal(token_id, info.sender.clone()) {
            Ok(_) => {},
            Err(_) => {
                // unreachable: the token was shown to exist
                proof {
                    assert(false);
                }
                return Err(SellableError::NotFound);
            },
        }
        proof {
            crate::token::lemma_transfer_same_ids(*old(tokens), *tokens, token_id@, info.sender);
            assert forall|id2: Seq<char>| self.has_listing(id2) implies tokens.has_id(id2) by {
                let w = choose|i: int|
                    0 <= i < self.listed_tokens@.len() && self.listed_tokens@[i].token_id@ == id2;
                if w < at {
                    assert(pre[w].token_id@ == id2);
                } else {
                    assert(pre[w + 1].token_id@ == id2);
                }
                assert(seq_has_listing(pre, id2));
                assert(old(self).has_listing(id2));
                assert(old(tokens).has_id(id2));
            }
        }
        let mut messages: Vec<OutMsg> = Vec::new();
        messages.push(OutMsg::Transfer(TransferMsg { recipient: seller, amount: listing.price }));
        proof {
            assert(messages@ =~= seq![
                OutMsg::Transfer(
                    TransferMsg {
                        recipient: old(tokens).spec_token(token_id@).owner,
                        amount: old(self).spec_price(token_id@),
                    },
                ),
            ]);
        }
        Ok(Response { attributes: Vec::new(), events: Vec::new(), messages })
    }

    /// Creates or replaces the listings of `items`, in order.
    fn apply_listings(&mut self, items: Vec<Listing>)
        requires
            old(self).wf(),
        ensures
            final(self).wf(),
            final(self).listed_tokens@ == seq_upsert_all(old(self).listed_tokens@, items@),
    {
        let ghost orig_items: Seq<Listing> = items@;
        let ghost start_entries: Seq<Listing> = self.listed_tokens@;
        let mut rest = items;
        let ghost mut k: int = 0;
        proof {
            assert(orig_items.skip(0) =~= orig_items);
        }
        while rest.len() > 0
            invariant
                0 <= k <= orig_items.len(),
                rest@ =~= orig_items.skip(k),
                self.wf(),
                seq_upsert_all(self.listed_tokens@, orig_items.skip(k)) == seq_upsert_all(
                    start_entries,
                    orig_items,
                ),
            decreases rest@.len(),
        {
            proof {
                assert(rest@[0] == orig_items[k]);
                assert(rest@.remove(0) =~= orig_items.skip(k + 1));
                assert(orig_items.skip(k).drop_first() =~= orig_items.skip(k + 1));
            }
            let item = rest.remove(0);
            self.upsert_entry(item);
            proof {
                k = k + 1;
            }
        }
        proof {
            assert(orig_items.skip(orig_items.len() as int) =~= Seq::<Listing>::empty());
        }
    }

    /// Stores the configured initial listings, checking each against the
    /// ledger and the redemption set (ownership is not checked: there is no
    /// lister at instantiation). On failure the state is unchanged.
    pub fn instantiate<X>(
        &mut self,
        tokens: &Tokens<X>,
        redeemable: &Redeemable,
        _env: &Env,
        _info: &MessageInfo,
        msg: InstantiateMsg,
    ) -> (r: Result<Response, SellableError>)
        requires
            tokens.wf(),
        ensures
            match r {
                Ok(resp) => initial_batch_error(*tokens, *redeemable, msg.tokens@) is None
                    && final(self).wf() && final(self).listed_tokens@ == seq_upsert_all(
                    Seq::<Listing>::empty(),
                    msg.tokens@,
                ) && final(self).listings_backed(*tokens) && resp.is_empty(),
                Err(e) => *final(self) == *old(self) && initial_batch_error(
                    *tokens,
                    *redeemable,
                    msg.tokens@,
                ) == Some(e),
            },
    {
        let items = msg.tokens;
        match check_all_initial(tokens, redeemable, &items) {
            Ok(_) => {},
            Err(e) => {
                return Err(e);
            },
        }
        self.listed_tokens = Vec::new();
        self.apply_listings(items);
        proof {
            lemma_upsert_all_ids(Seq::<Listing>::empty(), items@);
            assert(self.listed_tokens@ == seq_upsert_all(Seq::<Listing>::empty(), items@));
            assert forall|id2: Seq<char>| self.has_listing(id2) implies tokens.has_id(id2) by {
                assert(seq_has_listing(seq_upsert_all(Seq::<Listing>::empty(), items@), id2));
                assert(!seq_has_listing(Seq::<Listing>::empty(), id2));
                assert(exists|j: int| 0 <= j < items@.len() && items@[j].token_id@ == id2);
                let j = choose|j: int| 0 <= j < items@.len() && items@[j].token_id@ == id2;
                assert(valid_initial_listing(*tokens, *redeemable, items@[j]));
            }
        }
        Ok(Response::new())
    }

    /// Routes an execute message: `List` creates or replaces a batch of
    /// listings, all or nothing; `Delist` removes one; `Buy` purchases one
    /// with the funds sent along.
    pub fn execute<X>(
        &mut self,
        tokens: &mut Tokens<X>,
        redeemable: &Redeemable,
        _env: &Env,
        info: &MessageInfo,
        msg: ExecuteMsg,
    ) -> (r: Result<Response, SellableError>)
        requires
            old(self).wf(),
            old(tokens).wf(),
            old(self).listings_backed(*old(tokens)),
        ensures
            final(self).wf(),
            final(tokens).wf(),
            final(self).listings_backed(*final(tokens)),
            match msg {
                ExecuteMsg::List { listings } => match r {
                    Ok(resp) => batch_error(*old(tokens), *redeemable, info.sender@, listings@)
                        is None && final(self).listed_tokens@ == seq_upsert_all(
                        old(self).listed_tokens@,
                        listings@,
                    ) && *final(tokens) == *old(tokens) && resp.is_empty(),
                    Err(e) => *final(self) == *old(self) && *final(tokens) == *old(tokens)
                        && batch_error(*old(tokens), *redeemable, info.sender@, listings@) == Some(
                        e,
                    ),
                },
                ExecuteMsg::Delist { token_id } => *final(tokens) == *old(tokens) && (match r {
                    Ok(resp) => old(self).has_listing(token_id@) && old(tokens).spec_token(
                        token_id@,
                    ).owner@ == info.sender@ && final(self).listed_tokens@ == old(
                        self,
                    ).listed_tokens@.remove(old(self).listing_index(token_id@)) && resp.is_empty(),
                    Err(e) => *final(self) == *old(self) && (match e {
                        SellableError::NotFound => !old(self).has_listing(token_id@),
                        SellableError::Unauthorized => old(self).has_listing(token_id@) && old(
                            tokens,
                        ).spec_token(token_id@).owner@ != info.sender@,
                        _ => false,
                    }),
                }),
                ExecuteMsg::Buy { token_id } => match r {
                    Ok(resp) => {
                        &&& old(self).has_listing(token_id@)
                        &&& spec_payment_covers(info.funds@, old(self).spec_price(token_id@))
                        &&& !redeemable.contains(token_id@)
                        &&& final(self).listed_tokens@ == old(self).listed_tokens@.remove(
                            old(self).listing_index(token_id@),
                        )
                        &&& crate::token::transfer_ok(
                            *old(tokens),
                            *final(tokens),
                            token_id@,
                            info.sender,
                        )
                        &&& resp.attributes@.len() == 0
                        &&& resp.events@.len() == 0
                        &&& resp.messages@ == seq![
                            OutMsg::Transfer(
                                TransferMsg {
                                    recipient: old(tokens).spec_token(token_id@).owner,
                                    amount: old(self).spec_price(token_id@),
                                },
                            ),
                        ]
                    },
                    Err(e) => *final(self) == *old(self) && *final(tokens) == *old(tokens) && (
                    match e {
                        SellableError::NotFound => !old(self).has_listing(token_id@),
                        SellableError::InvalidInput => old(self).has_listing(token_id@)
                            && !spec_payment_covers(info.funds@, old(self).spec_price(token_id@)),
                        SellableError::Conflict => old(self).has_listing(token_id@)
                            && spec_payment_covers(info.funds@, old(self).spec_price(token_id@))
                            && redeemable.contains(token_id@),
                        SellableError::Unauthorized => false,
                    }),
                },
            },
    {
        match msg {
            ExecuteMsg::List { listings } => {
                match check_all_listings(tokens, redeemable, &info.sender, &listings) {
                    Ok(_) => {},
                    Err(e) => {
                        return Err(e);
                    },
                }
                let ghost items_view: Seq<Listing> = listings@;
                self.apply_listings(listings);
                proof {
                    lemma_upsert_all_ids(old(self).listed_tokens@, items_view);
                    assert(self.listed_tokens@ == seq_upsert_all(
                        old(self).listed_tokens@,
                        items_view,
                    ));
                    assert forall|id2: Seq<char>| self.has_listing(id2) implies tokens.has_id(
                        id2,
                    ) by {
                        assert(seq_has_listing(
                            seq_upsert_all(old(self).listed_tokens@, items_view),
                            id2,
                        ));
                        if seq_has_listing(old(self).listed_tokens@, id2) {
                            assert(old(self).has_listing(id2));
                        } else {
                            let j = choose|j: int|
                                0 <= j < items_view.len() && items_view[j].token_id@ == id2;
                            assert(valid_listing(
                                *tokens,
                                *redeemable,
                                info.sender@,
                                items_view[j],
                            ));
                        }
                    }
                }
                Ok(Response::new())
            },
            ExecuteMsg::Delist { token_id } => self.delist(tokens, &info.sender, &token_id),
            ExecuteMsg::Buy { token_id } => self.buy(tokens, redeemable, info, &token_id),
        }
    }

    /// What `list_all` produces: the listings in insertion order, restarted
    /// after `start_after` where that id is listed, cut to `limit` entries.
    pub open spec fn spec_listed(
        self,
        start_after: Option<Seq<char>>,
        limit: Option<usize>,
    ) -> Seq<Listing> {
        let entries = self.listed_tokens@;
        let rest = match start_after {
            Some(s) => if seq_has_listing(entries, s) {
                entries.skip(seq_listing_index(entries, s) + 1)
            } else {
                entries
            },
            None => entries,
        };
        match limit {
            Some(l) => if (l as int) < rest.len() {
                rest.take(l as int)
            } else {
                rest
            },
            None => rest,
        }
    }

    /// A finite, restartable page of the listings, in insertion order.
    pub fn list_all(&self, start_after: Option<&String>, limit: Option<usize>) -> (r: Vec<Listing>)
        requires
            self.wf(),
        ensures
            r@ == self.spec_listed(
                match start_after {
                    Some(s) => Some(s@),
                    None => None,
                },
                limit,
            ),
    {
        let ghost entries = self.listed_tokens@;
        let n = self.listed_tokens.len();
        let mut start: usize = 0;
        if let Some(s) = start_after {
            match self.find_listing(s) {
                Some(p) => {
                    start = p + 1;
                },
                None => {},
            }
        }
        proof {
            match start_after {
                Some(s) => {
                    if seq_has_listing(entries, s@) {
                        assert(start as int == seq_listing_index(entries, s@) + 1);
                    } else {
                        assert(start == 0);
                        assert(entries.skip(0) =~= entries);
                    }
                },
                None => {
                    assert(entries.skip(0) =~= entries);
                },
            }
        }
        let ghost rest = entries.skip(start as int);
        let cap: usize = match limit {
            Some(l) => l,
            None => n,
        };
        let mut out: Vec<Listing> = Vec::new();
        let mut q: usize = start;
        while q < n && out.len() < cap
            invariant
                start <= q <= n,
                n == self.listed_tokens@.len(),
                entries == self.listed_tokens@,
                rest == entries.skip(start as int),
                out@.len() == q - start,
                out@.len() <= cap,
                out@ == rest.take(q - start),
            decreases n - q,
        {
            let item = self.listed_tokens[q].clone();
            proof {
                assert(item == entries[q as int]);
                assert(entries[q as int] == rest[q - start]);
                assert(out@.push(item) =~= rest.take(q + 1 - start));
            }
            out.push(item);
            q = q + 1;
        }
        proof {
            let se: Option<Seq<char>> = match start_after {
                Some(s) => Some(s@),
                None => None,
            };
            if q == n {
                assert(rest.take(q - start) =~= rest);
                match limit {
                    Some(l) => {
                        assert(!((l as int) < rest.len()));
                    },
                    None => {},
                }
            } else {
                assert(out@.len() == cap);
                match limit {
                    Some(l) => {
                        assert((l as int) < rest.len());
                    },
                    None => {
                        assert(false);
                    },
                }
            }
            assert(out@ == self.spec_listed(se, limit));
        }
        out
    }

    /// The listed price of `id`, if listed.
    pub fn price_of(&self, id: &String) -> (r: Option<Coin>)
        requires
            self.wf(),
        ensures
            match r {
                Some(c) => self.has_listing(id@) && c == self.spec_price(id@),
                None => !self.has_listing(id@),
            },
    {
        match self.find_listing(id) {
            Some(at) => Some(self.listed_tokens[at].price.clone()),
            None => None,
        }
    }

    /// Routes a query message; read-only.
    pub fn query(&self, _env: &Env, msg: QueryMsg) -> (r: Result<QueryResp, SellableError>)
        requires
            self.wf(),
        ensures
            match msg {
                QueryMsg::ListedTokens { start_after, limit } => (match r {
                    Ok(resp) => (match resp {
                        QueryResp::ListedTokens(ls) => ls@ == self.spec_listed(
                            match start_after {
                                Some(s) => Some(s@),
                                None => None,
                            },
                            limit,
                        ),
                    }),
                    Err(_) => false,
                }),
            },
    {
        match msg {
            QueryMsg::ListedTokens { start_after, limit } => {
                let ls = self.list_all(start_after.as_ref(), limit);
                Ok(QueryResp::ListedTokens(ls))
            },
        }
    }
}

/// Checks one listing against the ledger, the redemption set and the caller,
/// yielding the error of the first failing check.
fn check_one_listing<X>(
    tokens: &Tokens<X>,
    redeemable: &Redeemable,
    caller: &String,
    item: &Listing,
) -> (r: Result<(), SellableError>)
    requires
        tokens.wf(),
    ensures
        match r {
            Ok(_) => valid_listing(*tokens, *redeemable, caller@, *item),
            Err(e) => !valid_listing(*tokens, *redeemable, caller@, *item) && e == listing_error(
                *tokens,
                *redeemable,
                caller@,
                *item,
            ),
        },
{
    let owner = match tokens.owner_of(&item.token_id) {
        Some(o) => o,
        None => {
            return Err(SellableError::NotFound);
        },
    };
    if owner != *caller {
        return Err(SellableError::Unauthorized);
    }
    if redeemable.is_redeemed(&item.token_id) {
        return Err(SellableError::Conflict);
    }
    if item.price.amount == 0 {
        return Err(SellableError::InvalidInput);
    }
    Ok(())
}

/// Checks a whole batch of listings, yielding the first invalid item's
/// error.
fn check_all_listings<X>(
    tokens: &Tokens<X>,
    redeemable: &Redeemable,
    caller: &String,
    items: &Vec<Listing>,
) -> (r: Result<(), SellableError>)
    requires
        tokens.wf(),
    ensures
        match r {
            Ok(_) => batch_error(*tokens, *redeemable, caller@, items@) is None && (forall|j: int|
                0 <= j < items@.len() ==> valid_listing(
                    *tokens,
                    *redeemable,
                    caller@,
                    #[trigger] items@[j],
                )),
            Err(e) => batch_error(*tokens, *redeemable, caller@, items@) == Some(e),
        },
{
    let mut i: usize = 0;
    while i < items.len()
        invariant
            0 <= i <= items@.len(),
            tokens.wf(),
            forall|j: int|
                0 <= j < i ==> valid_listing(*tokens, *redeemable, caller@, #[trigger] items@[j]),
        decreases items@.len() - i,
    {
        match check_one_listing(tokens, redeemable, caller, &items[i]) {
            Ok(_) => {},
            Err(e) => {
                proof {
                    lemma_batch_error_at(*tokens, *redeemable, caller@, items@, i as int);
                }
                return Err(e);
            },
        }
        i = i + 1;
    }
    proof {
        lemma_batch_error_none(*tokens, *redeemable, caller@, items@);
    }
    Ok(())
}

/// Checks a whole batch of initial listings, yielding the first invalid
/// item's error.
fn check_all_initial<X>(tokens: &Tokens<X>, redeemable: &Redeemable, items: &Vec<Listing>) -> (r:
    Result<(), SellableError>)
    requires
        tokens.wf(),
    ensures
        match r {
            Ok(_) => initial_batch_error(*tokens, *redeemable, items@) is None && (forall|j: int|
                0 <= j < items@.len() ==> valid_initial_listing(
                    *tokens,
                    *redeemable,
                    #[trigger] items@[j],
                )),
            Err(e) => initial_batch_error(*tokens, *redeemable, items@) == Some(e),
        },
{
    let mut i: usize = 0;
    while i < items.len()
        invariant
            0 <= i <= items@.len(),
            tokens.wf(),
            forall|j: int|
                0 <= j < i ==> valid_initial_listing(*tokens, *redeemable, #[trigger] items@[j]),
        decreases items@.len() - i,
    {
        match check_initial_listing(tokens, redeemable, &items[i]) {
            Ok(_) => {},
            Err(e) => {
                proof {
                    lemma_initial_batch_error_at(*tokens, *redeemable, items@, i as int);
                }
                return Err(e);
            },
        }
        i = i + 1;
    }
    proof {
        lemma_initial_batch_error_none(*tokens, *redeemable, items@);
    }
    Ok(())
}

/// Whether this listing may stand at instantiation: the token exists, is not
/// redeemed, and the price is a positive amount.
pub open spec fn valid_initial_listing<X>(
    tokens: Tokens<X>,
    redeemable: Redeemable,
    item: Listing,
) -> bool {
    &&& tokens.has_id(item.token_id@)
    &&& !redeemable.contains(item.token_id@)
    &&& item.price.amount > 0
}

/// The error an invalid initial listing draws, by the first failing check.
pub open spec fn initial_listing_error<X>(
    tokens: Tokens<X>,
    redeemable: Redeemable,
    item: Listing,
) -> SellableError {
    if !tokens.has_id(item.token_id@) {
        SellableError::NotFound
    } else if redeemable.contains(item.token_id@) {
        SellableError::Conflict
    } else {
        SellableError::InvalidInput
    }
}

/// The error the first invalid initial listing draws, if any.
pub open spec fn initial_batch_error<X>(
    tokens: Tokens<X>,
    redeemable: Redeemable,
    items: Seq<Listing>,
) -> Option<SellableError>
    decreases items.len(),
{
    if items.len() == 0 {
        None
    } else if !valid_initial_listing(tokens, redeemable, items[0]) {
        Some(initial_listing_error(tokens, redeemable, items[0]))
    } else {
        initial_batch_error(tokens, redeemable, items.drop_first())
    }
}

/// Checks one initial listing, yielding the error of the first failing
/// check.
fn check_initial_listing<X>(tokens: &Tokens<X>, redeemable: &Redeemable, item: &Listing) -> (r:
    Result<(), SellableError>)
    requires
        tokens.wf(),
    ensures
        match r {
            Ok(_) => valid_initial_listing(*tokens, *redeemable, *item),
            Err(e) => !valid_initial_listing(*tokens, *redeemable, *item) && e
                == initial_listing_error(*tokens, *redeemable, *item),
        },
{
    if !tokens.has_token(&item.token_id) {
        return Err(SellableError::NotFound);
    }
    if redeemable.is_redeemed(&item.token_id) {
        return Err(SellableError::Conflict);
    }
    if item.price.amount == 0 {
        return Err(SellableError::InvalidInput);
    }
    Ok(())
}

/// When every initial item up to `i` is valid and item `i` is not, the batch
/// draws item `i`'s error.
proof fn lemma_initial_batch_error_at<X>(
    tokens: Tokens<X>,
    redeemable: Redeemable,
    items: Seq<Listing>,
    i: int,
)
    requires
        0 <= i < items.len(),
        forall|k: int| 0 <= k < i ==> valid_initial_listing(tokens, redeemable, #[trigger] items[k]),
        !valid_initial_listing(tokens, redeemable, items[i]),
    ensures
        initial_batch_error(tokens, redeemable, items) == Some(
            initial_listing_error(tokens, redeemable, items[i]),
        ),
    decreases i,
{
    if i == 0 {
    } else {
        assert(valid_initial_listing(tokens, redeemable, items[0]));
        assert(items.drop_first()[i - 1] == items[i]);
        lemma_initial_batch_error_at(tokens, redeemable, items.drop_first(), i - 1);
    }
}

/// When every initial item is valid, the batch draws no error.
proof fn lemma_initial_batch_error_none<X>(
    tokens: Tokens<X>,
    redeemable: Redeemable,
    items: Seq<Listing>,
)
    requires
        forall|k: int|
            0 <= k < items.len() ==> valid_initial_listing(tokens, redeemable, #[trigger] items[k]),
    ensures
        initial_batch_error(tokens, redeemable, items) is None,
    decreases items.len(),
{
    if items.len() > 0 {
        lemma_initial_batch_error_none(tokens, redeemable, items.drop_first());
    }
}

} // verus!
