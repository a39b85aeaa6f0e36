//! Cross-module laws of the marketplace, each proved from the transition
//! predicates the modules' contracts are stated over.

use vstd::prelude::*;
use crate::types::Coin;
use crate::token::{Tokens, mint_ok, transfer_ok};
use crate::redeemable::{Redeemable, redeem_ok};
use crate::sellable::{Listing, Sellable, seq_upsert, valid_listing};
use crate::sales::{Sales, any_live, first_live};

verus! {

/// A mint is observable exactly once: after a successful mint, the full
/// enumeration is the ledger's id sequence, and the minted id occurs in it
/// at exactly one position. (That minting a duplicate id fails with a
/// conflict is the `mint` contract itself.)
pub proof fn lemma_mint_enumerate_once<X>(
    pre: Tokens<X>,
    post: Tokens<X>,
    token_id: String,
    owner: String,
    token_uri: Option<String>,
    extension: X,
)
    requires
        pre.wf(),
        mint_ok(pre, post, token_id, owner, token_uri, extension),
    ensures
        post.spec_enumerate(None, None, false) == post.id_seq(),
        exists|i: int| 0 <= i < post.id_seq().len() && post.id_seq()[i] == token_id@,
        forall|i: int, j: int|
            0 <= i < post.id_seq().len() && 0 <= j < post.id_seq().len() && post.id_seq()[i]
                == token_id@ && post.id_seq()[j] == token_id@ ==> i == j,
{
    let n = pre.tokens@.len() as int;
    assert forall|k: int| 0 <= k < n implies post.tokens@[k] == pre.tokens@[k] by {
        assert(post.tokens@.take(n)[k] == pre.tokens@[k]);
    }
    // the full enumeration is the id sequence itself
    let tr = post.traversal(false);
    assert(tr.skip(0) =~= tr);
    assert(tr.take(tr.len() as int) =~= tr);
    assert(post.spec_enumerate(None, None, false) == post.id_seq());
    // the minted id stands at the last position
    assert(post.id_seq()[n] == token_id@);
    // and at no other: every earlier id was already there and was distinct
    assert forall|i: int, j: int|
        0 <= i < post.id_seq().len() && 0 <= j < post.id_seq().len() && post.id_seq()[i]
            == token_id@ && post.id_seq()[j] == token_id@ implies i == j by {
        if i < n {
            assert(pre.tokens@[i].id@ == token_id@);
            assert(pre.has_id(token_id@));
        }
        if j < n {
            assert(pre.tokens@[j].id@ == token_id@);
            assert(pre.has_id(token_id@));
        }
    }
}

/// After a successful listing of `token_id` at `price`, every guard of a
/// purchase with covering funds holds: the listing exists at that price, the
/// payment covers it, and the token is not redeemed — so by the `buy`
/// contract the purchase is owed success, removing the listing, transferring
/// ownership to the buyer and paying `price` to the previous owner.
pub proof fn lemma_list_then_buy<X>(
    pre: Sellable,
    post: Sellable,
    tokens: Tokens<X>,
    redeemable: Redeemable,
    caller: Seq<char>,
    token_id: String,
    price: Coin,
    funds: Seq<Coin>,
)
    requires
        pre.wf(),
        valid_listing(tokens, redeemable, caller, (Listing { token_id, price })),
        post.listed_tokens@ == seq_upsert(pre.listed_tokens@, (Listing { token_id, price })),
        crate::types::spec_payment_covers(funds, price),
    ensures
        post.wf(),
        post.has_listing(token_id@),
        post.spec_price(token_id@) == price,
        crate::types::spec_payment_covers(funds, post.spec_price(token_id@)),
        !redeemable.contains(token_id@),
{
    let item = Listing { token_id, price };
    let entries = pre.listed_tokens@;
    if crate::sellable::seq_has_listing(entries, token_id@) {
        let at = crate::sellable::seq_listing_index(entries, token_id@);
        assert(0 <= at < entries.len() && entries[at].token_id@ == token_id@);
        assert(post.listed_tokens@[at] == item);
        assert(post.has_listing(token_id@));
        assert forall|i: int, j: int|
            0 <= i < j < post.listed_tokens@.len() implies post.listed_tokens@[i].token_id@
            != post.listed_tokens@[j].token_id@ by {
            if i != at {
                assert(post.listed_tokens@[i] == entries[i]);
            }
            if j != at {
                assert(post.listed_tokens@[j] == entries[j]);
            }
        }
        let w = post.listing_index(token_id@);
        assert(0 <= w < post.listed_tokens@.len() && post.listed_tokens@[w].token_id@
            == token_id@);
        assert(w == at);
    } else {
        let at = entries.len() as int;
        assert(post.listed_tokens@[at] == item);
        assert(post.has_listing(token_id@));
        assert forall|i: int, j: int|
            0 <= i < j < post.listed_tokens@.len() implies post.listed_tokens@[i].token_id@
            != post.listed_tokens@[j].token_id@ by {
            if j < at {
                assert(post.listed_tokens@[i] == entries[i]);
                assert(post.listed_tokens@[j] == entries[j]);
            } else {
                assert(post.listed_tokens@[j] == item);
                if i < at {
                    assert(post.listed_tokens@[i] == entries[i]);
                    assert(!crate::sellable::seq_has_listing(entries, token_id@));
                }
            }
        }
        let w = post.listing_index(token_id@);
        assert(0 <= w < post.listed_tokens@.len() && post.listed_tokens@[w].token_id@
            == token_id@);
        assert(w == at);
    }
}

/// The effects a successful purchase leaves behind: the listing for the
/// bought token is gone and the buyer owns it.
pub proof fn lemma_buy_effects<X>(
    sell_pre: Sellable,
    sell_post: Sellable,
    tok_pre: Tokens<X>,
    tok_post: Tokens<X>,
    token_id: String,
    buyer: String,
)
    requires
        sell_pre.wf(),
        tok_pre.wf(),
        sell_pre.has_listing(token_id@),
        sell_post.listed_tokens@ == sell_pre.listed_tokens@.remove(
            sell_pre.listing_index(token_id@),
        ),
        transfer_ok(tok_pre, tok_post, token_id@, buyer),
    ensures
        !sell_post.has_listing(token_id@),
        tok_post.has_id(token_id@),
        tok_post.spec_token(token_id@).owner == buyer,
{
    let at = sell_pre.listing_index(token_id@);
    assert(0 <= at < sell_pre.listed_tokens@.len() && sell_pre.listed_tokens@[at].token_id@
        == token_id@);
    assert forall|w: int|
        0 <= w < sell_post.listed_tokens@.len() implies sell_post.listed_tokens@[w].token_id@
        != token_id@ by {
        if w < at {
            assert(sell_post.listed_tokens@[w] == sell_pre.listed_tokens@[w]);
        } else {
            assert(sell_post.listed_tokens@[w] == sell_pre.listed_tokens@[w + 1]);
        }
    }
    let t_at = tok_pre.index_of(token_id@);
    assert(0 <= t_at < tok_pre.tokens@.len() && tok_pre.tokens@[t_at].id@ == token_id@);
    assert(tok_post.tokens@[t_at].id@ == token_id@);
    assert(tok_post.has_id(token_id@));
    crate::token::lemma_transfer_same_ids(tok_pre, tok_post, token_id@, buyer);
    let w = tok_post.index_of(token_id@);
    assert(0 <= w < tok_post.tokens@.len() && tok_post.tokens@[w].id@ == token_id@);
    assert forall|k: int| 0 <= k < tok_pre.tokens@.len() implies tok_post.tokens@[k].id@
        == tok_pre.tokens@[k].id@ by {
        if k != t_at {
            assert(tok_post.tokens@[k] == tok_pre.tokens@[k]);
        }
    }
    assert(w == t_at);
}

/// Redemption is one-shot and monotonic: after a successful redemption the
/// id is in the set, nothing ever recorded leaves it, and no later
/// redemption of the same id can succeed — by the `redeem` contract the
/// second call fails with a conflict.
pub proof fn lemma_redeem_once(pre: Redeemable, mid: Redeemable, id: Seq<char>)
    requires
        redeem_ok(pre, mid, id),
    ensures
        mid.contains(id),
        forall|id2: Seq<char>| pre.contains(id2) ==> mid.contains(id2),
        forall|post: Redeemable| !redeem_ok(mid, post, id),
{
    let n = pre.redeemed_items@.len() as int;
    assert(mid.redeemed_items@[n]@ == id);
    assert(mid.contains(id));
    assert forall|id2: Seq<char>| pre.contains(id2) implies mid.contains(id2) by {
        let w = choose|i: int|
            0 <= i < pre.redeemed_items@.len() && pre.redeemed_items@[i]@ == id2;
        assert(mid.redeemed_items@.take(n)[w] == pre.redeemed_items@[w]);
        assert(mid.redeemed_items@[w]@ == id2);
    }
}

/// A redeemed token cannot be newly listed: no listing of it is valid, so by
/// the `list` contract every attempt fails.
pub proof fn lemma_redeemed_not_listable<X>(
    tokens: Tokens<X>,
    redeemable: Redeemable,
    caller: Seq<char>,
    item: Listing,
)
    requires
        redeemable.contains(item.token_id@),
    ensures
        !valid_listing(tokens, redeemable, caller, item),
{
}

/// The single-active-sale invariant, as the creation guard maintains it at
/// the creation time: a campaign accepted while no other was window-live is
/// the only window-live campaign afterwards. (The guard consults only the
/// current time, so two campaigns accepted with disjoint-looking future
/// windows may still overlap later; at their creation times the invariant
/// holds as stated.)
pub proof fn lemma_single_live_after_create(
    pre: Sales,
    post: Sales,
    now: u64,
    created: crate::sales::SaleView,
)
    requires
        !any_live(pre.sales_view(), now),
        post.sales_view() == pre.sales_view().push(created),
    ensures
        forall|i: int, j: int|
            0 <= i < post.sales_view().len() && 0 <= j < post.sales_view().len()
                && crate::sales::window_live(#[trigger] post.sales_view()[i], now)
                && crate::sales::window_live(#[trigger] post.sales_view()[j], now) ==> i == j,
{
    let n = pre.sales_view().len() as int;
    assert forall|i: int|
        0 <= i < n implies !crate::sales::window_live(#[trigger] post.sales_view()[i], now) by {
        assert(post.sales_view()[i] == pre.sales_view()[i]);
    }
}

/// With no window-live campaign there is nothing to buy from: the active
/// campaign query answers nothing. Together with `halt_sale`'s contract,
/// halting makes `active_primary_sale` answer nothing even while the halted
/// campaign's window has not expired.
pub proof fn lemma_no_live_no_active(s: Sales, now: u64)
    requires
        !any_live(s.sales_view(), now),
    ensures
        s.spec_active(now) is None,
{
}

/// Supply exhaustion implicitly ends a sale: when the first window-live
/// campaign has minted its whole supply, the active campaign query answers
/// nothing, and by the `buy_item` contract a further purchase fails.
pub proof fn lemma_exhausted_not_active(s: Sales, now: u64)
    requires
        any_live(s.sales_view(), now),
        s.sales_view()[first_live(s.sales_view(), now)].tokens_minted >= s.sales_view()[first_live(
            s.sales_view(),
            now,
        )].total_supply,
    ensures
        s.spec_active(now) is None,
{
}

} // verus!
