//! Time-boxed, supply-bounded primary sale campaigns, layered over the token
//! ledger. Campaigns are an append-only log: a campaign is live while the
//! current time lies in its window and it has not been halted; supply
//! exhaustion and window expiry end a sale implicitly, halting ends it
//! explicitly while the history record is retained.

use vstd::prelude::*;
use crate::types::{Coin, Env, MessageInfo, lemma_cloned_coin, spec_payment_covers_all,
    payment_covers_all};
use crate::response::{OutMsg, Response, TransferMsg};
use crate::ownable::Ownable;
use crate::token::{MintMsg, Tokens, mint_ok};

verus! {

/// One primary sale campaign record.
#[derive(Debug, PartialEq, Eq)]
pub struct PrimarySale {
    pub total_supply: u64,
    pub tokens_minted: u64,
    pub start_time: u64,
    pub end_time: u64,
    pub price: Vec<Coin>,
    pub disabled: bool,
}

/// The mathematical shape of a campaign record.
pub struct SaleView {
    pub total_supply: u64,
    pub tokens_minted: u64,
    pub start_time: u64,
    pub end_time: u64,
    pub price: Seq<Coin>,
    pub disabled: bool,
}

impl View for PrimarySale {
    type V = SaleView;

    open spec fn view(&self) -> SaleView {
        SaleView {
            total_supply: self.total_supply,
            tokens_minted: self.tokens_minted,
            start_time: self.start_time,
            end_time: self.end_time,
            price: self.price@,
            disabled: self.disabled,
        }
    }
}

impl Clone for PrimarySale {
    fn clone(&self) -> (r: Self)
        ensures
            r@ == self@,
    {
        let price = self.price.clone();
        proof {
            assert forall|k: int| 0 <= k < price@.len() implies price@[k] == self.price@[k] by {
                lemma_cloned_coin(self.price@[k], price@[k]);
            }
            assert(price@ =~= self.price@);
        }
        PrimarySale {
            total_supply: self.total_supply,
            tokens_minted: self.tokens_minted,
            start_time: self.start_time,
            end_time: self.end_time,
            price,
            disabled: self.disabled,
        }
    }
}

/// Any clone of a campaign record has the same view, because
/// `PrimarySale::clone` promises exactly that.
pub proof fn lemma_cloned_sale(a: PrimarySale, b: PrimarySale)
    requires
        cloned(a, b),
    ensures
        a@ == b@,
{
}

pub struct InstantiateMsg {}

/// The payload of `PrimarySale`: a new campaign.
pub struct CreatePrimarySale {
    pub total_supply: u64,
    pub start_time: u64,
    pub end_time: u64,
    pub price: Vec<Coin>,
}

pub enum ExecuteMsg<X> {
    PrimarySale(CreatePrimarySale),
    BuyItem(MintMsg<X>),
    HaltSale,
}

pub enum QueryMsg {
    PrimarySales,
    ActivePrimarySale,
}

#[derive(Debug, PartialEq, Eq)]
pub enum QueryResp {
    PrimarySales(Vec<PrimarySale>),
    ActivePrimarySale(Option<PrimarySale>),
}

#[derive(Debug, PartialEq, Eq)]
pub enum SalesError {
    Unauthorized,
    NotFound,
    Conflict,
    InvalidInput,
}

/// Whether the campaign's window covers `now` and it has not been halted.
pub open spec fn window_live(s: SaleView, now: u64) -> bool {
    s.start_time <= now && now < s.end_time && !s.disabled
}

/// Whether any campaign of `sales` is window-live at `now`.
pub open spec fn any_live(sales: Seq<SaleView>, now: u64) -> bool {
    exists|i: int| 0 <= i < sales.len() && window_live(sales[i], now)
}

/// Whether `i` is the first window-live campaign of `sales` at `now`.
pub open spec fn is_first_live(sales: Seq<SaleView>, now: u64, i: int) -> bool {
    &&& 0 <= i < sales.len()
    &&& window_live(sales[i], now)
    &&& forall|k: int| 0 <= k < i ==> !window_live(#[trigger] sales[k], now)
}

/// The position of the first window-live campaign (meaningful under
/// `any_live`).
pub open spec fn first_live(sales: Seq<SaleView>, now: u64) -> int {
    choose|i: int| is_first_live(sales, now, i)
}

/// A window-live campaign exists exactly when a first one does.
pub proof fn lemma_any_live_first(sales: Seq<SaleView>, now: u64)
    requires
        any_live(sales, now),
    ensures
        is_first_live(sales, now, first_live(sales, now)),
{
    let w = choose|i: int| 0 <= i < sales.len() && window_live(sales[i], now);
    lemma_first_live_below(sales, now, w);
}

/// Below any window-live position there is a first window-live position.
proof fn lemma_first_live_below(sales: Seq<SaleView>, now: u64, w: int)
    requires
        0 <= w < sales.len(),
        window_live(sales[w], now),
    ensures
        is_first_live(sales, now, first_live(sales, now)),
    decreases w,
{
    if exists|k: int| 0 <= k < w && window_live(#[trigger] sales[k], now) {
        let k = choose|k: int| 0 <= k < w && window_live(#[trigger] sales[k], now);
        lemma_first_live_below(sales, now, k);
    } else {
        assert(is_first_live(sales, now, w));
        let f = first_live(sales, now);
        assert(is_first_live(sales, now, f));
    }
}

/// Whether a new-campaign payload is well-formed: positive supply, a
/// non-empty window, and a price list of positive amounts.
pub open spec fn valid_sale_msg(total_supply: u64, start_time: u64, end_time: u64, price: Seq<
    Coin,
>) -> bool {
    &&& total_supply > 0
    &&& start_time < end_time
    &&& price.len() > 0
    &&& forall|k: int| 0 <= k < price.len() ==> (#[trigger] price[k]).amount > 0
}

/// The sales module's state: every campaign ever created, in creation order.
pub struct Sales {
    pub primary_sales: Vec<PrimarySale>,
}

impl Sales {
    /// The campaigns as mathematical records, in creation order.
    pub open spec fn sales_view(self) -> Seq<SaleView> {
        self.primary_sales@.map_values(|s: PrimarySale| s@)
    }
}

impl Default for Sales {
    /// A sales module with no campaign history.
    fn default() -> (s: Self)
        ensures
            s.sales_view() =~= Seq::<SaleView>::empty(),
    {
        Sales { primary_sales: Vec::new() }
    }
}

impl Sales {
    /// Starts with an empty campaign log. Always succeeds with an empty
    /// response.
    pub fn instantiate(&mut self, _env: &Env, _info: &MessageInfo, _msg: InstantiateMsg) -> (r:
        Result<Response, SalesError>)
        ensures
            match r {
                Ok(resp) => final(self).sales_view() == Seq::<SaleView>::empty()
                    && resp.is_empty(),
                Err(_) => false,
            },
    {
        self.primary_sales = Vec::new();
        proof {
            assert(self.sales_view() =~= Seq::<SaleView>::empty());
        }
        Ok(Response::new())
    }

    /// The position of the first window-live campaign, if any.
    fn find_live(&self, now: u64) -> (r: Option<usize>)
        ensures
            match r {
                Some(i) => is_first_live(self.sales_view(), now, i as int) && i as int
                    == first_live(self.sales_view(), now),
                None => !any_live(self.sales_view(), now),
            },
    {
        let ghost sv = self.sales_view();
        let n = self.primary_sales.len();
        let mut i: usize = 0;
        while i < n
            invariant
                0 <= i <= n,
                n == self.primary_sales@.len(),
                sv == self.sales_view(),
                forall|k: int| 0 <= k < i ==> !window_live(#[trigger] sv[k], now),
            decreases n - i,
        {
            let s = &self.primary_sales[i];
            if s.start_time <= now && now < s.end_time && !s.disabled {
                proof {
                    assert(window_live(sv[i as int], now));
                    assert(is_first_live(sv, now, i as int));
                    let f = first_live(sv, now);
                    assert(is_first_live(sv, now, f));
                    assert(f == i as int);
                }
                return Some(i);
            }
            i = i + 1;
        }
        None
    }

    /// Appends a new campaign on behalf of `caller`, who must be the owner.
    /// Fails with `InvalidInput` for a malformed payload and with `Conflict`
    /// while another campaign's window covers `now` and is not halted — the
    /// single-active-sale guard, which consults the whole history. On
    /// failure the state is unchanged.
    pub fn create_sale(
        &mut self,
        ownable: &Ownable,
        env: &Env,
        info: &MessageInfo,
        msg: CreatePrimarySale,
    ) -> (r: Result<Response, SalesError>)
        ensures
            match r {
                Ok(resp) => {
                    &&& info.sender@ == ownable.owner@
                    &&& valid_sale_msg(msg.total_supply, msg.start_time, msg.end_time, msg.price@)
                    &&& !any_live(old(self).sales_view(), env.time)
                    &&& final(self).sales_view() == old(self).sales_view().push(
                        (SaleView {
                            total_supply: msg.total_supply,
                            tokens_minted: 0,
                            start_time: msg.start_time,
                            end_time: msg.end_time,
                            price: msg.price@,
                            disabled: false,
                        }),
                    )
                    &&& resp.is_empty()
                },
                Err(e) => *final(self) == *old(self) && (match e {
                    SalesError::Unauthorized => info.sender@ != ownable.owner@,
                    SalesError::InvalidInput => info.sender@ == ownable.owner@ && !valid_sale_msg(
                        msg.total_supply,
                        msg.start_time,
                        msg.end_time,
                        msg.price@,
                    ),
                    SalesError::Conflict => info.sender@ == ownable.owner@ && valid_sale_msg(
                        msg.total_supply,
                        msg.start_time,
                        msg.end_time,
                        msg.price@,
                    ) && any_live(old(self).sales_view(), env.time),
                    SalesError::NotFound => false,
                }),
            },
    {
        if !ownable.is_owner(&info.sender) {
            return Err(SalesError::Unauthorized);
        }
        if msg.total_supply == 0 || msg.end_time <= msg.start_time || msg.price.len() == 0 {
            return Err(SalesError::InvalidInput);
        }
        let mut k: usize = 0;
        while k < msg.price.len()
            invariant
                0 <= k <= msg.price@.len(),
                *self == *old(self),
                info.sender@ == ownable.owner@,
                msg.total_supply > 0,
                msg.start_time < msg.end_time,
                msg.price@.len() > 0,
                forall|j: int| 0 <= j < k ==> (#[trigger] msg.price@[j]).amount > 0,
            decreases msg.price@.len() - k,
        {
            if msg.price[k].amount == 0 {
                return Err(SalesError::InvalidInput);
            }
            k = k + 1;
        }
        if self.find_live(env.time).is_some() {
            return Err(SalesError::Conflict);
        }
        let ghost pre = self.sales_view();
        let sale = PrimarySale {
            total_supply: msg.total_supply,
            tokens_minted: 0,
            start_time: msg.start_time,
            end_time: msg.end_time,
            price: msg.price,
            disabled: false,
        };
        self.primary_sales.push(sale);
        proof {
            assert(self.sales_view() =~= pre.push(sale@));
        }
        Ok(Response::new())
    }

    /// Buys one item of the campaign whose window covers `now`: increments
    /// its minted count, mints the token of `payload`, and emits one
    /// transfer instruction per price coin paying the owner. Fails with
    /// `NotFound` while no campaign is window-live, `Conflict` when the live
    /// campaign's supply is exhausted or the token id already exists, and
    /// `InvalidInput` when the funds do not cover the price; on failure
    /// nothing changes.
    pub fn buy_item<X>(
        &mut self,
        tokens: &mut Tokens<X>,
        ownable: &Ownable,
        env: &Env,
        info: &MessageInfo,
        payload: MintMsg<X>,
    ) -> (r: Result<Response, SalesError>)
        requires
            old(tokens).wf(),
        ensures
            final(tokens).wf(),
            match r {
                Ok(resp) => {
                    let sv = old(self).sales_view();
                    let i = first_live(sv, env.time);
                    &&& any_live(sv, env.time)
                    &&& sv[i].tokens_minted < sv[i].total_supply
                    &&& spec_payment_covers_all(info.funds@, sv[i].price)
                    &&& !old(tokens).has_id(payload.token_id@)
                    &&& final(self).sales_view() == sv.update(
                        i,
                        (SaleView {
                            total_supply: sv[i].total_supply,
                            tokens_minted: (sv[i].tokens_minted + 1) as u64,
                            start_time: sv[i].start_time,
                            end_time: sv[i].end_time,
                            price: sv[i].price,
                            disabled: sv[i].disabled,
                        }),
                    )
                    &&& mint_ok(
                        *old(tokens),
                        *final(tokens),
                        payload.token_id,
                        payload.owner,
                        payload.token_uri,
                        payload.extension,
                    )
                    &&& resp.attributes@.len() == 0
                    &&& resp.events@.len() == 0
                    &&& resp.messages@.len() == sv[i].price.len()
                    &&& (forall|k: int|
                        0 <= k < sv[i].price.len() ==> resp.messages@[k] == OutMsg::Transfer(
                            (TransferMsg { recipient: ownable.owner, amount: sv[i].price[k] }),
                        ))
                },
                Err(e) => *final(self) == *old(self) && *final(tokens) == *old(tokens) && {
                    let sv = old(self).sales_view();
                    let i = first_live(sv, env.time);
                    match e {
                        SalesError::NotFound => !any_live(sv, env.time),
                        SalesError::Conflict => any_live(sv, env.time) && (sv[i].tokens_minted
                            >= sv[i].total_supply || (spec_payment_covers_all(
                            info.funds@,
                            sv[i].price,
                        ) && old(tokens).has_id(payload.token_id@))),
                        SalesError::InvalidInput => any_live(sv, env.time) && sv[i].tokens_minted
                            < sv[i].total_supply && !spec_payment_covers_all(
                            info.funds@,
                            sv[i].price,
                        ),
                        SalesError::Unauthorized => false,
                    }
                },
            },
    {
        let ghost sv = self.sales_view();
        let at = match self.find_live(env.time) {
            Some(i) => i,
            None => {
                return Err(SalesError::NotFound);
            },
        };
        if self.primary_sales[at].tokens_minted >= self.primary_sales[at].total_supply {
            return Err(SalesError::Conflict);
        }
        if !payment_covers_all(&info.funds, &self.primary_sales[at].price) {
            return Err(SalesError::InvalidInput);
        }
        if tokens.has_token(&payload.token_id) {
            return Err(SalesError::Conflict);
        }
        // pay the proceeds to the owner, one instruction per price coin
        let mut messages: Vec<OutMsg> = Vec::new();
        let price_len = self.primary_sales[at].price.len();
        let mut k: usize = 0;
        while k < price_len
            invariant
                0 <= k <= price_len,
                at < self.primary_sales@.len(),
                price_len == self.primary_sales@[at as int].price@.len(),
                *self == *old(self),
                messages@.len() == k,
                forall|j: int|
                    0 <= j < k ==> messages@[j] == OutMsg::Transfer(
                        (TransferMsg {
                            recipient: ownable.owner,
                            amount: self.primary_sales@[at as int].price@[j],
                        }),
                    ),
            decreases price_len - k,
        {
            let amount = self.primary_sales[at].price[k].clone();
            let recipient = ownable.get_owner().clone();
            messages.push(OutMsg::Transfer(TransferMsg { recipient, amount }));
            k = k + 1;
        }
        // record the purchase against the campaign's supply
        let mut sale = self.primary_sales.remove(at);
        sale.tokens_minted = sale.tokens_minted + 1;
        self.primary_sales.insert(at, sale);
        proof {
            assert(self.primary_sales@ =~= old(self).primary_sales@.update(
                at as int,
                self.primary_sales@[at as int],
            ));
            assert(self.sales_view() =~= sv.update(at as int, self.sales_view()[at as int]));
        }
        // mint the purchased token
        match tokens.mint(payload.token_id, payload.owner, payload.token_uri, payload.extension) {
            Ok(_) => {},
            Err(_) => {
                // unreachable: the id was shown to be fresh
                proof {
                    assert(false);
                }
                return Err(SalesError::Conflict);
            },
        }
        Ok(Response { attributes: Vec::new(), events: Vec::new(), messages })
    }

    /// Halts every campaign whose window covers `now`, on behalf of
    /// `caller`, who must be the owner: no campaign is window-live
    /// afterwards, while the history records are retained. On failure the
    /// state is unchanged.
    pub fn halt_sale(&mut self, ownable: &Ownable, env: &Env, info: &MessageInfo) -> (r: Result<
        Response,
        SalesError,
    >)
        ensures
            match r {
                Ok(resp) => {
                    let sv = old(self).sales_view();
                    &&& info.sender@ == ownable.owner@
                    &&& final(self).sales_view().len() == sv.len()
                    &&& (forall|i: int|
                        0 <= i < sv.len() ==> final(self).sales_view()[i] == (if window_live(
                            sv[i],
                            env.time,
                        ) {
                            SaleView {
                                total_supply: sv[i].total_supply,
                                tokens_minted: sv[i].tokens_minted,
                                start_time: sv[i].start_time,
                                end_time: sv[i].end_time,
                                price: sv[i].price,
                                disabled: true,
                            }
                        } else {
                            sv[i]
                        }))
                    &&& !any_live(final(self).sales_view(), env.time)
                    &&& resp.is_empty()
                },
                Err(e) => *final(self) == *old(self) && e == SalesError::Unauthorized
                    && info.sender@ != ownable.owner@,
            },
    {
        if !ownable.is_owner(&info.sender) {
            return Err(SalesError::Unauthorized);
        }
        let ghost sv = self.sales_view();
        let n = self.primary_sales.len();
        let mut i: usize = 0;
        while i < n
            invariant
                0 <= i <= n,
                n == self.primary_sales@.len(),
                sv == old(self).sales_view(),
                sv.len() == n,
                forall|k: int|
                    i <= k < n ==> #[trigger] self.sales_view()[k] == sv[k],
                forall|k: int|
                    0 <= k < i ==> #[trigger] self.sales_view()[k] == (if window_live(
                        sv[k],
                        env.time,
                    ) {
                        SaleView {
                            total_supply: sv[k].total_supply,
                            tokens_minted: sv[k].tokens_minted,
                            start_time: sv[k].start_time,
                            end_time: sv[k].end_time,
                            price: sv[k].price,
                            disabled: true,
                        }
                    } else {
                        sv[k]
                    }),
            decreases n - i,
        {
            let ghost entry: Seq<PrimarySale> = self.primary_sales@;
            let ghost entry_view: Seq<SaleView> = self.sales_view();
            proof {
                assert(entry_view[i as int] == sv[i as int]);
                assert(entry_view[i as int] == entry[i as int]@);
            }
            let live = {
                let s = &self.primary_sales[i];
                s.start_time <= env.time && env.time < s.end_time && !s.disabled
            };
            proof {
                assert(live == window_live(sv[i as int], env.time));
            }
            if live {
                let mut sale = self.primary_sales.remove(i);
                sale.disabled = true;
                self.primary_sales.insert(i, sale);
                proof {
                    assert(self.primary_sales@ =~= entry.update(
                        i as int,
                        self.primary_sales@[i as int],
                    ));
                    assert(sale@ == (SaleView {
                        total_supply: sv[i as int].total_supply,
                        tokens_minted: sv[i as int].tokens_minted,
                        start_time: sv[i as int].start_time,
                        end_time: sv[i as int].end_time,
                        price: sv[i as int].price,
                        disabled: true,
                    }));
                    assert(self.sales_view()[i as int] == sale@);
                }
            }
            proof {
                assert forall|k2: int| 0 <= k2 < n && k2 != i as int implies #[trigger] self.sales_view()[k2]
                    == entry_view[k2] by {
                    assert(self.primary_sales@[k2] == entry[k2]);
                    assert(entry_view[k2] == entry[k2]@);
                    assert(self.sales_view()[k2] == self.primary_sales@[k2]@);
                }
                assert forall|k2: int| i + 1 <= k2 < n implies #[trigger] self.sales_view()[k2]
                    == sv[k2] by {
                    assert(entry_view[k2] == sv[k2]);
                }
                assert forall|k2: int| 0 <= k2 < i + 1 implies #[trigger] self.sales_view()[k2]
                    == (if window_live(sv[k2], env.time) {
                    SaleView {
                        total_supply: sv[k2].total_supply,
                        tokens_minted: sv[k2].tokens_minted,
                        start_time: sv[k2].start_time,
                        end_time: sv[k2].end_time,
                        price: sv[k2].price,
                        disabled: true,
                    }
                } else {
                    sv[k2]
                }) by {
                    if k2 < i as int {
                        assert(self.sales_view()[k2] == entry_view[k2]);
                    }
                }
            }
            i = i + 1;
        }
        proof {
            assert forall|k: int|
                0 <= k < self.sales_view().len() implies !window_live(
                #[trigger] self.sales_view()[k],
                env.time,
            ) by {
                if window_live(sv[k], env.time) {
                    assert(self.sales_view()[k].disabled);
                }
            }
        }
        Ok(Response::new())
    }

    /// Every campaign ever created, in creation order.
    pub fn primary_sales(&self) -> (r: Vec<PrimarySale>)
        ensures
            r@.map_values(|s: PrimarySale| s@) == self.sales_view(),
    {
        let r = self.primary_sales.clone();
        proof {
            assert forall|k: int| 0 <= k < r@.len() implies r@[k]@ == self.primary_sales@[k]@ by {
                lemma_cloned_sale(self.primary_sales@[k], r@[k]);
            }
            assert(r@.map_values(|s: PrimarySale| s@) =~= self.sales_view());
        }
        r
    }

    /// What `active_primary_sale` answers: the first window-live campaign,
    /// as long as its supply is not exhausted.
    pub open spec fn spec_active(self, now: u64) -> Option<SaleView> {
        let sv = self.sales_view();
        if any_live(sv, now) && sv[first_live(sv, now)].tokens_minted < sv[first_live(
            sv,
            now,
        )].total_supply {
            Some(sv[first_live(sv, now)])
        } else {
            None
        }
    }

    /// The campaign a buyer could currently buy from, if any: supply
    /// exhaustion, window expiry and halting all end a sale.
    pub fn active_primary_sale(&self, now: u64) -> (r: Option<PrimarySale>)
        ensures
            match r {
                Some(s) => self.spec_active(now) == Some(s@),
                None => self.spec_active(now) is None,
            },
    {
        match self.find_live(now) {
            Some(i) => {
                let s = &self.primary_sales[i];
                if s.tokens_minted < s.total_supply {
                    let c = s.clone();
                    proof {
                        lemma_cloned_sale(*s, c);
                    }
                    Some(c)
                } else {
                    None
                }
            },
            None => None,
        }
    }

    /// Routes an execute message: `PrimarySale` creates a campaign,
    /// `BuyItem` buys from the live one, `HaltSale` ends whatever is live.
    pub fn execute<X>(
        &mut self,
        tokens: &mut Tokens<X>,
        ownable: &Ownable,
        env: &Env,
        info: &MessageInfo,
        msg: ExecuteMsg<X>,
    ) -> (r: Result<Response, SalesError>)
        requires
            old(tokens).wf(),
        ensures
            final(tokens).wf(),
            match msg {
                ExecuteMsg::PrimarySale(m) => *final(tokens) == *old(tokens) && (match r {
                    Ok(resp) => {
                        &&& info.sender@ == ownable.owner@
                        &&& valid_sale_msg(m.total_supply, m.start_time, m.end_time, m.price@)
                        &&& !any_live(old(self).sales_view(), env.time)
                        &&& final(self).sales_view() == old(self).sales_view().push(
                            (SaleView {
                                total_supply: m.total_supply,
                                tokens_minted: 0,
                                start_time: m.start_time,
                                end_time: m.end_time,
                                price: m.price@,
                                disabled: false,
                            }),
                        )
                        &&& resp.is_empty()
                    },
                    Err(e) => *final(self) == *old(self) && (match e {
                        SalesError::Unauthorized => info.sender@ != ownable.owner@,
                        SalesError::InvalidInput => info.sender@ == ownable.owner@
                            && !valid_sale_msg(m.total_supply, m.start_time, m.end_time, m.price@),
                        SalesError::Conflict => info.sender@ == ownable.owner@ && valid_sale_msg(
                            m.total_supply,
                            m.start_time,
                            m.end_time,
                            m.price@,
                        ) && any_live(old(self).sales_view(), env.time),
                        SalesError::NotFound => false,
                    }),
                }),
                ExecuteMsg::BuyItem(payload) => match r {
                    Ok(resp) => {
                        let sv = old(self).sales_view();
                        let i = first_live(sv, env.time);
                        &&& any_live(sv, env.time)
                        &&& sv[i].tokens_minted < sv[i].total_supply
                        &&& spec_payment_covers_all(info.funds@, sv[i].price)
                        &&& !old(tokens).has_id(payload.token_id@)
                        &&& final(self).sales_view() == sv.update(
                            i,
                            (SaleView {
                                total_supply: sv[i].total_supply,
                                tokens_minted: (sv[i].tokens_minted + 1) as u64,
                                start_time: sv[i].start_time,
                                end_time: sv[i].end_time,
                                price: sv[i].price,
                                disabled: sv[i].disabled,
                            }),
                        )
                        &&& mint_ok(
                            *old(tokens),
                            *final(tokens),
                            payload.token_id,
                            payload.owner,
                            payload.token_uri,
                            payload.extension,
                        )
                        &&& resp.attributes@.len() == 0
                        &&& resp.events@.len() == 0
                        &&& resp.messages@.len() == sv[i].price.len()
                        &&& (forall|k: int|
                            0 <= k < sv[i].price.len() ==> resp.messages@[k] == OutMsg::Transfer(
                                (TransferMsg { recipient: ownable.owner, amount: sv[i].price[k] }),
                            ))
                    },
                    Err(e) => *final(self) == *old(self) && *final(tokens) == *old(tokens) && {
                        let sv = old(self).sales_view();
                        let i = first_live(sv, env.time);
                        match e {
                            SalesError::NotFound => !any_live(sv, env.time),
                            SalesError::Conflict => any_live(sv, env.time) && (sv[i].tokens_minted
                                >= sv[i].total_supply || (spec_payment_covers_all(
                                info.funds@,
                                sv[i].price,
                            ) && old(tokens).has_id(payload.token_id@))),
                            SalesError::InvalidInput => any_live(sv, env.time)
                                && sv[i].tokens_minted < sv[i].total_supply
                                && !spec_payment_covers_all(info.funds@, sv[i].price),
                            SalesError::Unauthorized => false,
                        }
                    },
                },
                ExecuteMsg::HaltSale => *final(tokens) == *old(tokens) && (match r {
                    Ok(resp) => {
                        let sv = old(self).sales_view();
                        &&& info.sender@ == ownable.owner@
                        &&& final(self).sales_view().len() == sv.len()
                        &&& (forall|i: int|
                            0 <= i < sv.len() ==> final(self).sales_view()[i] == (if window_live(
                                sv[i],
                                env.time,
                            ) {
                                SaleView {
                                    total_supply: sv[i].total_supply,
                                    tokens_minted: sv[i].tokens_minted,
                                    start_time: sv[i].start_time,
                                    end_time: sv[i].end_time,
                                    price: sv[i].price,
                                    disabled: true,
                                }
                            } else {
                                sv[i]
                            }))
                        &&& !any_live(final(self).sales_view(), env.time)
                        &&& resp.is_empty()
                    },
                    Err(e) => *final(self) == *old(self) && e == SalesError::Unauthorized
                        && info.sender@ != ownable.owner@,
                }),
            },
    {
        match msg {
            ExecuteMsg::PrimarySale(m) => self.create_sale(ownable, env, info, m),
            ExecuteMsg::BuyItem(payload) => self.buy_item(tokens, ownable, env, info, payload),
            ExecuteMsg::HaltSale => self.halt_sale(ownable, env, info),
        }
    }

    /// Routes a query message; read-only.
    pub fn query(&self, env: &Env, msg: QueryMsg) -> (r: Result<QueryResp, SalesError>)
        ensures
            match msg {
                QueryMsg::PrimarySales => (match r {
                    Ok(resp) => (match resp {
                        QueryResp::PrimarySales(ss) => ss@.map_values(|s: PrimarySale| s@)
                            == self.sales_view(),
                        _ => false,
                    }),
                    Err(_) => false,
                }),
                QueryMsg::ActivePrimarySale => (match r {
                    Ok(resp) => (match resp {
                        QueryResp::ActivePrimarySale(o) => (match o {
                            Some(s) => self.spec_active(env.time) == Some(s@),
                            None => self.spec_active(env.time) is None,
                        }),
                        _ => false,
                    }),
                    Err(_) => false,
                }),
            },
    {
        match msg {
            QueryMsg::PrimarySales => Ok(QueryResp::PrimarySales(self.primary_sales())),
            QueryMsg::ActivePrimarySale => Ok(
                QueryResp::ActivePrimarySale(self.active_primary_sale(env.time)),
            ),
        }
    }
}

} // verus!
