//! The seat contract: ownership, metadata, the token ledger, redemption
//! locking, fixed-price listings and primary sale campaigns, combined by a
//! tagged-message dispatcher over one execution-scoped state. The dispatcher
//! routes each envelope to the addressed module and merges the partial
//! responses, forwarding only financial transfer instructions outward.

use vstd::prelude::*;
use crate::types::{Coin, Env, MessageInfo, clone_opt_string};
use crate::response::{Attribute, Event, OutMsg, Response, TransferMsg, merge_responses,
    spec_transfers, lemma_all_empty, lemma_all_single, lemma_transfers_all};
use crate::ownable::{self, Ownable, OwnableError};
use crate::metadata::{self, Metadata, MetadataError};
use crate::token::{self, Approval, Tokens, TokenError, lemma_cloned_approval};
use crate::redeemable::{self, Redeemable, RedeemableError};
use crate::sellable::{self, Listing, Sellable, SellableError};
use crate::sales::{self, Sales, SalesError};

verus! {

/// The contract-level configuration record.
pub struct Config {
    pub owner: String,
}

/// One benefit a seat grants its holder.
#[derive(Debug, PartialEq, Eq)]
pub struct SeatBenefits {
    pub name: String,
    pub status: String,
}

impl Clone for SeatBenefits {
    fn clone(&self) -> (r: Self)
        ensures
            r == *self,
    {
        SeatBenefits { name: self.name.clone(), status: self.status.clone() }
    }
}

/// Any clone of a benefit equals the original, because `SeatBenefits::clone`
/// promises exactly that.
pub proof fn lemma_cloned_seat_benefits(a: SeatBenefits, b: SeatBenefits)
    requires
        cloned(a, b),
    ensures
        a == b,
{
}

/// Which names the seat's image renders.
#[derive(Debug, PartialEq, Eq)]
pub struct ImageSettings {
    pub seat_name: bool,
    pub hub_name: bool,
}

impl Clone for ImageSettings {
    fn clone(&self) -> (r: Self)
        ensures
            r == *self,
    {
        ImageSettings { seat_name: self.seat_name, hub_name: self.hub_name }
    }
}

/// The seat collection's metadata record.
#[derive(Debug, PartialEq, Eq)]
pub struct SeatMetadata {
    pub name: String,
    pub image_uri: String,
    pub description: String,
    pub benefits: Vec<SeatBenefits>,
    pub template_number: u8,
    pub image_settings: ImageSettings,
    pub hub_contract: String,
}

/// The mathematical shape of the seat collection's metadata record.
pub struct SeatMetadataView {
    pub name: String,
    pub image_uri: String,
    pub description: String,
    pub benefits: Seq<SeatBenefits>,
    pub template_number: u8,
    pub image_settings: ImageSettings,
    pub hub_contract: String,
}

impl View for SeatMetadata {
    type V = SeatMetadataView;

    open spec fn view(&self) -> SeatMetadataView {
        SeatMetadataView {
            name: self.name,
            image_uri: self.image_uri,
            description: self.description,
            benefits: self.benefits@,
            template_number: self.template_number,
            image_settings: self.image_settings,
            hub_contract: self.hub_contract,
        }
    }
}

impl Clone for SeatMetadata {
    fn clone(&self) -> (r: Self)
        ensures
            r@ == self@,
    {
        let benefits = self.benefits.clone();
        proof {
            assert forall|k: int|
                0 <= k < benefits@.len() implies benefits@[k] == self.benefits@[k] by {
                lemma_cloned_seat_benefits(self.benefits@[k], benefits@[k]);
            }
            assert(benefits@ =~= self.benefits@);
        }
        SeatMetadata {
            name: self.name.clone(),
            image_uri: self.image_uri.clone(),
            description: self.description.clone(),
            benefits,
            template_number: self.template_number,
            image_settings: self.image_settings.clone(),
            hub_contract: self.hub_contract.clone(),
        }
    }
}

/// Any clone of the seat metadata has the same view, because
/// `SeatMetadata::clone` promises exactly that.
pub proof fn lemma_cloned_seat_metadata(a: SeatMetadata, b: SeatMetadata)
    requires
        cloned(a, b),
    ensures
        a@ == b@,
{
}

/// The per-token metadata extension.
#[derive(Debug, PartialEq, Eq)]
pub struct TokenMetadata {
    pub description: Option<String>,
    pub name: Option<String>,
    /// How much the minter takes as a cut when sold; royalties are owed on
    /// this token if it is `Some`.
    pub royalty_percentage: Option<u64>,
    /// The payment address, possibly different from the minter's.
    pub royalty_payment_address: Option<String>,
}

impl Clone for TokenMetadata {
    fn clone(&self) -> (r: Self)
        ensures
            r == *self,
    {
        TokenMetadata {
            description: clone_opt_string(&self.description),
            name: clone_opt_string(&self.name),
            royalty_percentage: self.royalty_percentage,
            royalty_payment_address: clone_opt_string(&self.royalty_payment_address),
        }
    }
}

/// One token together with its listing state, as `AllSeats` reports it.
#[derive(Debug, PartialEq, Eq)]
pub struct SeatInfo {
    pub token_id: String,
    pub listed_price: Option<Coin>,
    pub owner: String,
    pub approvals: Vec<Approval>,
    pub token_uri: Option<String>,
    pub extension: TokenMetadata,
}

/// A metadata field the seat can update through a dedicated message.
pub enum MetadataField {
    SeatContract(String),
}

/// A cross-contract instruction the seat can address to its hub.
pub enum ResponseMsg {
    UpdateMetadata(MetadataField),
}

pub struct MigrateMsg {
    pub owner: String,
}

pub struct InstantiateMsg {
    pub ownable: ownable::InstantiateMsg,
    pub metadata: metadata::InstantiateMsg<SeatMetadata>,
    pub seat_token: token::InstantiateMsg,
    pub redeemable: redeemable::InstantiateMsg,
    pub sellable: Option<sellable::InstantiateMsg>,
    pub sales: sales::InstantiateMsg,
    pub hub_contract: String,
}

pub enum ExecuteMsg {
    Ownable(ownable::ExecuteMsg),
    Metadata(metadata::ExecuteMsg<SeatMetadata>),
    SeatToken(token::ExecuteMsg<TokenMetadata>),
    Redeemable(redeemable::ExecuteMsg),
    Sellable(sellable::ExecuteMsg),
    Sales(sales::ExecuteMsg<TokenMetadata>),
}

pub enum QueryMsg {
    Ownable(ownable::QueryMsg),
    Metadata(metadata::QueryMsg),
    SeatToken(token::QueryMsg),
    Redeemable(redeemable::QueryMsg),
    Sellable(sellable::QueryMsg),
    Sales(sales::QueryMsg),
    AllSeats,
}

#[derive(Debug, PartialEq, Eq)]
pub enum QueryResp {
    Ownable(ownable::QueryResp),
    Metadata(metadata::QueryResp<SeatMetadata>),
    SeatToken(token::QueryResp),
    Redeemable(redeemable::QueryResp),
    Sellable(sellable::QueryResp),
    Sales(sales::QueryResp),
    AllSeats(Vec<SeatInfo>),
}

#[derive(Debug, PartialEq, Eq)]
pub enum ContractError {
    OwnableError(OwnableError),
    MetadataError(MetadataError),
    SeatTokenError(TokenError),
    RedeemableError(RedeemableError),
    SellableError(SellableError),
    SalesError(SalesError),
}

/// The seat's modules, owned by one execution-scoped context: the dispatcher
/// passes whichever module runs an exclusive reference into this state, so
/// at most one exclusive borrow of shared module state exists at any
/// instant, checked by the type system.
pub struct SeatModules {
    pub ownable: Ownable,
    pub metadata: Metadata<SeatMetadata>,
    pub seat_token: Tokens<TokenMetadata>,
    pub redeemable: Redeemable,
    pub sellable_token: Sellable,
    pub sales: Sales,
    pub hub_contract: String,
}

impl SeatModules {
    /// Well-formedness across the modules: unique token ids, unique listing
    /// ids, unique redemption entries, and every listing backed by a token.
    pub open spec fn wf(self) -> bool {
        &&& self.seat_token.wf()
        &&& self.redeemable.wf()
        &&& self.sellable_token.wf()
        &&& self.sellable_token.listings_backed(self.seat_token)
    }

    /// A seat before instantiation: every module in its default state.
    pub fn new() -> (s: Self)
        ensures
            s.wf(),
            s.ownable.owner@ == Seq::<char>::empty(),
            s.seat_token.tokens@.len() == 0,
            s.redeemable.redeemed_items@.len() == 0,
            s.sellable_token.listed_tokens@.len() == 0,
            s.sales.sales_view().len() == 0,
    {
        let s = SeatModules {
            ownable: Ownable::default(),
            metadata: Metadata::new(
                SeatMetadata {
                    name: String::new(),
                    image_uri: String::new(),
                    description: String::new(),
                    benefits: Vec::new(),
                    template_number: 0,
                    image_settings: ImageSettings { seat_name: false, hub_name: false },
                    hub_contract: String::new(),
                },
            ),
            seat_token: Tokens::default(),
            redeemable: Redeemable::default(),
            sellable_token: Sellable::default(),
            sales: Sales::default(),
            hub_contract: String::new(),
        };
        proof {
            assert forall|id: Seq<char>| s.sellable_token.has_listing(id) implies s.seat_token.has_id(
                id,
            ) by {}
        }
        s
    }
}

impl Default for SeatModules {
    /// A seat before instantiation.
    fn default() -> (s: Self)
        ensures
            s.wf(),
    {
        SeatModules::new()
    }
}

/// Merges one module's partial response into a fresh outward response:
/// attributes and events are kept, and of the instructions only financial
/// transfers are forwarded.
fn wrap_response(r: Response) -> (out: Response)
    ensures
        out.attributes@ == r.attributes@,
        out.events@ == r.events@,
        out.messages@ == spec_transfers(r.messages@),
{
    let mut main = Response::new();
    let ghost this: Response = r;
    let mut responses: Vec<Response> = Vec::new();
    responses.push(r);
    proof {
        assert(responses@ =~= seq![this]);
        lemma_all_single(this);
    }
    merge_responses(&mut main, responses);
    proof {
        assert(main.attributes@ =~= this.attributes@);
        assert(main.events@ =~= this.events@);
        assert(main.messages@ =~= spec_transfers(this.messages@));
    }
    main
}

impl SeatModules {
    /// Calls each module's `instantiate` in the declared order — ownership,
    /// metadata, token ledger, redemption, sales, listings — and fails the
    /// whole operation if any module fails; a failed instantiation's state
    /// is discarded by the transactional commit model. On success the
    /// response carries the instantiation event naming the hub.
    pub fn instantiate(&mut self, env: &Env, info: &MessageInfo, msg: InstantiateMsg) -> (r: Result<
        Response,
        ContractError,
    >)
        ensures
            match r {
                Ok(resp) => {
                    &&& final(self).wf()
                    &&& final(self).ownable.owner == msg.ownable.owner
                    &&& final(self).metadata.metadata == msg.metadata.metadata
                    &&& final(self).seat_token.name == msg.seat_token.name
                    &&& final(self).seat_token.symbol == msg.seat_token.symbol
                    &&& final(self).seat_token.minter == msg.seat_token.minter
                    &&& final(self).seat_token.tokens@.len() == 0
                    &&& final(self).redeemable.redeemed_items@.len() == 0
                    &&& final(self).sales.sales_view().len() == 0
                    &&& final(self).sellable_token.listed_tokens@ == sellable::seq_upsert_all(
                        Seq::<Listing>::empty(),
                        (match msg.sellable {
                            Some(m) => m.tokens@,
                            None => Seq::<Listing>::empty(),
                        }),
                    )
                    &&& final(self).hub_contract == msg.hub_contract
                    &&& resp.events@.len() == 1
                    &&& resp.events@[0].name@ == "seat_contract-instantiate"@
                    &&& resp.events@[0].attributes@.len() == 1
                    &&& resp.events@[0].attributes@[0].key@ == "hub_address"@
                    &&& resp.events@[0].attributes@[0].value@ == msg.hub_contract@
                    &&& resp.attributes@.len() == 0
                    &&& resp.messages@.len() == 0
                },
                Err(e) => (match e {
                    ContractError::SellableError(se) => sellable::initial_batch_error(
                        final(self).seat_token,
                        final(self).redeemable,
                        (match msg.sellable {
                            Some(m) => m.tokens@,
                            None => Seq::<Listing>::empty(),
                        }),
                    ) == Some(se),
                    _ => false,
                }),
            },
    {
        let mut attributes: Vec<Attribute> = Vec::new();
        attributes.push(Attribute { key: "hub_address".to_owned(), value: msg.hub_contract.clone() });
        let mut events: Vec<Event> = Vec::new();
        events.push(Event { name: "seat_contract-instantiate".to_owned(), attributes });
        let mut response = Response { attributes: Vec::new(), events, messages: Vec::new() };
        self.hub_contract = msg.hub_contract;
        let ownable_res = match self.ownable.instantiate(env, info, msg.ownable) {
            Ok(resp) => resp,
            Err(e) => {
                return Err(ContractError::OwnableError(e));
            },
        };
        let meta_res = match self.metadata.instantiate(env, info, msg.metadata) {
            Ok(resp) => resp,
            Err(e) => {
                return Err(ContractError::MetadataError(e));
            },
        };
        let token_res = match self.seat_token.instantiate(env, info, msg.seat_token) {
            Ok(resp) => resp,
            Err(e) => {
                return Err(ContractError::SeatTokenError(e));
            },
        };
        let redeemable_res = match self.redeemable.instantiate(env, info, msg.redeemable) {
            Ok(resp) => resp,
            Err(e) => {
                return Err(ContractError::RedeemableError(e));
            },
        };
        let sale_res = match self.sales.instantiate(env, info, msg.sales) {
            Ok(resp) => resp,
            Err(e) => {
                return Err(ContractError::SalesError(e));
            },
        };
        let sellable_msg = match msg.sellable {
            Some(m) => m,
            None => sellable::InstantiateMsg { tokens: Vec::new() },
        };
        let ghost sellable_items: Seq<Listing> = sellable_msg.tokens@;
        let sellable_res = match self.sellable_token.instantiate(
            &self.seat_token,
            &self.redeemable,
            env,
            info,
            sellable_msg,
        ) {
            Ok(resp) => resp,
            Err(e) => {
                return Err(ContractError::SellableError(e));
            },
        };
        let ghost parts: Seq<Response> = seq![
            ownable_res,
            meta_res,
            token_res,
            redeemable_res,
            sale_res,
            sellable_res,
        ];
        let mut responses: Vec<Response> = Vec::new();
        responses.push(ownable_res);
        responses.push(meta_res);
        responses.push(token_res);
        responses.push(redeemable_res);
        responses.push(sale_res);
        responses.push(sellable_res);
        proof {
            assert(responses@ =~= parts);
            lemma_all_empty(parts);
        }
        merge_responses(&mut response, responses);
        proof {
            assert(response.events@.len() == 1);
        }
        Ok(response)
    }
}

/// Everything but the ownership module is kept.
pub open spec fn same_but_ownable(pre: SeatModules, post: SeatModules) -> bool {
    &&& post.metadata == pre.metadata
    &&& post.seat_token == pre.seat_token
    &&& post.redeemable == pre.redeemable
    &&& post.sellable_token == pre.sellable_token
    &&& post.sales == pre.sales
    &&& post.hub_contract == pre.hub_contract
}

/// Everything but the metadata module is kept.
pub open spec fn same_but_metadata(pre: SeatModules, post: SeatModules) -> bool {
    &&& post.ownable == pre.ownable
    &&& post.seat_token == pre.seat_token
    &&& post.redeemable == pre.redeemable
    &&& post.sellable_token == pre.sellable_token
    &&& post.sales == pre.sales
    &&& post.hub_contract == pre.hub_contract
}

/// Everything but the token ledger is kept.
pub open spec fn same_but_token(pre: SeatModules, post: SeatModules) -> bool {
    &&& post.ownable == pre.ownable
    &&& post.metadata == pre.metadata
    &&& post.redeemable == pre.redeemable
    &&& post.sellable_token == pre.sellable_token
    &&& post.sales == pre.sales
    &&& post.hub_contract == pre.hub_contract
}

/// Everything but the redemption set is kept.
pub open spec fn same_but_redeemable(pre: SeatModules, post: SeatModules) -> bool {
    &&& post.ownable == pre.ownable
    &&& post.metadata == pre.metadata
    &&& post.seat_token == pre.seat_token
    &&& post.sellable_token == pre.sellable_token
    &&& post.sales == pre.sales
    &&& post.hub_contract == pre.hub_contract
}

/// Everything but the listings and the token ledger is kept.
pub open spec fn same_but_market(pre: SeatModules, post: SeatModules) -> bool {
    &&& post.ownable == pre.ownable
    &&& post.metadata == pre.metadata
    &&& post.redeemable == pre.redeemable
    &&& post.sales == pre.sales
    &&& post.hub_contract == pre.hub_contract
}

/// Everything but the sales log and the token ledger is kept.
pub open spec fn same_but_sales(pre: SeatModules, post: SeatModules) -> bool {
    &&& post.ownable == pre.ownable
    &&& post.metadata == pre.metadata
    &&& post.redeemable == pre.redeemable
    &&& post.sellable_token == pre.sellable_token
    &&& post.hub_contract == pre.hub_contract
}

impl SeatModules {
    /// Routes an execute envelope to the addressed module, with the shared
    /// state the module needs, and merges its partial response: only
    /// financial transfer instructions are forwarded outward. Any module
    /// error aborts the whole call with the tagged contract error and the
    /// state unchanged.
    pub fn execute(&mut self, env: &Env, info: &MessageInfo, msg: ExecuteMsg) -> (r: Result<
        Response,
        ContractError,
    >)
        requires
            old(self).wf(),
        ensures
            final(self).wf(),
            match msg {
                ExecuteMsg::Ownable(m) => match r {
                    Ok(resp) => (match m {
                        ownable::ExecuteMsg::SetOwner(addr) => info.sender@ == old(self).ownable.owner@
                            && final(self).ownable.owner == addr
                            && same_but_ownable(*old(self), *final(self)) && resp.is_empty(),
                    }),
                    Err(e) => e == ContractError::OwnableError(OwnableError::Unauthorized)
                        && info.sender@ != old(self).ownable.owner@ && *final(self) == *old(self),
                },
                ExecuteMsg::Metadata(m) => match r {
                    Ok(resp) => (match m {
                        metadata::ExecuteMsg::SetMetadata(meta) => info.sender@ == old(self).ownable.owner@
                            && final(self).metadata.metadata == meta
                            && same_but_metadata(*old(self), *final(self)) && resp.is_empty(),
                    }),
                    Err(e) => e == ContractError::MetadataError(MetadataError::Unauthorized)
                        && info.sender@ != old(self).ownable.owner@ && *final(self) == *old(self),
                },
                ExecuteMsg::SeatToken(m) => match r {
                    Ok(resp) => same_but_token(*old(self), *final(self)) && resp.is_empty() && (
                    match m {
                        token::ExecuteMsg::Mint(mm) => info.sender@ == old(self).seat_token.minter@
                            && token::mint_ok(
                            old(self).seat_token,
                            final(self).seat_token,
                            mm.token_id,
                            mm.owner,
                            mm.token_uri,
                            mm.extension,
                        ),
                        token::ExecuteMsg::TransferNft { recipient, token_id } => token::spec_can_send(
                            old(self).seat_token.spec_token(token_id@),
                            info.sender@,
                            env.time,
                        ) && token::transfer_ok(
                            old(self).seat_token,
                            final(self).seat_token,
                            token_id@,
                            recipient,
                        ),
                        token::ExecuteMsg::Approve { spender, token_id, expires } => old(self).seat_token.spec_token(
                            token_id@,
                        ).owner@ == info.sender@ && token::approve_ok(
                            old(self).seat_token,
                            final(self).seat_token,
                            token_id@,
                            spender,
                            expires,
                        ),
                    }),
                    Err(e) => *final(self) == *old(self) && (match e {
                        ContractError::SeatTokenError(te) => (match m {
                            token::ExecuteMsg::Mint(mm) => (match te {
                                TokenError::Unauthorized => info.sender@ != old(self).seat_token.minter@,
                                TokenError::Conflict => info.sender@ == old(self).seat_token.minter@
                                    && old(self).seat_token.has_id(mm.token_id@),
                                TokenError::NotFound => false,
                            }),
                            token::ExecuteMsg::TransferNft { recipient, token_id } => (match te {
                                TokenError::NotFound => !old(self).seat_token.has_id(token_id@),
                                TokenError::Unauthorized => old(self).seat_token.has_id(token_id@)
                                    && !token::spec_can_send(
                                    old(self).seat_token.spec_token(token_id@),
                                    info.sender@,
                                    env.time,
                                ),
                                TokenError::Conflict => false,
                            }),
                            token::ExecuteMsg::Approve { spender, token_id, expires } => (match te {
                                TokenError::NotFound => !old(self).seat_token.has_id(token_id@),
                                TokenError::Unauthorized => old(self).seat_token.has_id(token_id@)
                                    && old(self).seat_token.spec_token(token_id@).owner@
                                    != info.sender@,
                                TokenError::Conflict => false,
                            }),
                        }),
                        _ => false,
                    }),
                },
                ExecuteMsg::Redeemable(m) => match r {
                    Ok(resp) => same_but_redeemable(*old(self), *final(self)) && resp.is_empty()
                        && (match m {
                        redeemable::ExecuteMsg::RedeemItem(id) => old(self).seat_token.has_id(id@)
                            && redeemable::redeem_ok(
                            old(self).redeemable,
                            final(self).redeemable,
                            id@,
                        ),
                    }),
                    Err(e) => *final(self) == *old(self) && (match e {
                        ContractError::RedeemableError(re) => (match m {
                            redeemable::ExecuteMsg::RedeemItem(id) => (match re {
                                RedeemableError::NotFound => !old(self).seat_token.has_id(id@),
                                RedeemableError::Conflict => old(self).seat_token.has_id(id@)
                                    && old(self).redeemable.contains(id@),
                            }),
                        }),
                        _ => false,
                    }),
                },
                ExecuteMsg::Sellable(m) => match r {
                    Ok(resp) => (match m {
                        sellable::ExecuteMsg::List { listings } => sellable::batch_error(
                            old(self).seat_token,
                            old(self).redeemable,
                            info.sender@,
                            listings@,
                        ) is None && final(self).sellable_token.listed_tokens@
                            == sellable::seq_upsert_all(
                            old(self).sellable_token.listed_tokens@,
                            listings@,
                        ) && final(self).seat_token == old(self).seat_token && same_but_market(
                            *old(self),
                            *final(self),
                        ) && resp.is_empty(),
                        sellable::ExecuteMsg::Delist { token_id } => old(self).sellable_token.has_listing(
                            token_id@,
                        ) && old(self).seat_token.spec_token(token_id@).owner@ == info.sender@
                            && final(self).sellable_token.listed_tokens@
                            == old(self).sellable_token.listed_tokens@.remove(
                            old(self).sellable_token.listing_index(token_id@),
                        ) && final(self).seat_token == old(self).seat_token && same_but_market(
                            *old(self),
                            *final(self),
                        ) && resp.is_empty(),
                        sellable::ExecuteMsg::Buy { token_id } => {
                            &&& old(self).sellable_token.has_listing(token_id@)
                            &&& crate::types::spec_payment_covers(
                                info.funds@,
                                old(self).sellable_token.spec_price(token_id@),
                            )
                            &&& !old(self).redeemable.contains(token_id@)
                            &&& final(self).sellable_token.listed_tokens@
                                == old(self).sellable_token.listed_tokens@.remove(
                                old(self).sellable_token.listing_index(token_id@),
                            )
                            &&& token::transfer_ok(
                                old(self).seat_token,
                                final(self).seat_token,
                                token_id@,
                                info.sender,
                            )
                            &&& same_but_market(*old(self), *final(self))
                            &&& resp.attributes@.len() == 0
                            &&& resp.events@.len() == 0
                            &&& resp.messages@ == seq![
                                OutMsg::Transfer(
                                    TransferMsg {
                                        recipient: old(self).seat_token.spec_token(token_id@).owner,
                                        amount: old(self).sellable_token.spec_price(token_id@),
                                    },
                                ),
                            ]
                        },
                    }),
                    Err(e) => *final(self) == *old(self) && (match e {
                        ContractError::SellableError(se) => (match m {
                            sellable::ExecuteMsg::List { listings } => sellable::batch_error(
                                old(self).seat_token,
                                old(self).redeemable,
                                info.sender@,
                                listings@,
                            ) == Some(se),
                            sellable::ExecuteMsg::Delist { token_id } => (match se {
                                SellableError::NotFound => !old(self).sellable_token.has_listing(
                                    token_id@,
                                ),
                                SellableError::Unauthorized => old(self).sellable_token.has_listing(
                                    token_id@,
                                ) && old(self).seat_token.spec_token(token_id@).owner@
                                    != info.sender@,
                                _ => false,
                            }),
                            sellable::ExecuteMsg::Buy { token_id } => (match se {
                                SellableError::NotFound => !old(self).sellable_token.has_listing(
                                    token_id@,
                                ),
                                SellableError::InvalidInput => old(self).sellable_token.has_listing(
                                    token_id@,
                                ) && !crate::types::spec_payment_covers(
                                    info.funds@,
                                    old(self).sellable_token.spec_price(token_id@),
                                ),
                                SellableError::Conflict => old(self).sellable_token.has_listing(
                                    token_id@,
                                ) && crate::types::spec_payment_covers(
                                    info.funds@,
                                    old(self).sellable_token.spec_price(token_id@),
                                ) && old(self).redeemable.contains(token_id@),
                                SellableError::Unauthorized => false,
                            }),
                        }),
                        _ => false,
                    }),
                },
                ExecuteMsg::Sales(m) => match r {
                    Ok(resp) => same_but_sales(*old(self), *final(self)) && (match m {
                        sales::ExecuteMsg::PrimarySale(cm) => {
                            &&& info.sender@ == old(self).ownable.owner@
                            &&& sales::valid_sale_msg(
                                cm.total_supply,
                                cm.start_time,
                                cm.end_time,
                                cm.price@,
                            )
                            &&& !sales::any_live(old(self).sales.sales_view(), env.time)
                            &&& final(self).sales.sales_view() == old(self).sales.sales_view().push(
                                (sales::SaleView {
                                    total_supply: cm.total_supply,
                                    tokens_minted: 0,
                                    start_time: cm.start_time,
                                    end_time: cm.end_time,
                                    price: cm.price@,
                                    disabled: false,
                                }),
                            )
                            &&& final(self).seat_token == old(self).seat_token
                            &&& resp.is_empty()
                        },
                        sales::ExecuteMsg::BuyItem(payload) => {
                            let sv = old(self).sales.sales_view();
                            let i = sales::first_live(sv, env.time);
                            &&& sales::any_live(sv, env.time)
                            &&& sv[i].tokens_minted < sv[i].total_supply
                            &&& crate::types::spec_payment_covers_all(info.funds@, sv[i].price)
                            &&& !old(self).seat_token.has_id(payload.token_id@)
                            &&& final(self).sales.sales_view() == sv.update(
                                i,
                                (sales::SaleView {
                                    total_supply: sv[i].total_supply,
                                    tokens_minted: (sv[i].tokens_minted + 1) as u64,
                                    start_time: sv[i].start_time,
                                    end_time: sv[i].end_time,
                                    price: sv[i].price,
                                    disabled: sv[i].disabled,
                                }),
                            )
                            &&& token::mint_ok(
                                old(self).seat_token,
                                final(self).seat_token,
                                payload.token_id,
                                payload.owner,
                                payload.token_uri,
                                payload.extension,
                            )
                            &&& resp.attributes@.len() == 0
                            &&& resp.events@.len() == 0
                            &&& resp.messages@.len() == sv[i].price.len()
                            &&& (forall|k: int|
                                0 <= k < sv[i].price.len() ==> resp.messages@[k]
                                    == OutMsg::Transfer(
                                    (TransferMsg {
                                        recipient: old(self).ownable.owner,
                                        amount: sv[i].price[k],
                                    }),
                                ))
                        },
                        sales::ExecuteMsg::HaltSale => {
                            let sv = old(self).sales.sales_view();
                            &&& info.sender@ == old(self).ownable.owner@
                            &&& final(self).sales.sales_view().len() == sv.len()
                            &&& (forall|i: int|
                                0 <= i < sv.len() ==> final(self).sales.sales_view()[i] == (
                                if sales::window_live(sv[i], env.time) {
                                    sales::SaleView {
                                        total_supply: sv[i].total_supply,
                                        tokens_minted: sv[i].tokens_minted,
                                        start_time: sv[i].start_time,
                                        end_time: sv[i].end_time,
                                        price: sv[i].price,
                                        disabled: true,
                                    }
                                } else {
                                    sv[i]
                                }))
                            &&& !sales::any_live(final(self).sales.sales_view(), env.time)
                            &&& final(self).seat_token == old(self).seat_token
                            &&& resp.is_empty()
                        },
                    }),
                    Err(e) => *final(self) == *old(self) && (match e {
                        ContractError::SalesError(se) => (match m {
                            sales::ExecuteMsg::PrimarySale(cm) => (match se {
                                SalesError::Unauthorized => info.sender@ != old(self).ownable.owner@,
                                SalesError::InvalidInput => info.sender@ == old(self).ownable.owner@
                                    && !sales::valid_sale_msg(
                                    cm.total_supply,
                                    cm.start_time,
                                    cm.end_time,
                                    cm.price@,
                                ),
                                SalesError::Conflict => info.sender@ == old(self).ownable.owner@
                                    && sales::valid_sale_msg(
                                    cm.total_supply,
                                    cm.start_time,
                                    cm.end_time,
                                    cm.price@,
                                ) && sales::any_live(old(self).sales.sales_view(), env.time),
                                SalesError::NotFound => false,
                            }),
                            sales::ExecuteMsg::BuyItem(payload) => {
                                let sv = old(self).sales.sales_view();
                                let i = sales::first_live(sv, env.time);
                                match se {
                                    SalesError::NotFound => !sales::any_live(sv, env.time),
                                    SalesError::Conflict => sales::any_live(sv, env.time) && (
                                    sv[i].tokens_minted >= sv[i].total_supply || (
                                    crate::types::spec_payment_covers_all(info.funds@, sv[i].price)
                                        && old(self).seat_token.has_id(payload.token_id@))),
                                    SalesError::InvalidInput => sales::any_live(sv, env.time)
                                        && sv[i].tokens_minted < sv[i].total_supply
                                        && !crate::types::spec_payment_covers_all(
                                        info.funds@,
                                        sv[i].price,
                                    ),
                                    SalesError::Unauthorized => false,
                                }
                            },
                            sales::ExecuteMsg::HaltSale => se == SalesError::Unauthorized
                                && info.sender@ != old(self).ownable.owner@,
                        }),
                        _ => false,
                    }),
                },
            },
    {
        match msg {
            ExecuteMsg::Ownable(m) => {
                match self.ownable.execute(env, info, m) {
                    Ok(resp) => {
                        let out = wrap_response(resp);
                        proof {
                            assert(spec_transfers(Seq::<OutMsg>::empty()) == Seq::<
                                OutMsg,
                            >::empty());
                        }
                        Ok(out)
                    },
                    Err(e) => Err(ContractError::OwnableError(e)),
                }
            },
            ExecuteMsg::Metadata(m) => {
                match self.metadata.execute(&self.ownable, env, info, m) {
                    Ok(resp) => {
                        let out = wrap_response(resp);
                        proof {
                            assert(spec_transfers(Seq::<OutMsg>::empty()) == Seq::<
                                OutMsg,
                            >::empty());
                        }
                        Ok(out)
                    },
                    Err(e) => Err(ContractError::MetadataError(e)),
                }
            },
            ExecuteMsg::SeatToken(m) => {
                let ghost pre_token = self.seat_token;
                let ghost gm: token::ExecuteMsg<TokenMetadata> = m;
                match self.seat_token.execute(env, info, m) {
                    Ok(resp) => {
                        proof {
                            match gm {
                                token::ExecuteMsg::Mint(x) => {
                                    token::lemma_mint_preserves_ids(
                                        pre_token,
                                        self.seat_token,
                                        x.token_id,
                                        x.owner,
                                        x.token_uri,
                                        x.extension,
                                    );
                                },
                                token::ExecuteMsg::TransferNft { recipient, token_id } => {
                                    token::lemma_transfer_same_ids(
                                        pre_token,
                                        self.seat_token,
                                        token_id@,
                                        recipient,
                                    );
                                },
                                token::ExecuteMsg::Approve { spender, token_id, expires } => {
                                    token::lemma_approve_same_ids(
                                        pre_token,
                                        self.seat_token,
                                        token_id@,
                                        spender,
                                        expires,
                                    );
                                },
                            }
                            assert(spec_transfers(Seq::<OutMsg>::empty()) == Seq::<
                                OutMsg,
                            >::empty());
                        }
                        let out = wrap_response(resp);
                        Ok(out)
                    },
                    Err(e) => Err(ContractError::SeatTokenError(e)),
                }
            },
            ExecuteMsg::Redeemable(m) => {
                match self.redeemable.execute(&self.seat_token, env, info, m) {
                    Ok(resp) => {
                        let out = wrap_response(resp);
                        proof {
                            assert(spec_transfers(Seq::<OutMsg>::empty()) == Seq::<
                                OutMsg,
                            >::empty());
                        }
                        Ok(out)
                    },
                    Err(e) => Err(ContractError::RedeemableError(e)),
                }
            },
            ExecuteMsg::Sellable(m) => {
                match self.sellable_token.execute(&mut self.seat_token, &self.redeemable, env, info, m) {
                    Ok(resp) => {
                        proof {
                            assert forall|k: int|
                                0 <= k < resp.messages@.len() implies (#[trigger] resp.messages@[k]) is Transfer by {}
                            lemma_transfers_all(resp.messages@);
                            assert(spec_transfers(Seq::<OutMsg>::empty()) == Seq::<
                                OutMsg,
                            >::empty());
                        }
                        let out = wrap_response(resp);
                        Ok(out)
                    },
                    Err(e) => Err(ContractError::SellableError(e)),
                }
            },
            ExecuteMsg::Sales(m) => {
                let ghost pre_token = self.seat_token;
                let ghost gm: sales::ExecuteMsg<TokenMetadata> = m;
                match self.sales.execute(&mut self.seat_token, &self.ownable, env, info, m) {
                    Ok(resp) => {
                        proof {
                            match gm {
                                sales::ExecuteMsg::BuyItem(x) => {
                                    token::lemma_mint_preserves_ids(
                                        pre_token,
                                        self.seat_token,
                                        x.token_id,
                                        x.owner,
                                        x.token_uri,
                                        x.extension,
                                    );
                                },
                                _ => {},
                            }
                            assert forall|k: int|
                                0 <= k < resp.messages@.len() implies (#[trigger] resp.messages@[k]) is Transfer by {}
                            lemma_transfers_all(resp.messages@);
                        }
                        let out = wrap_response(resp);
                        Ok(out)
                    },
                    Err(e) => Err(ContractError::SalesError(e)),
                }
            },
        }
    }

    /// How one entry of `AllSeats` reflects the token at position `i` and
    /// its listing state.
    pub open spec fn seat_info_matches(self, i: int, info: SeatInfo) -> bool {
        let t = self.seat_token.tokens@[i];
        &&& info.token_id == t.id
        &&& info.owner == t.owner
        &&& info.approvals@ == t.approvals@
        &&& info.token_uri == t.token_uri
        &&& info.extension == t.extension
        &&& info.listed_price == (if self.sellable_token.has_listing(t.id@) {
            Some(self.sellable_token.spec_price(t.id@))
        } else {
            Option::<Coin>::None
        })
    }

    /// Every token in mint order, each with its owner, approvals, extension
    /// and current listing price.
    pub fn get_all_seats(&self) -> (r: Vec<SeatInfo>)
        requires
            self.wf(),
        ensures
            r@.len() == self.seat_token.tokens@.len(),
            forall|i: int| 0 <= i < r@.len() ==> self.seat_info_matches(i, #[trigger] r@[i]),
    {
        let n = self.seat_token.tokens.len();
        let mut out: Vec<SeatInfo> = Vec::new();
        let mut i: usize = 0;
        while i < n
            invariant
                0 <= i <= n,
                n == self.seat_token.tokens@.len(),
                self.wf(),
                out@.len() == i,
                forall|k: int| 0 <= k < i ==> self.seat_info_matches(k, #[trigger] out@[k]),
            decreases n - i,
        {
            let t = &self.seat_token.tokens[i];
            let approvals = t.approvals.clone();
            proof {
                assert forall|k: int|
                    0 <= k < approvals@.len() implies approvals@[k] == t.approvals@[k] by {
                    lemma_cloned_approval(t.approvals@[k], approvals@[k]);
                }
                assert(approvals@ =~= t.approvals@);
            }
            let listed_price = self.sellable_token.price_of(&t.id);
            let info = SeatInfo {
                token_id: t.id.clone(),
                listed_price,
                owner: t.owner.clone(),
                approvals,
                token_uri: clone_opt_string(&t.token_uri),
                extension: t.extension.clone(),
            };
            proof {
                assert(self.seat_info_matches(i as int, info));
            }
            out.push(info);
            i = i + 1;
        }
        out
    }

    /// Routes a query envelope to the addressed module; read-only.
    pub fn query(&self, env: &Env, msg: QueryMsg) -> (r: Result<QueryResp, ContractError>)
        requires
            self.wf(),
        ensures
            match msg {
                QueryMsg::Ownable(m) => (match m {
                    ownable::QueryMsg::IsOwner(addr) => r == Ok::<QueryResp, ContractError>(
                        QueryResp::Ownable(
                            ownable::QueryResp::IsOwner(addr@ == self.ownable.owner@),
                        ),
                    ),
                }),
                QueryMsg::Metadata(m) => (match m {
                    metadata::QueryMsg::GetMetadata => (match r {
                        Ok(resp) => (match resp {
                            QueryResp::Metadata(mr) => (match mr {
                                metadata::QueryResp::Metadata(meta) => meta@
                                    == self.metadata.metadata@,
                            }),
                            _ => false,
                        }),
                        Err(_) => false,
                    }),
                }),
                QueryMsg::SeatToken(m) => (match r {
                    Ok(resp) => (match resp {
                        QueryResp::SeatToken(tr) => (match m {
                            token::QueryMsg::NumTokens => tr == token::QueryResp::NumTokens(
                                self.seat_token.tokens@.len() as u64,
                            ),
                            token::QueryMsg::OwnerOf { token_id } => self.seat_token.has_id(
                                token_id@,
                            ) && (match tr {
                                token::QueryResp::OwnerOf { owner, approvals } => owner@
                                    == self.seat_token.spec_token(token_id@).owner@ && approvals@
                                    == self.seat_token.spec_token(token_id@).approvals@,
                                _ => false,
                            }),
                            token::QueryMsg::AllTokens { start_after, limit, descending } => (
                            match tr {
                                token::QueryResp::Tokens(ids) => ids@.map_values(|s: String| s@)
                                    == self.seat_token.spec_enumerate(
                                    match start_after {
                                        Some(s) => Some(s@),
                                        None => None,
                                    },
                                    limit,
                                    descending,
                                ),
                                _ => false,
                            }),
                        }),
                        _ => false,
                    }),
                    Err(e) => e == ContractError::SeatTokenError(TokenError::NotFound) && (match m {
                        token::QueryMsg::OwnerOf { token_id } => !self.seat_token.has_id(token_id@),
                        _ => false,
                    }),
                }),
                QueryMsg::Redeemable(m) => (match m {
                    redeemable::QueryMsg::IsRedeemed(id) => r == Ok::<QueryResp, ContractError>(
                        QueryResp::Redeemable(
                            redeemable::QueryResp::IsRedeemed(self.redeemable.contains(id@)),
                        ),
                    ),
                }),
                QueryMsg::Sellable(m) => (match r {
                    Ok(resp) => (match resp {
                        QueryResp::Sellable(sr) => (match m {
                            sellable::QueryMsg::ListedTokens { start_after, limit } => (match sr {
                                sellable::QueryResp::ListedTokens(ls) => ls@
                                    == self.sellable_token.spec_listed(
                                    match start_after {
                                        Some(s) => Some(s@),
                                        None => None,
                                    },
                                    limit,
                                ),
                            }),
                        }),
                        _ => false,
                    }),
                    Err(_) => false,
                }),
                QueryMsg::Sales(m) => (match r {
                    Ok(resp) => (match resp {
                        QueryResp::Sales(sr) => (match m {
                            sales::QueryMsg::PrimarySales => (match sr {
                                sales::QueryResp::PrimarySales(ss) => ss@.map_values(
                                    |s: sales::PrimarySale| s@,
                                ) == self.sales.sales_view(),
                                _ => false,
                            }),
                            sales::QueryMsg::ActivePrimarySale => (match sr {
                                sales::QueryResp::ActivePrimarySale(o) => (match o {
                                    Some(s) => self.sales.spec_active(env.time) == Some(s@),
                                    None => self.sales.spec_active(env.time) is None,
                                }),
                                _ => false,
                            }),
                        }),
                        _ => false,
                    }),
                    Err(_) => false,
                }),
                QueryMsg::AllSeats => (match r {
                    Ok(resp) => (match resp {
                        QueryResp::AllSeats(infos) => infos@.len()
                            == self.seat_token.tokens@.len() && (forall|i: int|
                            0 <= i < infos@.len() ==> self.seat_info_matches(
                                i,
                                #[trigger] infos@[i],
                            )),
                        _ => false,
                    }),
                    Err(_) => false,
                }),
            },
    {
        match msg {
            QueryMsg::Ownable(m) => {
                match self.ownable.query(env, m) {
                    Ok(resp) => Ok(QueryResp::Ownable(resp)),
                    Err(e) => Err(ContractError::OwnableError(e)),
                }
            },
            QueryMsg::Metadata(m) => {
                match self.metadata.query(env, m) {
                    Ok(resp) => {
                        proof {
                            match &resp {
                                metadata::QueryResp::Metadata(meta) => {
                                    lemma_cloned_seat_metadata(self.metadata.metadata, *meta);
                                },
                            }
                        }
                        Ok(QueryResp::Metadata(resp))
                    },
                    Err(e) => Err(ContractError::MetadataError(e)),
                }
            },
            QueryMsg::SeatToken(m) => {
                match self.seat_token.query(env, m) {
                    Ok(resp) => Ok(QueryResp::SeatToken(resp)),
                    Err(e) => Err(ContractError::SeatTokenError(e)),
                }
            },
            QueryMsg::Redeemable(m) => {
                match self.redeemable.query(env, m) {
                    Ok(resp) => Ok(QueryResp::Redeemable(resp)),
                    Err(e) => Err(ContractError::RedeemableError(e)),
                }
            },
            QueryMsg::Sellable(m) => {
                match self.sellable_token.query(env, m) {
                    Ok(resp) => Ok(QueryResp::Sellable(resp)),
                    Err(e) => Err(ContractError::SellableError(e)),
                }
            },
            QueryMsg::Sales(m) => {
                match self.sales.query(env, m) {
                    Ok(resp) => Ok(QueryResp::Sales(resp)),
                    Err(e) => Err(ContractError::SalesError(e)),
                }
            },
            QueryMsg::AllSeats => Ok(QueryResp::AllSeats(self.get_all_seats())),
        }
    }
}

} // verus!
