//! The hub contract: collection-level ownership and metadata, composed from
//! the ownership and metadata modules by a tagged-message dispatcher.

use vstd::prelude::*;
use crate::types::{Env, MessageInfo, clone_opt_string, lemma_cloned_string};
use crate::response::{Attribute, Event, Response, merge_responses};
use crate::ownable::{self, Ownable, OwnableError};
use crate::metadata::{self, Metadata, MetadataError};

verus! {

/// The contract-level configuration record.
pub struct Config {
    pub owner: String,
}

/// One social media link of the collection.
#[derive(Debug, PartialEq, Eq)]
pub struct SocialLinks {
    pub name: String,
    pub url: String,
}

impl Clone for SocialLinks {
    fn clone(&self) -> (r: Self)
        ensures
            r == *self,
    {
        SocialLinks { name: self.name.clone(), url: self.url.clone() }
    }
}

/// Any clone of a social link equals the original, because
/// `SocialLinks::clone` promises exactly that.
pub proof fn lemma_cloned_social_links(a: SocialLinks, b: SocialLinks)
    requires
        cloned(a, b),
    ensures
        a == b,
{
}

/// The hub's metadata record.
#[derive(Debug, PartialEq, Eq)]
pub struct HubMetadata {
    pub name: String,
    pub hub_url: String,
    pub description: String,
    pub tags: Vec<String>,
    pub social_links: Vec<SocialLinks>,
    pub creator: String,
    pub thumbnail_image_url: String,
    pub banner_image_url: String,
    pub seat_contract: Option<String>,
}

/// The mathematical shape of the hub's metadata record.
pub struct HubMetadataView {
    pub name: String,
    pub hub_url: String,
    pub description: String,
    pub tags: Seq<String>,
    pub social_links: Seq<SocialLinks>,
    pub creator: String,
    pub thumbnail_image_url: String,
    pub banner_image_url: String,
    pub seat_contract: Option<String>,
}

impl View for HubMetadata {
    type V = HubMetadataView;

    open spec fn view(&self) -> HubMetadataView {
        HubMetadataView {
            name: self.name,
            hub_url: self.hub_url,
            description: self.description,
            tags: self.tags@,
            social_links: self.social_links@,
            creator: self.creator,
            thumbnail_image_url: self.thumbnail_image_url,
            banner_image_url: self.banner_image_url,
            seat_contract: self.seat_contract,
        }
    }
}

impl Clone for HubMetadata {
    fn clone(&self) -> (r: Self)
        ensures
            r@ == self@,
    {
        let tags = self.tags.clone();
        let social_links = self.social_links.clone();
        proof {
            assert forall|k: int| 0 <= k < tags@.len() implies tags@[k] == self.tags@[k] by {
                lemma_cloned_string(self.tags@[k], tags@[k]);
            }
            assert(tags@ =~= self.tags@);
            assert forall|k: int|
                0 <= k < social_links@.len() implies social_links@[k] == self.social_links@[k] by {
                lemma_cloned_social_links(self.social_links@[k], social_links@[k]);
            }
            assert(social_links@ =~= self.social_links@);
        }
        HubMetadata {
            name: self.name.clone(),
            hub_url: self.hub_url.clone(),
            description: self.description.clone(),
            tags,
            social_links,
            creator: self.creator.clone(),
            thumbnail_image_url: self.thumbnail_image_url.clone(),
            banner_image_url: self.banner_image_url.clone(),
            seat_contract: clone_opt_string(&self.seat_contract),
        }
    }
}

/// Any clone of the hub metadata has the same view, because
/// `HubMetadata::clone` promises exactly that.
pub proof fn lemma_cloned_hub_metadata(a: HubMetadata, b: HubMetadata)
    requires
        cloned(a, b),
    ensures
        a@ == b@,
{
}

/// A metadata field the hub can update through a dedicated message.
pub enum MetadataField {
    SeatContract(String),
}

pub struct MigrateMsg {
    pub owner: String,
}

pub struct InstantiateMsg {
    pub ownable: ownable::InstantiateMsg,
    pub metadata: metadata::InstantiateMsg<HubMetadata>,
}

pub enum ExecuteMsg {
    Ownable(ownable::ExecuteMsg),
    UpdateMetadata(MetadataField),
}

pub enum QueryMsg {
    Ownable(ownable::QueryMsg),
    Metadata(metadata::QueryMsg),
}

#[derive(Debug, PartialEq, Eq)]
pub enum QueryResp {
    Ownable(ownable::QueryResp),
    Metadata(metadata::QueryResp<HubMetadata>),
}

#[derive(Debug, PartialEq, Eq)]
pub enum ContractError {
    OwnableError(OwnableError),
    MetadataError(MetadataError),
}

/// The hub's modules, owned by one execution-scoped context: the dispatcher
/// passes whichever module runs an exclusive reference into this state.
pub struct HubModules {
    pub ownable: Ownable,
    pub metadata: Metadata<HubMetadata>,
}

impl HubModules {
    /// A hub built from already-constructed modules.
    pub fn new(ownable_module: Ownable, metadata_module: Metadata<HubMetadata>) -> (s: Self)
        ensures
            s.ownable == ownable_module,
            s.metadata == metadata_module,
    {
        HubModules { ownable: ownable_module, metadata: metadata_module }
    }

    /// Calls each module's `instantiate` in the declared order; the whole
    /// operation fails if any module fails (neither can here). Afterwards the
    /// configured owner owns the hub and the configured record is stored, and
    /// the response carries the instantiation event.
    pub fn instantiate(&mut self, env: &Env, info: &MessageInfo, msg: InstantiateMsg) -> (r: Result<
        Response,
        ContractError,
    >)
        ensures
            match r {
                Ok(resp) => {
                    &&& final(self).ownable.owner == msg.ownable.owner
                    &&& final(self).metadata.metadata == msg.metadata.metadata
                    &&& resp.events@.len() == 1
                    &&& resp.events@[0].name@ == "hub-instantiate"@
                    &&& resp.events@[0].attributes@.len() == 1
                    &&& resp.events@[0].attributes@[0].key@ == "contract_address"@
                    &&& resp.events@[0].attributes@[0].value@ == env.contract_address@
                    &&& resp.attributes@.len() == 0
                    &&& resp.messages@.len() == 0
                },
                Err(_) => false,
            },
    {
        let mut attributes: Vec<Attribute> = Vec::new();
        attributes.push(
            Attribute { key: "contract_address".to_owned(), value: env.contract_address.clone() },
        );
        let mut events: Vec<Event> = Vec::new();
        events.push(Event { name: "hub-instantiate".to_owned(), attributes });
        let mut response = Response { attributes: Vec::new(), events, messages: Vec::new() };
        let ownable_response = match self.ownable.instantiate(env, info, msg.ownable) {
            Ok(resp) => resp,
            Err(e) => {
                return Err(ContractError::OwnableError(e));
            },
        };
        let metadata_response = match self.metadata.instantiate(env, info, msg.metadata) {
            Ok(resp) => resp,
            Err(e) => {
                return Err(ContractError::MetadataError(e));
            },
        };
        let ghost parts: Seq<Response> = seq![ownable_response, metadata_response];
        let mut responses: Vec<Response> = Vec::new();
        responses.push(ownable_response);
        responses.push(metadata_response);
        proof {
            assert(responses@ =~= parts);
            crate::response::lemma_all_empty(parts);
        }
        merge_responses(&mut response, responses);
        proof {
            assert(response.events@.len() == 1);
        }
        Ok(response)
    }

    /// Routes an execute message to the addressed module and returns its
    /// result, wrapped into the contract-level error on failure.
    pub fn execute(&mut self, env: &Env, info: &MessageInfo, msg: ExecuteMsg) -> (r: Result<
        Response,
        ContractError,
    >)
        ensures
            match msg {
                ExecuteMsg::Ownable(m) => match r {
                    Ok(resp) => (match m {
                        ownable::ExecuteMsg::SetOwner(addr) => info.sender@ == old(self).ownable.owner@ && final(self).ownable.owner == addr && final(self).metadata == old(self).metadata && resp.is_empty(),
                    }),
                    Err(e) => e == ContractError::OwnableError(OwnableError::Unauthorized)
                        && info.sender@ != old(self).ownable.owner@ && *final(self) == *old(self),
                },
                ExecuteMsg::UpdateMetadata(mf) => match r {
                    Ok(resp) => (match mf {
                        MetadataField::SeatContract(address) => info.sender@ == old(self).ownable.owner@ && final(self).ownable == old(self).ownable && final(self).metadata.metadata@ == (HubMetadataView {
                            seat_contract: Some(address),
                            ..old(self).metadata.metadata@
                        }) && resp.is_empty(),
                    }),
                    Err(e) => e == ContractError::MetadataError(MetadataError::Unauthorized)
                        && info.sender@ != old(self).ownable.owner@ && *final(self) == *old(self),
                },
            },
    {
        match msg {
            ExecuteMsg::Ownable(m) => {
                match self.ownable.execute(env, info, m) {
                    Ok(resp) => Ok(resp),
                    Err(e) => Err(ContractError::OwnableError(e)),
                }
            },
            ExecuteMsg::UpdateMetadata(mf) => {
                match mf {
                    MetadataField::SeatContract(address) => {
                        let old_meta = self.metadata.get_metadata().clone();
                        old_meta.update_seat_contract(self, env, info, &address)
                    },
                }
            },
        }
    }

    /// Routes a query message to the addressed module; read-only.
    pub fn query(&self, env: &Env, msg: QueryMsg) -> (r: Result<QueryResp, ContractError>)
        ensures
            match msg {
                QueryMsg::Ownable(m) => (match m {
                    ownable::QueryMsg::IsOwner(addr) => r == Ok::<QueryResp, ContractError>(
                        QueryResp::Ownable(
                            ownable::QueryResp::IsOwner(addr@ == self.ownable.owner@),
                        ),
                    ),
                }),
                QueryMsg::Metadata(m) => (match m {
                    metadata::QueryMsg::GetMetadata => (match r {
                        Ok(resp) => (match resp {
                            QueryResp::Metadata(mr) => (match mr {
                                metadata::QueryResp::Metadata(meta) => meta@
                                    == self.metadata.metadata@,
                            }),
                            _ => false,
                        }),
                        Err(_) => false,
                    }),
                }),
            },
    {
        match msg {
            QueryMsg::Ownable(m) => {
                match self.ownable.query(env, m) {
                    Ok(resp) => Ok(QueryResp::Ownable(resp)),
                    Err(e) => Err(ContractError::OwnableError(e)),
                }
            },
            QueryMsg::Metadata(m) => {
                match self.metadata.query(env, m) {
                    Ok(resp) => {
                        proof {
                            match &resp {
                                metadata::QueryResp::Metadata(meta) => {
                                    lemma_cloned_hub_metadata(self.metadata.metadata, *meta);
                                },
                            }
                        }
                        Ok(QueryResp::Metadata(resp))
                    },
                    Err(e) => Err(ContractError::MetadataError(e)),
                }
            },
        }
    }
}

impl Default for HubModules {
    /// A hub before instantiation: empty owner, empty metadata record.
    fn default() -> (s: Self)
        ensures
            s.ownable.owner@ == Seq::<char>::empty(),
    {
        HubModules {
            ownable: Ownable::default(),
            metadata: Metadata::new(
                HubMetadata {
                    name: String::new(),
                    hub_url: String::new(),
                    description: String::new(),
                    tags: Vec::new(),
                    social_links: Vec::new(),
                    creator: String::new(),
                    thumbnail_image_url: String::new(),
                    banner_image_url: String::new(),
                    seat_contract: None,
                },
            ),
        }
    }
}

impl HubMetadata {
    /// Records the linked seat contract's address by replacing the whole
    /// metadata record through the metadata module — the cross-module field
    /// update path. Fails with `Unauthorized` unless the caller is the
    /// owner; on failure the state is unchanged.
    pub fn update_seat_contract(
        self,
        modules: &mut HubModules,
        env: &Env,
        info: &MessageInfo,
        address: &String,
    ) -> (r: Result<Response, ContractError>)
        ensures
            match r {
                Ok(resp) => info.sender@ == old(modules).ownable.owner@ && final(modules).ownable
                    == old(modules).ownable && final(modules).metadata.metadata@
                    == (HubMetadataView { seat_contract: Some(*address), ..self@ })
                    && resp.is_empty(),
                Err(e) => e == ContractError::MetadataError(MetadataError::Unauthorized)
                    && info.sender@ != old(modules).ownable.owner@ && *final(modules) == *old(modules),
            },
    {
        let new_metadata = HubMetadata {
            name: self.name,
            hub_url: self.hub_url,
            description: self.description,
            tags: self.tags,
            social_links: self.social_links,
            creator: self.creator,
            thumbnail_image_url: self.thumbnail_image_url,
            banner_image_url: self.banner_image_url,
            seat_contract: Some(address.clone()),
        };
        match modules.metadata.execute(
            &modules.ownable,
            env,
            info,
            metadata::ExecuteMsg::SetMetadata(new_metadata),
        ) {
            Ok(resp) => Ok(resp),
            Err(e) => Err(ContractError::MetadataError(e)),
        }
    }
}

/// Instantiates a fresh hub: every module in the declared order, all or
/// nothing.
pub fn instantiate(modules: &mut HubModules, env: &Env, info: &MessageInfo, msg: InstantiateMsg)
    -> (r: Result<Response, ContractError>)
    ensures
        match r {
            Ok(resp) => {
                &&& final(modules).ownable.owner == msg.ownable.owner
                &&& final(modules).metadata.metadata == msg.metadata.metadata
                &&& resp.events@.len() == 1
                &&& resp.events@[0].name@ == "hub-instantiate"@
                &&& resp.attributes@.len() == 0
                &&& resp.messages@.len() == 0
            },
            Err(_) => false,
        },
{
    modules.instantiate(env, info, msg)
}

/// Routes an execute envelope into the hub.
pub fn execute(modules: &mut HubModules, env: &Env, info: &MessageInfo, msg: ExecuteMsg) -> (r:
    Result<Response, ContractError>)
    ensures
        match msg {
            ExecuteMsg::Ownable(m) => match r {
                Ok(resp) => (match m {
                    ownable::ExecuteMsg::SetOwner(addr) => info.sender@ == old(modules).ownable.owner@ && final(modules).ownable.owner == addr && final(modules).metadata == old(modules).metadata && resp.is_empty(),
                }),
                Err(e) => e == ContractError::OwnableError(OwnableError::Unauthorized)
                    && info.sender@ != old(modules).ownable.owner@ && *final(modules) == *old(modules),
            },
            ExecuteMsg::UpdateMetadata(mf) => match r {
                Ok(resp) => (match mf {
                    MetadataField::SeatContract(address) => info.sender@ == old(modules).ownable.owner@ && final(modules).ownable == old(modules).ownable && final(modules).metadata.metadata@ == (HubMetadataView {
                        seat_contract: Some(address),
                        ..old(modules).metadata.metadata@
                    }) && resp.is_empty(),
                }),
                Err(e) => e == ContractError::MetadataError(MetadataError::Unauthorized)
                    && info.sender@ != old(modules).ownable.owner@ && *final(modules) == *old(modules),
            },
        },
{
    modules.execute(env, info, msg)
}

/// Routes a query envelope into the hub; read-only.
pub fn query(modules: &HubModules, env: &Env, msg: QueryMsg) -> (r: Result<
    QueryResp,
    ContractError,
>)
    ensures
        match msg {
            QueryMsg::Ownable(m) => (match m {
                ownable::QueryMsg::IsOwner(addr) => r == Ok::<QueryResp, ContractError>(
                    QueryResp::Ownable(
                        ownable::QueryResp::IsOwner(addr@ == modules.ownable.owner@),
                    ),
                ),
            }),
            QueryMsg::Metadata(m) => (match m {
                metadata::QueryMsg::GetMetadata => (match r {
                    Ok(resp) => (match resp {
                        QueryResp::Metadata(mr) => (match mr {
                            metadata::QueryResp::Metadata(meta) => meta@
                                == modules.metadata.metadata@,
                        }),
                        _ => false,
                    }),
                    Err(_) => false,
                }),
            }),
        },
{
    modules.query(env, msg)
}

} // verus!
