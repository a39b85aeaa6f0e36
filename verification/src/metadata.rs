//! A single stored metadata record of a caller-chosen schema `T`, created at
//! instantiation and replaced wholesale on update — never partially patched.
//! Writes are gated by the shared ownership module.

use vstd::prelude::*;
use crate::types::{Env, MessageInfo};
use crate::response::Response;
use crate::ownable::Ownable;

verus! {

pub struct InstantiateMsg<T> {
    pub metadata: T,
}

pub enum ExecuteMsg<T> {
    SetMetadata(T),
}

pub enum QueryMsg {
    GetMetadata,
}

#[derive(Debug, PartialEq, Eq)]
pub enum QueryResp<T> {
    Metadata(T),
}

#[derive(Debug, PartialEq, Eq)]
pub enum MetadataError {
    Unauthorized,
}

/// The metadata module's state: one record of schema `T`.
pub struct Metadata<T> {
    pub metadata: T,
}

impl<T> Metadata<T> {
    /// A metadata module holding `metadata`.
    pub fn new(metadata: T) -> (s: Self)
        ensures
            s.metadata == metadata,
    {
        Metadata { metadata }
    }

    /// The stored record.
    pub fn get_metadata(&self) -> (r: &T)
        ensures
            r == &self.metadata,
    {
        &self.metadata
    }

    /// Replaces the record wholesale. Fails with `Unauthorized` unless the
    /// caller is the owner held by the shared ownership module; on failure
    /// the state is unchanged.
    pub fn set_metadata(&mut self, ownable: &Ownable, caller: &String, meta: T) -> (r: Result<
        Response,
        MetadataError,
    >)
        ensures
            match r {
                Ok(resp) => caller@ == ownable.owner@ && final(self).metadata == meta
                    && resp.is_empty(),
                Err(e) => e == MetadataError::Unauthorized && caller@ != ownable.owner@
                    && *final(self) == *old(self),
            },
    {
        if !ownable.is_owner(caller) {
            Err(MetadataError::Unauthorized)
        } else {
            self.metadata = meta;
            Ok(Response::new())
        }
    }

    /// Stores the configured initial record. Always succeeds with an empty
    /// response.
    pub fn instantiate(&mut self, _env: &Env, _info: &MessageInfo, msg: InstantiateMsg<T>) -> (r:
        Result<Response, MetadataError>)
        ensures
            match r {
                Ok(resp) => final(self).metadata == msg.metadata && resp.is_empty(),
                Err(_) => false,
            },
    {
        self.metadata = msg.metadata;
        Ok(Response::new())
    }

    /// Routes an execute message: `SetMetadata` replaces the record, gated on
    /// the caller being the owner.
    pub fn execute(&mut self, ownable: &Ownable, _env: &Env, info: &MessageInfo, msg: ExecuteMsg<
        T,
    >) -> (r: Result<Response, MetadataError>)
        ensures
            match r {
                Ok(resp) => (match msg {
                    ExecuteMsg::SetMetadata(meta) => info.sender@ == ownable.owner@
                        && final(self).metadata == meta && resp.is_empty(),
                }),
                Err(e) => e == MetadataError::Unauthorized && info.sender@ != ownable.owner@
                    && *final(self) == *old(self),
            },
    {
        match msg {
            ExecuteMsg::SetMetadata(meta) => self.set_metadata(ownable, &info.sender, meta),
        }
    }
}

impl<T: Clone> Metadata<T> {
    /// Routes a query message; read-only. `GetMetadata` answers with a clone
    /// of the stored record.
    pub fn query(&self, _env: &Env, msg: QueryMsg) -> (r: Result<QueryResp<T>, MetadataError>)
        ensures
            match r {
                Ok(resp) => (match msg {
                    QueryMsg::GetMetadata => (match resp {
                        QueryResp::Metadata(m) => cloned(self.metadata, m),
                    }),
                }),
                Err(_) => false,
            },
    {
        match msg {
            QueryMsg::GetMetadata => Ok(QueryResp::Metadata(self.metadata.clone())),
        }
    }
}

} // verus!
