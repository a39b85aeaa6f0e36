//! Single-owner access control. Every other module uses this as its sole
//! authorization primitive: exactly one owner exists after instantiation,
//! and only the current owner may replace it.

use vstd::prelude::*;
use crate::types::{Env, MessageInfo};
use crate::response::Response;

verus! {

pub struct InstantiateMsg {
    pub owner: String,
}

pub enum ExecuteMsg {
    SetOwner(String),
}

pub enum QueryMsg {
    /// IsOwner returns true if the address matches the owner.
    IsOwner(String),
}

#[derive(Debug, PartialEq, Eq)]
pub enum QueryResp {
    IsOwner(bool),
}

#[derive(Debug, PartialEq, Eq)]
pub enum OwnableError {
    Unauthorized,
}

/// The ownership module's state: the single owner address.
pub struct Ownable {
    pub owner: String,
}

impl Default for Ownable {
    /// An ownership module before instantiation, with the empty owner.
    fn default() -> (s: Self)
        ensures
            s.owner@ == Seq::<char>::empty(),
    {
        Ownable { owner: String::new() }
    }
}

impl Ownable {
    /// The current owner.
    pub fn get_owner(&self) -> (r: &String)
        ensures
            r == &self.owner,
    {
        &self.owner
    }

    /// Whether `addr` is the current owner.
    pub fn is_owner(&self, addr: &String) -> (r: bool)
        ensures
            r == (addr@ == self.owner@),
    {
        *addr == self.owner
    }

    /// Replaces the owner. Fails with `Unauthorized` unless the caller is the
    /// current owner; on failure the state is unchanged.
    pub fn set_owner(&mut self, caller: &String, addr: String) -> (r: Result<
        Response,
        OwnableError,
    >)
        ensures
            match r {
                Ok(resp) => caller@ == old(self).owner@ && final(self).owner == addr
                    && resp.is_empty(),
                Err(e) => e == OwnableError::Unauthorized && caller@ != old(self).owner@
                    && *final(self) == *old(self),
            },
    {
        if *caller != self.owner {
            Err(OwnableError::Unauthorized)
        } else {
            self.owner = addr;
            Ok(Response::new())
        }
    }

    /// Stores the configured owner. Always succeeds with an empty response.
    pub fn instantiate(&mut self, _env: &Env, _info: &MessageInfo, msg: InstantiateMsg) -> (r:
        Result<Response, OwnableError>)
        ensures
            match r {
                Ok(resp) => final(self).owner == msg.owner && resp.is_empty(),
                Err(_) => false,
            },
    {
        self.owner = msg.owner;
        Ok(Response::new())
    }

    /// Routes an execute message: `SetOwner` replaces the owner, gated on the
    /// caller being the current owner.
    pub fn execute(&mut self, _env: &Env, info: &MessageInfo, msg: ExecuteMsg) -> (r: Result<
        Response,
        OwnableError,
    >)
        ensures
            match r {
                Ok(resp) => (match msg {
                    ExecuteMsg::SetOwner(addr) => info.sender@ == old(self).owner@
                        && final(self).owner == addr && resp.is_empty(),
                }),
                Err(e) => e == OwnableError::Unauthorized && (match msg {
                    ExecuteMsg::SetOwner(_) => info.sender@ != old(self).owner@ && *final(self)
                        == *old(self),
                }),
            },
    {
        match msg {
            ExecuteMsg::SetOwner(addr) => self.set_owner(&info.sender, addr),
        }
    }

    /// Routes a query message; read-only.
    pub fn query(&self, _env: &Env, msg: QueryMsg) -> (r: Result<QueryResp, OwnableError>)
        ensures
            match r {
                Ok(resp) => (match msg {
                    QueryMsg::IsOwner(addr) => resp == QueryResp::IsOwner(
                        addr@ == self.owner@,
                    ),
                }),
                Err(_) => false,
            },
    {
        match msg {
            QueryMsg::IsOwner(addr) => Ok(QueryResp::IsOwner(self.is_owner(&addr))),
        }
    }
}

} // verus!
