//! Redemption locking: a monotonic set of token ids marked redeemed. Once an
//! id is added it is never removed, and redeeming the same id twice fails —
//! redemption is a one-time, auditable event.

use vstd::prelude::*;
use crate::types::{Env, MessageInfo};
use crate::response::Response;
use crate::token::Tokens;

verus! {

pub struct InstantiateMsg {}

pub enum ExecuteMsg {
    RedeemItem(String),
}

pub enum QueryMsg {
    IsRedeemed(String),
}

#[derive(Debug, PartialEq, Eq)]
pub enum QueryResp {
    IsRedeemed(bool),
}

#[derive(Debug, PartialEq, Eq)]
pub enum RedeemableError {
    NotFound,
    Conflict,
}

/// The redemption module's state: the ids redeemed so far, in redemption
/// order.
pub struct Redeemable {
    pub redeemed_items: Vec<String>,
}

impl Redeemable {
    /// Well-formedness: no id is recorded twice.
    pub open spec fn wf(self) -> bool {
        forall|i: int, j: int|
            0 <= i < j < self.redeemed_items@.len() ==> self.redeemed_items@[i]@
                != self.redeemed_items@[j]@
    }

    /// Whether `id` has been redeemed.
    pub open spec fn contains(self, id: Seq<char>) -> bool {
        exists|i: int|
            0 <= i < self.redeemed_items@.len() && self.redeemed_items@[i]@ == id
    }
}

impl Default for Redeemable {
    /// A redemption module with nothing redeemed.
    fn default() -> (s: Self)
        ensures
            s.redeemed_items@.len() == 0,
            s.wf(),
    {
        Redeemable { redeemed_items: Vec::new() }
    }
}

/// A successful redemption: `id` is appended to the set, nothing is removed.
pub open spec fn redeem_ok(pre: Redeemable, post: Redeemable, id: Seq<char>) -> bool {
    &&& !pre.contains(id)
    &&& post.redeemed_items@.len() == pre.redeemed_items@.len() + 1
    &&& post.redeemed_items@.take(pre.redeemed_items@.len() as int) == pre.redeemed_items@
    &&& post.redeemed_items@.last()@ == id
}

impl Redeemable {
    /// Starts with nothing redeemed. Always succeeds with an empty response.
    pub fn instantiate(&mut self, _env: &Env, _info: &MessageInfo, _msg: InstantiateMsg) -> (r:
        Result<Response, RedeemableError>)
        ensures
            match r {
                Ok(resp) => final(self).redeemed_items@.len() == 0 && final(self).wf()
                    && resp.is_empty(),
                Err(_) => false,
            },
    {
        self.redeemed_items = Vec::new();
        Ok(Response::new())
    }

    /// Whether `id` has been redeemed.
    pub fn is_redeemed(&self, id: &String) -> (r: bool)
        ensures
            r == self.contains(id@),
    {
        let mut i: usize = 0;
        while i < self.redeemed_items.len()
            invariant
                0 <= i <= self.redeemed_items@.len(),
                forall|k: int| 0 <= k < i ==> self.redeemed_items@[k]@ != id@,
            decreases self.redeemed_items@.len() - i,
        {
            if self.redeemed_items[i] == *id {
                return true;
            }
            i = i + 1;
        }
        false
    }

    /// Marks `id` redeemed, irreversibly. Fails with `NotFound` if no such
    /// token exists in the ledger and with `Conflict` if the id was already
    /// redeemed; on failure the state is unchanged.
    pub fn redeem<X>(&mut self, tokens: &Tokens<X>, id: &String) -> (r: Result<
        Response,
        RedeemableError,
    >)
        requires
            old(self).wf(),
        ensures
            final(self).wf(),
            match r {
                Ok(resp) => tokens.has_id(id@) && redeem_ok(*old(self), *final(self), id@)
                    && resp.is_empty(),
                Err(e) => *final(self) == *old(self) && (match e {
                    RedeemableError::NotFound => !tokens.has_id(id@),
                    RedeemableError::Conflict => tokens.has_id(id@) && old(self).contains(id@),
                }),
            },
    {
        if !tokens.has_token(id) {
            return Err(RedeemableError::NotFound);
        }
        if self.is_redeemed(id) {
            return Err(RedeemableError::Conflict);
        }
        let ghost pre = self.redeemed_items@;
        self.redeemed_items.push(id.clone());
        proof {
            assert(self.redeemed_items@.take(pre.len() as int) =~= pre);
        }
        Ok(Response::new())
    }

    /// Routes an execute message: `RedeemItem` marks the id redeemed.
    pub fn execute<X>(
        &mut self,
        tokens: &Tokens<X>,
        _env: &Env,
        _info: &MessageInfo,
        msg: ExecuteMsg,
    ) -> (r: Result<Response, RedeemableError>)
        requires
            old(self).wf(),
        ensures
            final(self).wf(),
            match msg {
                ExecuteMsg::RedeemItem(id) => match r {
                    Ok(resp) => tokens.has_id(id@) && redeem_ok(*old(self), *final(self), id@)
                        && resp.is_empty(),
                    Err(e) => *final(self) == *old(self) && (match e {
                        RedeemableError::NotFound => !tokens.has_id(id@),
                        RedeemableError::Conflict => tokens.has_id(id@) && old(self).contains(id@),
                    }),
                },
            },
    {
        match msg {
            ExecuteMsg::RedeemItem(id) => self.redeem(tokens, &id),
        }
    }

    /// Routes a query message; read-only.
    pub fn query(&self, _env: &Env, msg: QueryMsg) -> (r: Result<QueryResp, RedeemableError>)
        ensures
            match msg {
                QueryMsg::IsRedeemed(id) => (match r {
                    Ok(resp) => resp == QueryResp::IsRedeemed(self.contains(id@)),
                    Err(_) => false,
                }),
            },
    {
        match msg {
            QueryMsg::IsRedeemed(id) => Ok(QueryResp::IsRedeemed(self.is_redeemed(&id))),
        }
    }
}

} // verus!
