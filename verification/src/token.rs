//! The NFT token ledger: mint, transfer, approval bookkeeping and
//! enumeration. Tokens are never deleted; ownership is reassigned on
//! transfer or purchase, and approvals are cleared whenever ownership
//! changes hands.

use vstd::prelude::*;
use crate::types::{Env, MessageInfo};
use crate::response::Response;

verus! {

/// A transfer grant on one token: `grantee` may send it while
/// `now < expires`.
#[derive(Debug, PartialEq, Eq)]
pub struct Approval {
    pub grantee: String,
    pub expires: u64,
}

impl Clone for Approval {
    fn clone(&self) -> (r: Self)
        ensures
            r == *self,
    {
        Approval { grantee: self.grantee.clone(), expires: self.expires }
    }
}

/// Any clone of an approval equals the original, because `Approval::clone`
/// promises exactly that.
pub proof fn lemma_cloned_approval(a: Approval, b: Approval)
    requires
        cloned(a, b),
    ensures
        a == b,
{
}

/// One ledger entry, with a caller-chosen extension schema `X`.
pub struct Token<X> {
    pub id: String,
    pub owner: String,
    pub approvals: Vec<Approval>,
    pub token_uri: Option<String>,
    pub extension: X,
}

/// The payload of a mint operation.
pub struct MintMsg<X> {
    pub token_id: String,
    pub owner: String,
    pub token_uri: Option<String>,
    pub extension: X,
}

pub struct InstantiateMsg {
    pub name: String,
    pub symbol: String,
    pub minter: String,
}

pub enum ExecuteMsg<X> {
    Mint(MintMsg<X>),
    TransferNft { recipient: String, token_id: String },
    Approve { spender: String, token_id: String, expires: u64 },
}

pub enum QueryMsg {
    NumTokens,
    OwnerOf { token_id: String },
    AllTokens { start_after: Option<String>, limit: Option<usize>, descending: bool },
}

#[derive(Debug, PartialEq, Eq)]
pub enum QueryResp {
    NumTokens(u64),
    OwnerOf { owner: String, approvals: Vec<Approval> },
    Tokens(Vec<String>),
}

#[derive(Debug, PartialEq, Eq)]
pub enum TokenError {
    Unauthorized,
    NotFound,
    Conflict,
}

/// The token ledger's state: collection identity, the designated minter,
/// and the entries in mint order.
pub struct Tokens<X> {
    pub name: String,
    pub symbol: String,
    pub minter: String,
    pub tokens: Vec<Token<X>>,
}

/// Whether `addr` holds an unexpired approval on `t` at time `now`.
pub open spec fn spec_approved<X>(t: Token<X>, addr: Seq<char>, now: u64) -> bool {
    exists|i: int|
        0 <= i < t.approvals@.len() && t.approvals@[i].grantee@ == addr && now
            < t.approvals@[i].expires
}

/// Whether `addr` may send `t` at time `now`: it owns the token or holds an
/// unexpired approval.
pub open spec fn spec_can_send<X>(t: Token<X>, addr: Seq<char>, now: u64) -> bool {
    t.owner@ == addr || spec_approved(t, addr, now)
}

impl<X> Tokens<X> {
    /// Well-formedness: token ids are pairwise distinct.
    pub open spec fn wf(self) -> bool {
        forall|i: int, j: int|
            0 <= i < j < self.tokens@.len() ==> self.tokens@[i].id@ != self.tokens@[j].id@
    }

    /// Whether a token with this id exists.
    pub open spec fn has_id(self, id: Seq<char>) -> bool {
        exists|i: int| 0 <= i < self.tokens@.len() && self.tokens@[i].id@ == id
    }

    /// The position of the token with this id (meaningful under `wf` and
    /// `has_id`).
    pub open spec fn index_of(self, id: Seq<char>) -> int {
        choose|i: int| 0 <= i < self.tokens@.len() && self.tokens@[i].id@ == id
    }

    /// The ledger entry with this id.
    pub open spec fn spec_token(self, id: Seq<char>) -> Token<X> {
        self.tokens@[self.index_of(id)]
    }

    /// The token ids in mint order.
    pub open spec fn id_seq(self) -> Seq<Seq<char>> {
        self.tokens@.map_values(|t: Token<X>| t.id@)
    }

    /// Collection identity and minter designation, kept by every operation.
    pub open spec fn same_config(self, other: Tokens<X>) -> bool {
        self.name == other.name && self.symbol == other.symbol && self.minter == other.minter
    }
}

/// A successful mint: the fresh token is appended, everything else is kept.
pub open spec fn mint_ok<X>(
    pre: Tokens<X>,
    post: Tokens<X>,
    token_id: String,
    owner: String,
    token_uri: Option<String>,
    extension: X,
) -> bool {
    &&& !pre.has_id(token_id@)
    &&& post.tokens@.len() == pre.tokens@.len() + 1
    &&& post.tokens@.take(pre.tokens@.len() as int) == pre.tokens@
    &&& post.tokens@.last().id == token_id
    &&& post.tokens@.last().owner == owner
    &&& post.tokens@.last().approvals@ == Seq::<Approval>::empty()
    &&& post.tokens@.last().token_uri == token_uri
    &&& post.tokens@.last().extension == extension
    &&& post.same_config(pre)
}

/// A successful ownership transfer: the entry keeps its id, uri and
/// extension, gets `recipient` as owner, loses every approval; every other
/// entry is untouched.
pub open spec fn transfer_ok<X>(
    pre: Tokens<X>,
    post: Tokens<X>,
    id: Seq<char>,
    recipient: String,
) -> bool {
    let at = pre.index_of(id);
    &&& pre.has_id(id)
    &&& post.tokens@.len() == pre.tokens@.len()
    &&& (forall|k: int| 0 <= k < pre.tokens@.len() && k != at ==> post.tokens@[k] == pre.tokens@[k])
    &&& post.tokens@[at].id == pre.tokens@[at].id
    &&& post.tokens@[at].owner == recipient
    &&& post.tokens@[at].approvals@ == Seq::<Approval>::empty()
    &&& post.tokens@[at].token_uri == pre.tokens@[at].token_uri
    &&& post.tokens@[at].extension == pre.tokens@[at].extension
    &&& post.same_config(pre)
}

/// A successful approval: one grant is appended to the entry's approvals;
/// everything else is kept.
pub open spec fn approve_ok<X>(
    pre: Tokens<X>,
    post: Tokens<X>,
    id: Seq<char>,
    spender: String,
    expires: u64,
) -> bool {
    let at = pre.index_of(id);
    &&& pre.has_id(id)
    &&& post.tokens@.len() == pre.tokens@.len()
    &&& (forall|k: int| 0 <= k < pre.tokens@.len() && k != at ==> post.tokens@[k] == pre.tokens@[k])
    &&& post.tokens@[at].id == pre.tokens@[at].id
    &&& post.tokens@[at].owner == pre.tokens@[at].owner
    &&& post.tokens@[at].approvals@ == pre.tokens@[at].approvals@.push(
        Approval { grantee: spender, expires },
    )
    &&& post.tokens@[at].token_uri == pre.tokens@[at].token_uri
    &&& post.tokens@[at].extension == pre.tokens@[at].extension
    &&& post.same_config(pre)
}

impl<X> Default for Tokens<X> {
    /// An empty ledger before instantiation.
    fn default() -> (s: Self)
        ensures
            s.tokens@.len() == 0,
            s.wf(),
    {
        Tokens {
            name: String::new(),
            symbol: String::new(),
            minter: String::new(),
            tokens: Vec::new(),
        }
    }
}

impl<X> Tokens<X> {
    /// The position of the token with this id, if any.
    fn find_index(&self, id: &String) -> (r: Option<usize>)
        ensures
            match r {
                Some(i) => i < self.tokens@.len() && self.tokens@[i as int].id@ == id@ && (
                self.wf() ==> i as int == self.index_of(id@)),
                None => !self.has_id(id@),
            },
    {
        let mut i: usize = 0;
        while i < self.tokens.len()
            invariant
                0 <= i <= self.tokens@.len(),
                forall|k: int| 0 <= k < i ==> self.tokens@[k].id@ != id@,
            decreases self.tokens@.len() - i,
        {
            if self.tokens[i].id == *id {
                proof {
                    assert(self.has_id(id@));
                    if self.wf() {
                        let w = self.index_of(id@);
                        assert(0 <= w < self.tokens@.len() && self.tokens@[w].id@ == id@);
                        assert(w == i as int);
                    }
                }
                return Some(i);
            }
            i = i + 1;
        }
        None
    }

    /// Stores the collection identity and the designated minter. Always
    /// succeeds with an empty response; the ledger starts empty.
    pub fn instantiate(&mut self, _env: &Env, _info: &MessageInfo, msg: InstantiateMsg) -> (r:
        Result<Response, TokenError>)
        ensures
            final(self).wf(),
            match r {
                Ok(resp) => final(self).name == msg.name && final(self).symbol == msg.symbol
                    && final(self).minter == msg.minter && final(self).tokens@ == Seq::<
                    Token<X>,
                >::empty() && resp.is_empty(),
                Err(_) => false,
            },
    {
        self.name = msg.name;
        self.symbol = msg.symbol;
        self.minter = msg.minter;
        self.tokens = Vec::new();
        Ok(Response::new())
    }

    /// Appends a fresh token. Fails with `Conflict` if the id already
    /// exists; on failure the state is unchanged. Callers gate who may mint:
    /// the message route demands the designated minter, the sales module
    /// mints on behalf of the contract.
    pub fn mint(
        &mut self,
        token_id: String,
        owner: String,
        token_uri: Option<String>,
        extension: X,
    ) -> (r: Result<Response, TokenError>)
        requires
            old(self).wf(),
        ensures
            final(self).wf(),
            match r {
                Ok(resp) => mint_ok(*old(self), *final(self), token_id, owner, token_uri, extension)
                    && resp.is_empty(),
                Err(e) => e == TokenError::Conflict && old(self).has_id(token_id@) && *final(self)
                    == *old(self),
            },
    {
        if self.find_index(&token_id).is_some() {
            return Err(TokenError::Conflict);
        }
        let ghost pre = self.tokens@;
        let t = Token {
            id: token_id,
            owner,
            approvals: Vec::new(),
            token_uri,
            extension,
        };
        self.tokens.push(t);
        proof {
            assert(self.tokens@.take(pre.len() as int) =~= pre);
            assert forall|i: int, j: int|
                0 <= i < j < self.tokens@.len() implies self.tokens@[i].id@
                != self.tokens@[j].id@ by {
                if j < pre.len() {
                } else {
                    assert(self.tokens@[j].id@ == t.id@);
                }
            }
        }
        Ok(Response::new())
    }

    /// Reassigns ownership and clears approvals, without an authorization
    /// check; the message route and the marketplace modules decide who may
    /// cause it. Fails with `NotFound` if the id does not exist; on failure
    /// the state is unchanged.
    pub fn transfer_internal(&mut self, id: &String, recipient: String) -> (r: Result<
        Response,
        TokenError,
    >)
        requires
            old(self).wf(),
        ensures
            final(self).wf(),
            match r {
                Ok(resp) => transfer_ok(*old(self), *final(self), id@, recipient)
                    && resp.is_empty(),
                Err(e) => e == TokenError::NotFound && !old(self).has_id(id@) && *final(self)
                    == *old(self),
            },
    {
        let at = match self.find_index(id) {
            Some(i) => i,
            None => {
                return Err(TokenError::NotFound);
            },
        };
        let ghost pre = *self;
        let mut t = self.tokens.remove(at);
        t.owner = recipient;
        t.approvals = Vec::new();
        self.tokens.insert(at, t);
        proof {
            assert(self.tokens@ =~= pre.tokens@.update(at as int, self.tokens@[at as int]));
        }
        Ok(Response::new())
    }

    /// Reassigns ownership on behalf of `caller`: allowed for the current
    /// owner and for an unexpired approved grantee; approvals are cleared on
    /// success. Fails with `NotFound` for a missing id and `Unauthorized`
    /// for any other caller; on failure the state is unchanged.
    pub fn transfer(&mut self, now: u64, caller: &String, recipient: String, id: &String) -> (r:
        Result<Response, TokenError>)
        requires
            old(self).wf(),
        ensures
            final(self).wf(),
            match r {
                Ok(resp) => spec_can_send(old(self).spec_token(id@), caller@, now) && transfer_ok(
                    *old(self),
                    *final(self),
                    id@,
                    recipient,
                ) && resp.is_empty(),
                Err(e) => *final(self) == *old(self) && (match e {
                    TokenError::NotFound => !old(self).has_id(id@),
                    TokenError::Unauthorized => old(self).has_id(id@) && !spec_can_send(
                        old(self).spec_token(id@),
                        caller@,
                        now,
                    ),
                    TokenError::Conflict => false,
                }),
            },
    {
        let at = match self.find_index(id) {
            Some(i) => i,
            None => {
                return Err(TokenError::NotFound);
            },
        };
        if !self.can_send(at, caller, now) {
            return Err(TokenError::Unauthorized);
        }
        self.transfer_internal(id, recipient)
    }

    /// Whether `caller` may send the token at position `at` at time `now`.
    fn can_send(&self, at: usize, caller: &String, now: u64) -> (r: bool)
        requires
            at < self.tokens@.len(),
        ensures
            r == spec_can_send(self.tokens@[at as int], caller@, now),
    {
        let t = &self.tokens[at];
        if t.owner == *caller {
            return true;
        }
        let mut i: usize = 0;
        while i < t.approvals.len()
            invariant
                0 <= i <= t.approvals@.len(),
                t == &self.tokens@[at as int],
                forall|k: int|
                    0 <= k < i ==> !(t.approvals@[k].grantee@ == caller@ && now
                        < t.approvals@[k].expires),
            decreases t.approvals@.len() - i,
        {
            if t.approvals[i].grantee == *caller && now < t.approvals[i].expires {
                return true;
            }
            i = i + 1;
        }
        false
    }

    /// Appends an approval on behalf of `caller`, who must own the token.
    /// Fails with `NotFound` for a missing id and `Unauthorized` for any
    /// other caller; on failure the state is unchanged.
    pub fn approve(&mut self, caller: &String, spender: String, id: &String, expires: u64) -> (r:
        Result<Response, TokenError>)
        requires
            old(self).wf(),
        ensures
            final(self).wf(),
            match r {
                Ok(resp) => old(self).spec_token(id@).owner@ == caller@ && approve_ok(
                    *old(self),
                    *final(self),
                    id@,
                    spender,
                    expires,
                ) && resp.is_empty(),
                Err(e) => *final(self) == *old(self) && (match e {
                    TokenError::NotFound => !old(self).has_id(id@),
                    TokenError::Unauthorized => old(self).has_id(id@) && old(self).spec_token(
                        id@,
                    ).owner@ != caller@,
                    TokenError::Conflict => false,
                }),
            },
    {
        let at = match self.find_index(id) {
            Some(i) => i,
            None => {
                return Err(TokenError::NotFound);
            },
        };
        if self.tokens[at].owner != *caller {
            return Err(TokenError::Unauthorized);
        }
        let ghost pre = *self;
        let mut t = self.tokens.remove(at);
        t.approvals.push(Approval { grantee: spender, expires });
        self.tokens.insert(at, t);
        proof {
            assert(self.tokens@ =~= pre.tokens@.update(at as int, self.tokens@[at as int]));
        }
        Ok(Response::new())
    }

    /// The owner of the token with this id, if any.
    pub fn owner_of(&self, id: &String) -> (r: Option<String>)
        requires
            self.wf(),
        ensures
            match r {
                Some(o) => self.has_id(id@) && o == self.spec_token(id@).owner,
                None => !self.has_id(id@),
            },
    {
        match self.find_index(id) {
            Some(at) => Some(self.tokens[at].owner.clone()),
            None => None,
        }
    }

    /// Whether a token with this id exists.
    pub fn has_token(&self, id: &String) -> (r: bool)
        ensures
            r == self.has_id(id@),
    {
        self.find_index(id).is_some()
    }

    /// The number of tokens ever minted.
    pub fn num_tokens(&self) -> (r: u64)
        ensures
            r == self.tokens@.len(),
    {
        self.tokens.len() as u64
    }

    /// The ids in traversal order: mint order ascending, or reversed.
    pub open spec fn traversal(self, descending: bool) -> Seq<Seq<char>> {
        if descending {
            self.id_seq().reverse()
        } else {
            self.id_seq()
        }
    }

    /// What `enumerate` produces: the traversal, restarted after
    /// `start_after` where that id occurs, cut to `limit` entries.
    pub open spec fn spec_enumerate(
        self,
        start_after: Option<Seq<char>>,
        limit: Option<usize>,
        descending: bool,
    ) -> Seq<Seq<char>> {
        let tr = self.traversal(descending);
        let rest = match start_after {
            Some(s) => if seq_contains_id(tr, s) {
                tr.skip(spec_first_index(tr, s) + 1)
            } else {
                tr
            },
            None => tr,
        };
        match limit {
            Some(l) => if (l as int) < rest.len() {
                rest.take(l as int)
            } else {
                rest
            },
            None => rest,
        }
    }

    /// A finite, restartable page of token ids: ascending or descending mint
    /// order, starting after `start_after` where given, at most `limit`
    /// entries where given.
    pub fn enumerate(&self, start_after: Option<&String>, limit: Option<usize>, descending: bool)
        -> (r: Vec<String>)
        requires
            self.wf(),
        ensures
            r@.map_values(|s: String| s@) == self.spec_enumerate(
                match start_after {
                    Some(s) => Some(s@),
                    None => None,
                },
                limit,
                descending,
            ),
    {
        let ghost tr = self.traversal(descending);
        proof {
            assert forall|a: int, b: int| 0 <= a < b < tr.len() implies tr[a] != tr[b] by {
                if descending {
                    let n = self.tokens@.len() as int;
                    assert(tr[a] == self.tokens@[n - 1 - a].id@);
                    assert(tr[b] == self.tokens@[n - 1 - b].id@);
                } else {
                    assert(tr[a] == self.tokens@[a].id@);
                    assert(tr[b] == self.tokens@[b].id@);
                }
            }
        }
        // collect the ids in traversal order
        let n = self.tokens.len();
        let mut ids: Vec<String> = Vec::new();
        let mut i: usize = 0;
        while i < n
            invariant
                0 <= i <= n,
                n == self.tokens@.len(),
                tr == self.traversal(descending),
                tr.len() == n,
                ids@.len() == i,
                ids@.map_values(|s: String| s@) == tr.take(i as int),
            decreases n - i,
        {
            let id = if descending {
                self.tokens[n - 1 - i].id.clone()
            } else {
                self.tokens[i].id.clone()
            };
            proof {
                assert(id@ == tr[i as int]);
                assert(ids@.push(id).map_values(|s: String| s@) =~= tr.take(i as int).push(
                    tr[i as int],
                ));
                assert(tr.take(i as int).push(tr[i as int]) =~= tr.take(i + 1));
            }
            ids.push(id);
            i = i + 1;
        }
        proof {
            assert(tr.take(n as int) =~= tr);
        }
        // restart after the given id, where it occurs
        let ghost uniq: bool = forall|a: int, b: int| 0 <= a < b < tr.len() ==> tr[a] != tr[b];
        let mut start: usize = 0;
        if let Some(s) = start_after {
            match find_string_pos(&ids, s) {
                Some(p) => {
                    proof {
                        assert(tr[p as int] == s@);
                        assert(seq_contains_id(tr, s@));
                        let w = spec_first_index(tr, s@);
                        assert(0 <= w < tr.len() && tr[w] == s@);
                        assert(uniq);
                        assert(w == p as int);
                    }
                    start = p + 1;
                },
                None => {
                    proof {
                        assert forall|k: int| 0 <= k < tr.len() implies tr[k] != s@ by {
                            assert(ids@[k]@ != s@);
                        }
                        assert(!seq_contains_id(tr, s@));
                    }
                },
            }
        }
        proof {
            match start_after {
                Some(s) => {
                    if seq_contains_id(tr, s@) {
                        assert(start as int == spec_first_index(tr, s@) + 1);
                    } else {
                        assert(start == 0);
                        assert(tr.skip(0) =~= tr);
                    }
                },
                None => {
                    assert(tr.skip(0) =~= tr);
                },
            }
        }
        let ghost rest = tr.skip(start as int);
        // cut to the page limit
        let cap: usize = match limit {
            Some(l) => l,
            None => n,
        };
        let mut out: Vec<String> = Vec::new();
        let mut q: usize = start;
        while q < n && out.len() < cap
            invariant
                start <= q <= n,
                n == ids@.len(),
                ids@.map_values(|s: String| s@) == tr,
                rest == tr.skip(start as int),
                out@.len() == q - start,
                out@.len() <= cap,
                out@.map_values(|s: String| s@) == rest.take(q - start),
            decreases n - q,
        {
            let id = ids[q].clone();
            proof {
                assert(id@ == tr[q as int]);
                assert(tr[q as int] == rest[q - start]);
                assert(out@.push(id).map_values(|s: String| s@) =~= rest.take(q - start).push(
                    rest[q - start],
                ));
                assert(rest.take(q - start).push(rest[q - start]) =~= rest.take(q + 1 - start));
            }
            out.push(id);
            q = q + 1;
        }
        proof {
            let se: Option<Seq<char>> = match start_after {
                Some(s) => Some(s@),
                None => None,
            };
            let rest_spec: Seq<Seq<char>> = match se {
                Some(s) => if seq_contains_id(tr, s) {
                    tr.skip(spec_first_index(tr, s) + 1)
                } else {
                    tr
                },
                None => tr,
            };
            assert(rest == rest_spec);
            assert(rest.len() == n - start);
            if q == n {
                assert(rest.take(q - start) =~= rest);
                assert(out@.map_values(|s: String| s@) == rest);
                match limit {
                    Some(l) => {
                        assert(out@.len() == rest.len());
                        assert(out@.len() <= l);
                        assert(!((l as int) < rest.len()));
                    },
                    None => {},
                }
            } else {
                assert(out@.len() == cap);
                match limit {
                    Some(l) => {
                        assert(cap == l);
                        assert(out@.len() == q - start);
                        assert((l as int) < rest.len());
                        assert(out@.map_values(|s: String| s@) == rest.take(l as int));
                    },
                    None => {
                        assert(cap == n);
                        assert(q - start == n);
                        assert(false);
                    },
                }
            }
            assert(out@.map_values(|s: String| s@) == self.spec_enumerate(se, limit, descending));
        }
        out
    }
}

impl<X> Tokens<X> {
    /// Routes an execute message. `Mint` demands the designated minter;
    /// `TransferNft` the owner or an unexpired grantee; `Approve` the owner.
    pub fn execute(&mut self, env: &Env, info: &MessageInfo, msg: ExecuteMsg<X>) -> (r: Result<
        Response,
        TokenError,
    >)
        requires
            old(self).wf(),
        ensures
            final(self).wf(),
            match msg {
                ExecuteMsg::Mint(m) => match r {
                    Ok(resp) => info.sender@ == old(self).minter@ && mint_ok(
                        *old(self),
                        *final(self),
                        m.token_id,
                        m.owner,
                        m.token_uri,
                        m.extension,
                    ) && resp.is_empty(),
                    Err(e) => *final(self) == *old(self) && (match e {
                        TokenError::Unauthorized => info.sender@ != old(self).minter@,
                        TokenError::Conflict => info.sender@ == old(self).minter@ && old(
                            self,
                        ).has_id(m.token_id@),
                        TokenError::NotFound => false,
                    }),
                },
                ExecuteMsg::TransferNft { recipient, token_id } => match r {
                    Ok(resp) => spec_can_send(
                        old(self).spec_token(token_id@),
                        info.sender@,
                        env.time,
                    ) && transfer_ok(*old(self), *final(self), token_id@, recipient)
                        && resp.is_empty(),
                    Err(e) => *final(self) == *old(self) && (match e {
                        TokenError::NotFound => !old(self).has_id(token_id@),
                        TokenError::Unauthorized => old(self).has_id(token_id@) && !spec_can_send(
                            old(self).spec_token(token_id@),
                            info.sender@,
                            env.time,
                        ),
                        TokenError::Conflict => false,
                    }),
                },
                ExecuteMsg::Approve { spender, token_id, expires } => match r {
                    Ok(resp) => old(self).spec_token(token_id@).owner@ == info.sender@
                        && approve_ok(*old(self), *final(self), token_id@, spender, expires)
                        && resp.is_empty(),
                    Err(e) => *final(self) == *old(self) && (match e {
                        TokenError::NotFound => !old(self).has_id(token_id@),
                        TokenError::Unauthorized => old(self).has_id(token_id@) && old(
                            self,
                        ).spec_token(token_id@).owner@ != info.sender@,
                        TokenError::Conflict => false,
                    }),
                },
            },
    {
        match msg {
            ExecuteMsg::Mint(m) => {
                if info.sender != self.minter {
                    return Err(TokenError::Unauthorized);
                }
                self.mint(m.token_id, m.owner, m.token_uri, m.extension)
            },
            ExecuteMsg::TransferNft { recipient, token_id } => {
                self.transfer(env.time, &info.sender, recipient, &token_id)
            },
            ExecuteMsg::Approve { spender, token_id, expires } => {
                self.approve(&info.sender, spender, &token_id, expires)
            },
        }
    }

    /// Routes a query message; read-only.
    pub fn query(&self, _env: &Env, msg: QueryMsg) -> (r: Result<QueryResp, TokenError>)
        requires
            self.wf(),
        ensures
            match msg {
                QueryMsg::NumTokens => (match r {
                    Ok(resp) => resp == QueryResp::NumTokens(self.tokens@.len() as u64),
                    Err(_) => false,
                }),
                QueryMsg::OwnerOf { token_id } => (match r {
                    Ok(resp) => self.has_id(token_id@) && (match resp {
                        QueryResp::OwnerOf { owner, approvals } => owner@ == self.spec_token(
                            token_id@,
                        ).owner@ && approvals@ == self.spec_token(token_id@).approvals@,
                        _ => false,
                    }),
                    Err(e) => e == TokenError::NotFound && !self.has_id(token_id@),
                }),
                QueryMsg::AllTokens { start_after, limit, descending } => (match r {
                    Ok(resp) => (match resp {
                        QueryResp::Tokens(ids) => ids@.map_values(|s: String| s@)
                            == self.spec_enumerate(
                            match start_after {
                                Some(s) => Some(s@),
                                None => None,
                            },
                            limit,
                            descending,
                        ),
                        _ => false,
                    }),
                    Err(_) => false,
                }),
            },
    {
        match msg {
            QueryMsg::NumTokens => Ok(QueryResp::NumTokens(self.num_tokens())),
            QueryMsg::OwnerOf { token_id } => {
                let at = match self.find_index(&token_id) {
                    Some(i) => i,
                    None => {
                        return Err(TokenError::NotFound);
                    },
                };
                let t = &self.tokens[at];
                let owner = t.owner.clone();
                let approvals = t.approvals.clone();
                proof {
                    assert forall|k: int|
                        0 <= k < approvals@.len() implies approvals@[k] == t.approvals@[k] by {
                        lemma_cloned_approval(t.approvals@[k], approvals@[k]);
                    }
                    assert(approvals@ =~= t.approvals@);
                }
                Ok(QueryResp::OwnerOf { owner, approvals })
            },
            QueryMsg::AllTokens { start_after, limit, descending } => {
                let ids = self.enumerate(start_after.as_ref(), limit, descending);
                Ok(QueryResp::Tokens(ids))
            },
        }
    }
}

/// The position of the first element of `ids` equal to `s`, if any.
pub fn find_string_pos(ids: &Vec<String>, s: &String) -> (r: Option<usize>)
    ensures
        match r {
            Some(p) => p < ids@.len() && ids@[p as int]@ == s@ && (forall|k: int|
                0 <= k < p ==> ids@[k]@ != s@),
            None => forall|k: int| 0 <= k < ids@.len() ==> ids@[k]@ != s@,
        },
{
    let mut p: usize = 0;
    while p < ids.len()
        invariant
            0 <= p <= ids@.len(),
            forall|k: int| 0 <= k < p ==> ids@[k]@ != s@,
        decreases ids@.len() - p,
    {
        if ids[p] == *s {
            return Some(p);
        }
        p = p + 1;
    }
    None
}

/// A mint keeps every id that existed before.
pub proof fn lemma_mint_preserves_ids<X>(
    pre: Tokens<X>,
    post: Tokens<X>,
    token_id: String,
    owner: String,
    token_uri: Option<String>,
    extension: X,
)
    requires
        mint_ok(pre, post, token_id, owner, token_uri, extension),
    ensures
        forall|id2: Seq<char>| pre.has_id(id2) ==> post.has_id(id2),
{
    assert forall|id2: Seq<char>| pre.has_id(id2) implies post.has_id(id2) by {
        let w = choose|i: int| 0 <= i < pre.tokens@.len() && pre.tokens@[i].id@ == id2;
        assert(post.tokens@.take(pre.tokens@.len() as int)[w] == pre.tokens@[w]);
        assert(post.tokens@[w].id@ == id2);
    }
}

/// An approval changes no token id: exactly the ids of the old ledger exist
/// afterwards.
pub proof fn lemma_approve_same_ids<X>(
    pre: Tokens<X>,
    post: Tokens<X>,
    id: Seq<char>,
    spender: String,
    expires: u64,
)
    requires
        pre.wf(),
        approve_ok(pre, post, id, spender, expires),
    ensures
        post.wf(),
        forall|id2: Seq<char>| pre.has_id(id2) <==> post.has_id(id2),
{
    let at = pre.index_of(id);
    assert(0 <= at < pre.tokens@.len() && pre.tokens@[at].id@ == id);
    assert forall|k: int| 0 <= k < pre.tokens@.len() implies post.tokens@[k].id@
        == pre.tokens@[k].id@ by {
        if k != at {
            assert(post.tokens@[k] == pre.tokens@[k]);
        }
    }
    assert forall|id2: Seq<char>| pre.has_id(id2) implies post.has_id(id2) by {
        let w = choose|i: int| 0 <= i < pre.tokens@.len() && pre.tokens@[i].id@ == id2;
        assert(post.tokens@[w].id@ == id2);
    }
    assert forall|id2: Seq<char>| post.has_id(id2) implies pre.has_id(id2) by {
        let w = choose|i: int| 0 <= i < post.tokens@.len() && post.tokens@[i].id@ == id2;
        assert(pre.tokens@[w].id@ == id2);
    }
}

/// A transfer changes no token id: exactly the ids of the old ledger exist
/// afterwards.
pub proof fn lemma_transfer_same_ids<X>(
    pre: Tokens<X>,
    post: Tokens<X>,
    id: Seq<char>,
    recipient: String,
)
    requires
        pre.wf(),
        transfer_ok(pre, post, id, recipient),
    ensures
        post.wf(),
        forall|id2: Seq<char>| pre.has_id(id2) <==> post.has_id(id2),
{
    let at = pre.index_of(id);
    assert(0 <= at < pre.tokens@.len() && pre.tokens@[at].id@ == id);
    assert forall|k: int| 0 <= k < pre.tokens@.len() implies post.tokens@[k].id@
        == pre.tokens@[k].id@ by {
        if k != at {
            assert(post.tokens@[k] == pre.tokens@[k]);
        }
    }
    assert forall|id2: Seq<char>| pre.has_id(id2) implies post.has_id(id2) by {
        let w = choose|i: int| 0 <= i < pre.tokens@.len() && pre.tokens@[i].id@ == id2;
        assert(post.tokens@[w].id@ == id2);
    }
    assert forall|id2: Seq<char>| post.has_id(id2) implies pre.has_id(id2) by {
        let w = choose|i: int| 0 <= i < post.tokens@.len() && post.tokens@[i].id@ == id2;
        assert(pre.tokens@[w].id@ == id2);
    }
}

/// Whether `ids` contains `s`.
pub open spec fn seq_contains_id(ids: Seq<Seq<char>>, s: Seq<char>) -> bool {
    exists|i: int| 0 <= i < ids.len() && ids[i] == s
}

/// The position of `s` in `ids` (meaningful when contained and `ids` has no
/// repeats).
pub open spec fn spec_first_index(ids: Seq<Seq<char>>, s: Seq<char>) -> int {
    choose|i: int| 0 <= i < ids.len() && ids[i] == s
}

} // verus!
