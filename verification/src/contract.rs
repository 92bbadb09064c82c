//! The factory contract: deploy-or-route protocol for deposits and the
//! withdrawal relay.
//!
//! The contract owns the token registry and the binary-artifact slot. Entry
//! points decide synchronously what the execution environment must do; each
//! decision is returned as a plain value (a deployment, a credit, a
//! withdrawal call) that the surrounding shell dispatches asynchronously.

use crate::codec::{
    account_id_from_token_address, account_id_seq, address_from_token_account_id, copy_bytes,
    hex_decoded, valid_account_prefix, Address, ADDRESS_HEX_LEN,
};
use crate::encoding::{abi_encode_withdraw, encode_withdraw_seq};
use crate::errors::Error;
use crate::registry::Registry;
use vstd::prelude::*;

verus! {

/// Longest account identity the destination ledger accepts.
pub const MAX_ACCOUNT_ID_LEN: usize = 63;

/// A decided create-and-deploy sequence: create the sub-account
/// `token_account_id`, deploy `binary` there, and run its initializer, as
/// one atomic sequence.
pub struct TokenDeployment {
    /// Account identity of the sub-account to create.
    pub token_account_id: Vec<u8>,
    /// Contract binary to deploy there.
    pub binary: Vec<u8>,
}

/// The action sequence decided for one deposit.
pub enum DepositAction {
    /// First deposit for this token: create the sub-account, deploy
    /// `binary`, initialize, then credit `receiver_id` with `amount`, all in
    /// one atomic sequence.
    DeployAndCredit {
        /// Account identity of the sub-account to create.
        token_account_id: Vec<u8>,
        /// Contract binary to deploy there.
        binary: Vec<u8>,
        /// Account to credit once the token contract runs.
        receiver_id: Vec<u8>,
        /// Amount to credit.
        amount: u128,
    },
    /// The token sub-account already exists: credit it directly.
    Credit {
        /// Account identity of the existing sub-account.
        token_account_id: Vec<u8>,
        /// Account to credit.
        receiver_id: Vec<u8>,
        /// Amount to credit.
        amount: u128,
    },
}

/// A decided withdrawal relay call: send `input` to the host ledger through
/// the engine account `aurora`, addressed to the locker's on-host contract.
pub struct WithdrawCall {
    /// Engine account on the destination ledger that relays to the host
    /// ledger.
    pub aurora: Vec<u8>,
    /// Host-ledger address of the locker contract the message is addressed
    /// to.
    pub locker: Address,
    /// The 100-byte encoded withdrawal message.
    pub input: Vec<u8>,
}

/// The factory contract state.
pub struct Contract {
    /// The factory's own account identity; parent of every token
    /// sub-account.
    pub factory_id: Vec<u8>,
    /// Account identity of the engine that fronts the host ledger.
    pub aurora: Vec<u8>,
    /// Current deployable binary for new token sub-contracts, if one was
    /// set.
    pub token_binary: Option<Vec<u8>>,
    /// Version counter of the binary, bumped on every replacement.
    pub token_binary_version: u32,
    /// Registry of deployed token sub-accounts.
    pub tokens: Registry,
    /// Host-ledger address of the locker contract.
    pub locker: Address,
}

/// The fields of the contract that a deposit never touches.
pub open spec fn config_unchanged(pre: Contract, post: Contract) -> bool {
    &&& post.factory_id == pre.factory_id
    &&& post.aurora == pre.aurora
    &&& post.token_binary == pre.token_binary
    &&& post.token_binary_version == pre.token_binary_version
    &&& post.locker == pre.locker
}

/// Everything `on_deposit` promises: how the result and the new state
/// follow from the caller, the token address and the old state.
pub open spec fn deposit_post(
    pre: Contract,
    post: Contract,
    caller: Seq<u8>,
    token: Seq<u8>,
    receiver_id: Seq<u8>,
    amount: u128,
    r: Result<DepositAction, Error>,
) -> bool {
    let acct = account_id_seq(token, pre.factory_id@);
    let authorized = caller == pre.locker_account_id_seq();
    &&& (!authorized ==> r == Err::<DepositAction, Error>(Error::Unauthorized) && post == pre)
    &&& (authorized && pre.tokens.contains_spec(acct) ==> post == pre && (r matches Ok(a)
        && a matches DepositAction::Credit { token_account_id: t, receiver_id: rid, amount: amt }
        && t@ == acct && rid@ == receiver_id && amt == amount))
    &&& (authorized && !pre.tokens.contains_spec(acct) && pre.token_binary is None ==> r
        == Err::<DepositAction, Error>(Error::ArtifactUnavailable) && post == pre)
    &&& (authorized && !pre.tokens.contains_spec(acct) ==> (pre.token_binary matches Some(bin)
    ==> {
        &&& r matches Ok(a) && a matches DepositAction::DeployAndCredit {
            token_account_id: t,
            binary: b,
            receiver_id: rid,
            amount: amt,
        } && t@ == acct && b@ == bin@ && rid@ == receiver_id && amt == amount
        &&& config_unchanged(pre, post)
        &&& post.tokens.entries@.len() == pre.tokens.entries@.len() + 1
        &&& post.tokens.entries@.last().account_id@ == acct
        &&& post.tokens.entries@.last().version == pre.token_binary_version
        &&& forall|i: int|
            0 <= i < pre.tokens.entries@.len() ==> post.tokens.entries@[i]
                == pre.tokens.entries@[i]
        &&& post.tokens.contains_spec(acct)
    }))
}

impl Contract {
    /// A valid contract: the locker address is 20 bytes, derived account
    /// identities fit the ledger's limit, and registry keys are distinct.
    pub open spec fn wf(&self) -> bool {
        &&& self.locker.wf()
        &&& self.factory_id@.len() + ADDRESS_HEX_LEN + 1 <= MAX_ACCOUNT_ID_LEN
        &&& self.tokens.wf()
    }

    /// The locker's representative identity on the destination ledger.
    pub open spec fn locker_account_id_seq(&self) -> Seq<u8> {
        account_id_seq(self.locker@, self.aurora@)
    }

    /// Initializes the factory. Fails with `IdentityTooLong` exactly when a
    /// derived account identity (40 hex digits, a separator, and
    /// `factory_id`) would exceed the destination ledger's limit; the bound
    /// is checked once, here, not per call.
    pub fn new(factory_id: Vec<u8>, aurora: Vec<u8>, locker: Address) -> (r: Result<
        Contract,
        Error,
    >)
        requires
            locker.wf(),
        ensures
            r is Ok <==> factory_id@.len() + ADDRESS_HEX_LEN + 1 <= MAX_ACCOUNT_ID_LEN,
            r matches Ok(c) ==> {
                &&& c.factory_id == factory_id
                &&& c.aurora == aurora
                &&& c.locker == locker
                &&& c.token_binary is None
                &&& c.token_binary_version == 0
                &&& c.tokens.entries@.len() == 0
                &&& c.wf()
            },
            r matches Err(e) ==> e == Error::IdentityTooLong,
    {
        if factory_id.len() > MAX_ACCOUNT_ID_LEN - ADDRESS_HEX_LEN - 1 {
            return Err(Error::IdentityTooLong);
        }
        Ok(
            Contract {
                factory_id,
                aurora,
                token_binary: None,
                token_binary_version: 0,
                tokens: Registry::new(),
                locker,
            },
        )
    }

    /// The locker's representative identity on the destination ledger, for
    /// comparison with callers.
    pub fn locker_account_id(&self) -> (r: Vec<u8>)
        ensures
            r@ == self.locker_account_id_seq(),
    {
        account_id_from_token_address(&self.locker, &self.aurora)
    }

    /// Replaces the deployable token binary and bumps its version. Only the
    /// factory account itself may call this; later deposits deploy the new
    /// binary, while already-deployed tokens keep their recorded version.
    pub fn set_token_binary(&mut self, caller: &Vec<u8>, binary: Vec<u8>)
        requires
            caller@ == old(self).factory_id@,
            old(self).token_binary_version < u32::MAX,
        ensures
            final(self).token_binary == Some(binary),
            final(self).token_binary_version == old(self).token_binary_version + 1,
            final(self).factory_id == old(self).factory_id,
            final(self).aurora == old(self).aurora,
            final(self).tokens == old(self).tokens,
            final(self).locker == old(self).locker,
    {
        self.token_binary = Some(binary);
        self.token_binary_version = self.token_binary_version + 1;
    }

    /// The current token binary, or `ArtifactUnavailable` if none is set.
    fn get_token_binary(&self) -> (r: Result<Vec<u8>, Error>)
        ensures
            r is Ok <==> self.token_binary is Some,
            r matches Ok(b) ==> self.token_binary matches Some(tb) && b@ == tb@,
            r matches Err(e) ==> e == Error::ArtifactUnavailable,
    {
        match &self.token_binary {
            None => Err(Error::ArtifactUnavailable),
            Some(b) => Ok(copy_bytes(b)),
        }
    }

    /// Decides the deployment of a new token sub-account, without a
    /// deposit. Only the locker may call this; the current binary must be
    /// set. The registry is not consulted or changed.
    pub fn create_token(&mut self, caller: &Vec<u8>, token_address: &Address) -> (r: Result<
        TokenDeployment,
        Error,
    >)
        requires
            token_address.wf(),
        ensures
            *final(self) == *old(self),
            caller@ != old(self).locker_account_id_seq() ==> r == Err::<TokenDeployment, Error>(
                Error::Unauthorized,
            ),
            caller@ == old(self).locker_account_id_seq() && old(self).token_binary is None ==> r
                == Err::<TokenDeployment, Error>(Error::ArtifactUnavailable),
            caller@ == old(self).locker_account_id_seq() ==> (old(self).token_binary matches Some(
                bin,
            ) ==> r matches Ok(d) && d.token_account_id@ == account_id_seq(
                token_address@,
                old(self).factory_id@,
            ) && d.binary@ == bin@),
    {
        let locker_id = self.locker_account_id();
        if !crate::codec::bytes_eq(caller, &locker_id) {
            return Err(Error::Unauthorized);
        }
        let token_account_id = account_id_from_token_address(token_address, &self.factory_id);
        let binary = match self.get_token_binary() {
            Err(e) => {
                return Err(e);
            },
            Ok(b) => b,
        };
        Ok(TokenDeployment { token_account_id, binary })
    }

    /// Decides the action for one deposit: first checks that the caller is
    /// the locker, then either registers the token and decides one atomic
    /// create-deploy-initialize-credit sequence (first deposit), or decides
    /// a direct credit (token already registered). The registry is updated
    /// before the decision is handed out, so a second deposit for the same
    /// token can never decide a second deployment.
    pub fn on_deposit(
        &mut self,
        caller: &Vec<u8>,
        token: &Address,
        receiver_id: Vec<u8>,
        amount: u128,
    ) -> (r: Result<DepositAction, Error>)
        requires
            old(self).wf(),
            token.wf(),
        ensures
            final(self).wf(),
            deposit_post(*old(self), *final(self), caller@, token@, receiver_id@, amount, r),
    {
        let locker_id = self.locker_account_id();
        if !crate::codec::bytes_eq(caller, &locker_id) {
            return Err(Error::Unauthorized);
        }
        let token_account_id = account_id_from_token_address(token, &self.factory_id);
        if !self.tokens.contains(&token_account_id) {
            let binary = match self.get_token_binary() {
                Err(e) => {
                    return Err(e);
                },
                Ok(b) => b,
            };
            let version = self.token_binary_version;
            self.tokens.register(copy_bytes(&token_account_id), version);
            Ok(DepositAction::DeployAndCredit { token_account_id, binary, receiver_id, amount })
        } else {
            Ok(DepositAction::Credit { token_account_id, receiver_id, amount })
        }
    }

    /// Decides the withdrawal relay call for a burn reported by the direct
    /// caller `caller`: recovers the token address from the caller's
    /// identity, encodes the unlock message, and hands back the call to
    /// dispatch. Fails with `MalformedCallerIdentity` exactly when the
    /// caller's identity does not start with 40 hex digits.
    pub fn on_withdraw(&self, caller: &Vec<u8>, receiver_id: &Address, amount: u128) -> (r:
        Result<WithdrawCall, Error>)
        requires
            receiver_id.wf(),
        ensures
            r is Ok <==> valid_account_prefix(caller@),
            r matches Ok(w) ==> {
                &&& w.input@ == encode_withdraw_seq(
                    hex_decoded(caller@.subrange(0, ADDRESS_HEX_LEN as int)),
                    receiver_id@,
                    amount,
                )
                &&& w.aurora@ == self.aurora@
                &&& w.locker@ == self.locker@
            },
            r matches Err(e) ==> e == Error::MalformedCallerIdentity,
    {
        let token_id = match address_from_token_account_id(caller) {
            Err(e) => {
                return Err(e);
            },
            Ok(a) => a,
        };
        let input = abi_encode_withdraw(&token_id, receiver_id, amount);
        Ok(
            WithdrawCall {
                aurora: copy_bytes(&self.aurora),
                locker: Address(copy_bytes(&self.locker.0)),
                input,
            },
        )
    }
}

/// Law: deploy-or-route is idempotent. Two immediately successive deposits
/// for the same never-before-seen token add exactly one registry entry: the
/// first decides the one deployment sequence, the second leaves the state
/// untouched and decides a direct credit.
pub proof fn lemma_deposit_idempotent(
    s0: Contract,
    s1: Contract,
    s2: Contract,
    r1: Result<DepositAction, Error>,
    r2: Result<DepositAction, Error>,
    caller: Seq<u8>,
    token: Seq<u8>,
    recv1: Seq<u8>,
    amt1: u128,
    recv2: Seq<u8>,
    amt2: u128,
)
    requires
        caller == s0.locker_account_id_seq(),
        s0.token_binary is Some,
        !s0.tokens.contains_spec(account_id_seq(token, s0.factory_id@)),
        deposit_post(s0, s1, caller, token, recv1, amt1, r1),
        deposit_post(s1, s2, caller, token, recv2, amt2, r2),
    ensures
        r1 matches Ok(a) && a is DeployAndCredit,
        r2 matches Ok(a) && a is Credit,
        s1.tokens.entries@.len() == s0.tokens.entries@.len() + 1,
        s2 == s1,
{
    let acct = account_id_seq(token, s0.factory_id@);
    assert(s1.factory_id@ == s0.factory_id@);
    assert(s1.locker_account_id_seq() == s0.locker_account_id_seq());
    assert(s1.tokens.contains_spec(acct));
}

} // verus!
