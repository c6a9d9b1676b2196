use vstd::prelude::*;
use crate::error::GovernanceError;
use crate::pubkey::Pubkey;
use crate::realm::{byte_len, config_valid, validate_config, GovernanceRealm, RealmConfig, MAX_NAME_LEN};

verus! {

/// What creating a realm reads: its authority, its governance token and the
/// bump of its address.
#[derive(Clone, Copy, Debug)]
pub struct CreateRealm {
    pub authority: Pubkey,
    pub governance_token_mint: Pubkey,
    pub realm_bump: u8,
}

impl CreateRealm {
    /// Checks the configuration and the name and builds the new realm, with
    /// no proposals yet.
    pub fn create_realm(&self, name: String, config: RealmConfig) -> (r: Result<
        GovernanceRealm,
        GovernanceError,
    >)
        ensures
            !config_valid(config) ==> r == Err::<GovernanceRealm, GovernanceError>(
                GovernanceError::InvalidVoteThreshold,
            ),
            config_valid(config) && byte_len(name@) > MAX_NAME_LEN ==> r == Err::<
                GovernanceRealm,
                GovernanceError,
            >(GovernanceError::DataTooLarge),
            config_valid(config) && byte_len(name@) <= MAX_NAME_LEN ==> r is Ok,
            r matches Ok(realm) ==> realm.wf() && realm.authority == self.authority
                && realm.governance_token_mint == self.governance_token_mint && realm.name@
                == name@ && realm.voting_proposal_count == 0 && realm.config == config
                && realm.bump == self.realm_bump,
    {
        if !validate_config(&config) {
            return Err(GovernanceError::InvalidVoteThreshold);
        }
        if name.as_str().len() > MAX_NAME_LEN {
            return Err(GovernanceError::DataTooLarge);
        }
        Ok(
            GovernanceRealm {
                authority: self.authority,
                governance_token_mint: self.governance_token_mint,
                name,
                voting_proposal_count: 0,
                config,
                bump: self.realm_bump,
            },
        )
    }
}

} // verus!
