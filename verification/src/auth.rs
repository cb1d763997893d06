//! The credential kept by a device login (`callrx auth login`).

use vstd::prelude::*;

verus! {

/// An API key obtained by a device login, with what the service said of it.
#[derive(Debug)]
pub struct StoredCredential {
    pub api_key: String,
    pub key_prefix: String,
    pub tier: String,
    pub created_at: String,
}

impl Clone for StoredCredential {
    fn clone(&self) -> (res: Self)
        ensures
            res.api_key@ == self.api_key@,
            res.key_prefix@ == self.key_prefix@,
            res.tier@ == self.tier@,
            res.created_at@ == self.created_at@,
    {
        StoredCredential {
            api_key: self.api_key.clone(),
            key_prefix: self.key_prefix.clone(),
            tier: self.tier.clone(),
            created_at: self.created_at.clone(),
        }
    }
}

} // verus!
