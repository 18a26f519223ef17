//! Process-wide configuration. Loading it from files and the environment is
//! the process's business; the allow-list decision on it is verified here.

use vstd::prelude::*;

verus! {

/// Security section: token signing and the signer IP allow-list.
#[derive(Clone, Debug, PartialEq)]
pub struct SecurityConfig {
    pub jwt_secret: String,
    pub jwt_expiration: u64,
    pub allowed_signer_ips: Vec<String>,
}

/// The recognized configuration options.
#[derive(Clone, Debug, PartialEq)]
pub struct Settings {
    pub mongodb_uri: String,
    pub rabbitmq_uri: String,
    pub manager_url: String,
    pub manager_port: u16,
    pub signing_timeout: u64,
    pub threshold: u16,
    pub total_parties: u16,
    pub path: String,
    pub signer_key_files: Vec<String>,
    pub security: SecurityConfig,
}

impl Settings {
    /// `ip` is on the signer allow-list.
    pub open spec fn spec_ip_whitelisted(self, ip: Seq<char>) -> bool {
        exists|i: int|
            0 <= i < self.security.allowed_signer_ips@.len() && (
            #[trigger] self.security.allowed_signer_ips@[i])@ == ip
    }

    /// Signer endpoints admit a caller exactly when its address, in its
    /// textual form, stands on the allow-list.
    pub fn is_ip_whitelisted(&self, ip: &String) -> (r: bool)
        ensures
            r == self.spec_ip_whitelisted(ip@),
    {
        let n = self.security.allowed_signer_ips.len();
        let mut i: usize = 0;
        while i < n
            invariant
                n == self.security.allowed_signer_ips@.len(),
                0 <= i <= n,
                forall|j: int|
                    0 <= j < i ==> (#[trigger] self.security.allowed_signer_ips@[j])@ != ip@,
            decreases n - i,
        {
            if self.security.allowed_signer_ips[i] == *ip {
                return true;
            }
            i += 1;
        }
        false
    }
}

} // verus!
