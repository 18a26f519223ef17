//! Signer registration: which signer processes, by id and public key, are
//! known to the coordinator. The durable collection behind it is modelled as
//! the list of registered signers in registration order.

use vstd::prelude::*;

use crate::types::{SignerRegistrationRequest, SignerRegistrationResponse};

verus! {

/// One registered signer.
#[derive(Clone, Debug, PartialEq)]
pub struct SignerInfo {
    pub signer_id: u16,
    pub public_key: String,
}

/// The registry of signer processes, in registration order.
pub struct RegistrationService {
    pub signers: Vec<SignerInfo>,
}

impl RegistrationService {
    /// An empty registry.
    pub fn new() -> (r: RegistrationService)
        ensures
            r.signers@.len() == 0,
    {
        RegistrationService { signers: Vec::new() }
    }

    /// Registers a signer: appended to the known signers.
    pub fn register_signer(&mut self, signer_info: SignerInfo)
        ensures
            final(self).signers@ == old(self).signers@.push(signer_info),
    {
        self.signers.push(signer_info);
    }

    /// The registered signers, in registration order.
    pub fn get_registered_signers(&self) -> (r: &Vec<SignerInfo>)
        ensures
            r == &self.signers,
    {
        &self.signers
    }
}

/// Admits a registration call: the signer it names, and the acknowledgement
/// sent back.
pub fn make_registration(request: &SignerRegistrationRequest) -> (r: (
    SignerInfo,
    SignerRegistrationResponse,
))
    ensures
        r.0.signer_id == request.signer_id,
        r.0.public_key@ == request.public_key@,
        r.1.success,
        r.1.message@ == "Signer registered successfully"@,
{
    proof {
        reveal_strlit("Signer registered successfully");
    }
    (
        SignerInfo { signer_id: request.signer_id, public_key: request.public_key.clone() },
        SignerRegistrationResponse {
            success: true,
            message: String::from_str("Signer registered successfully"),
        },
    )
}

} // verus!
