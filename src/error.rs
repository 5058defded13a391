use vstd::prelude::*;

verus! {

/// The recoverable failures of bootstrapping a node's cryptographic identity.
#[derive(Debug)]
pub enum SamplyBeamError {
    /// The key file could not be read, or its text is no supported private key.
    ConfigurationFailed(String),
    /// The node's own certificate could not be found or interpreted.
    SignEncryptError(String),
}

impl SamplyBeamError {
    pub open spec fn is_configuration_failed(&self) -> bool {
        self is ConfigurationFailed
    }

    pub open spec fn is_sign_encrypt_error(&self) -> bool {
        self is SignEncryptError
    }

    /// The diagnostic text carried by the error.
    pub fn message(&self) -> (r: &String)
        ensures
            r == (match self {
                SamplyBeamError::ConfigurationFailed(m) => m,
                SamplyBeamError::SignEncryptError(m) => m,
            }),
    {
        match self {
            SamplyBeamError::ConfigurationFailed(m) => m,
            SamplyBeamError::SignEncryptError(m) => m,
        }
    }
}

} // verus!
