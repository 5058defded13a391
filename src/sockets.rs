use vstd::prelude::*;
use serde_json::Value;

verus! {

#[verifier::external_type_specification]
#[verifier::external_body]
pub struct ExValue(Value);

/// The id of an application or a proxy in the network.
pub struct AppOrProxyId {
    pub id: String,
}

/// The correlation id of a message, used to match a later answer to it.
#[derive(Clone, Copy, Debug, PartialEq, Eq, Structural, Hash)]
pub struct MsgId {
    pub uuid: u128,
}

/// A payload in clear text.
pub struct Plain {
    pub body: String,
}

/// A payload in encrypted form.
pub struct Encrypted {
    pub encrypted: String,
}

/// The states a message's payload can be in.
pub trait MsgState {
}

impl MsgState for Plain {
}

impl MsgState for Encrypted {
}

/// A message for a socket connection; `State` fixes whether its payload is
/// clear text or cipher text. `expire` counts seconds since the Unix epoch.
pub struct MsgSocketRequest<State: MsgState> {
    pub from: AppOrProxyId,
    pub to: Vec<AppOrProxyId>,
    pub expire: u64,
    pub id: MsgId,
    pub secret: State,
    pub metadata: Value,
}

/// The message with its payload replaced by `secret`, every other field kept.
pub open spec fn with_secret<S: MsgState, T: MsgState>(
    m: MsgSocketRequest<S>,
    secret: T,
) -> MsgSocketRequest<T> {
    MsgSocketRequest {
        from: m.from,
        to: m.to,
        expire: m.expire,
        id: m.id,
        secret,
        metadata: m.metadata,
    }
}

impl<State: MsgState> MsgSocketRequest<State> {
    pub fn get_from(&self) -> (r: &AppOrProxyId)
        ensures
            *r == self.from,
    {
        &self.from
    }

    pub fn get_to(&self) -> (r: &Vec<AppOrProxyId>)
        ensures
            *r == self.to,
    {
        &self.to
    }

    pub fn get_metadata(&self) -> (r: &Value)
        ensures
            *r == self.metadata,
    {
        &self.metadata
    }

    /// The id under which an answer to this message is awaited.
    pub fn wait_id(&self) -> (r: MsgId)
        ensures
            r == self.id,
    {
        self.id
    }
}

impl MsgSocketRequest<Encrypted> {
    pub fn get_encryption(&self) -> (r: Option<&Encrypted>)
        ensures
            r == Some(&self.secret),
    {
        Some(&self.secret)
    }

    /// The message after decryption: `body` is the clear text that the
    /// payload decrypted to; every other field is kept.
    pub fn convert_self(self, body: String) -> (r: MsgSocketRequest<Plain>)
        ensures
            r == with_secret(self, Plain { body }),
    {
        let MsgSocketRequest { from, to, expire, id, metadata, .. } = self;
        MsgSocketRequest { from, to, expire, id, secret: Plain { body }, metadata }
    }
}

impl MsgSocketRequest<Plain> {
    pub fn get_plain(&self) -> (r: &Plain)
        ensures
            *r == self.secret,
    {
        &self.secret
    }

    /// The message after encryption: `body` is the cipher text of the
    /// payload; every other field is kept.
    pub fn convert_self(self, body: Encrypted) -> (r: MsgSocketRequest<Encrypted>)
        ensures
            r == with_secret(self, body),
    {
        let MsgSocketRequest { from, to, expire, id, metadata, .. } = self;
        MsgSocketRequest { from, to, expire, id, secret: body, metadata }
    }
}

/// Encrypting a message and decrypting the result back to its clear text
/// gives the original message, every field included.
pub proof fn lemma_decrypt_encrypt(m: MsgSocketRequest<Plain>, cipher: Encrypted, recovered: String)
    requires
        recovered == m.secret.body,
    ensures
        with_secret(with_secret(m, cipher), Plain { body: recovered }) == m,
{
}

} // verus!
