//! A chain of messages and public keys, together with its aggregate signature.
use vstd::prelude::*;
use crate::group::GroupElement;
use crate::signature::{
    create_model, message_views, sign_model, verify_model, KeyPair, TokenSignature,
};
use crate::transcript::{push_bytes, views};

verus! {

/// An ordered chain of links, each a message endorsed under a public key, and
/// the signature that aggregates them.
pub struct Token {
    /// The message of each link, in order.
    pub messages: Vec<Vec<u8>>,
    /// The public key of each link, index-aligned with `messages`.
    pub keys: Vec<GroupElement>,
    /// The aggregate signature of the chain.
    pub signature: TokenSignature,
}

/// A copy of `message`.
fn copy_message(message: &[u8]) -> (r: Vec<u8>)
    ensures
        r@ == message@,
{
    let mut r: Vec<u8> = Vec::new();
    push_bytes(&mut r, message);
    r
}

impl Token {
    /// The chain of the one link `message` under `keypair`.
    pub fn new(keypair: &KeyPair, message: &[u8]) -> (r: Token)
        ensures
            message_views(r.messages@) == seq![message@],
            views(r.keys@) == seq![keypair.public_model()],
            r.signature@ == create_model(keypair.secret_model(), keypair.public_model(), message@),
    {
        let signature = TokenSignature::new(keypair, message);
        let messages = vec![copy_message(message)];
        let keys = vec![keypair.public()];
        assert(message_views(messages@) =~= seq![message@]);
        assert(views(keys@) =~= seq![keypair.public_model()]);
        Token { messages, keys, signature }
    }

    /// A new chain: this one followed by the link `message` under `keypair`.
    /// This chain is left as it is.
    pub fn append(&self, keypair: &KeyPair, message: &[u8]) -> (r: Token)
        ensures
            message_views(r.messages@) == message_views(self.messages@).push(message@),
            views(r.keys@) == views(self.keys@).push(keypair.public_model()),
            r.signature@ == sign_model(
                self.signature@,
                views(self.keys@),
                message_views(self.messages@),
                keypair.secret_model(),
                keypair.public_model(),
                message@,
            ),
    {
        let signature = self.signature.sign(
            self.keys.as_slice(),
            self.messages.as_slice(),
            keypair,
            message,
        );
        let mut messages: Vec<Vec<u8>> = Vec::new();
        let mut i: usize = 0;
        while i < self.messages.len()
            invariant
                i <= self.messages@.len(),
                messages@.len() == i,
                forall|j: int| 0 <= j < i ==> #[trigger] messages@[j]@ == self.messages@[j]@,
            decreases self.messages@.len() - i,
        {
            messages.push(copy_message(self.messages[i].as_slice()));
            i = i + 1;
        }
        messages.push(copy_message(message));
        let mut keys: Vec<GroupElement> = Vec::new();
        let mut i: usize = 0;
        while i < self.keys.len()
            invariant
                i <= self.keys@.len(),
                keys@ == self.keys@.subrange(0, i as int),
            decreases self.keys@.len() - i,
        {
            keys.push(self.keys[i]);
            i = i + 1;
            assert(keys@ =~= self.keys@.subrange(0, i as int));
        }
        keys.push(keypair.public());
        assert(message_views(messages@) =~= message_views(self.messages@).push(message@));
        assert(views(keys@) =~= views(self.keys@).push(keypair.public_model()));
        Token { messages, keys, signature }
    }

    /// Whether the signature signs this chain.
    pub fn verify(&self) -> (r: bool)
        ensures
            r == verify_model(self.signature@, views(self.keys@), message_views(self.messages@)),
    {
        self.signature.verify(self.keys.as_slice(), self.messages.as_slice())
    }
}

} // verus!
