//! Key pairs, and the aggregate signature that a chain of links collapses into.
use vstd::prelude::*;
use crate::group::{
    base_scaled, identity, identity_encoding, le_encoding, le_value, group_order, point_add,
    point_scaled, point_sum, scalar_add, scalar_from_wide, scalar_mul, scalar_neg,
    scalar_negation, scalar_product, scalar_sum, scale, scale_base, GroupElement, Scalar,
};
use crate::transcript::{
    add_points, challenge_of, derive_nonce, hash_points, hash_to_curve, link_point, nonce_of,
    point_total, views,
};

verus! {

/// The views of a sequence of scalars.
pub open spec fn scalar_views(scalars: Seq<Scalar>) -> Seq<Seq<u8>> {
    scalars.map_values(|c: Scalar| c@)
}

/// The views of a sequence of messages.
pub open spec fn message_views(messages: Seq<Vec<u8>>) -> Seq<Seq<u8>> {
    messages.map_values(|m: Vec<u8>| m@)
}

/// Each key weighted by its negated challenge, for as many links as both
/// sequences hold.
pub open spec fn weighted_keys(keys: Seq<Seq<u8>>, challenges: Seq<Seq<u8>>) -> Seq<Seq<u8>> {
    Seq::new(
        if keys.len() <= challenges.len() { keys.len() } else { challenges.len() },
        |i: int| point_scaled(scalar_negation(challenges[i]), keys[i]),
    )
}

/// The point of each link, for as many links as both sequences hold.
pub open spec fn link_points(keys: Seq<Seq<u8>>, messages: Seq<Seq<u8>>) -> Seq<Seq<u8>> {
    Seq::new(
        if keys.len() <= messages.len() { keys.len() } else { messages.len() },
        |i: int| link_point(keys[i], messages[i]),
    )
}

/// What a [`TokenSignature`] holds, as encodings.
pub struct SignatureModel {
    /// The accumulated VRF outputs, each weighted by its negated challenge.
    pub gamma_agg: Seq<u8>,
    /// One challenge per link, in the order of the links.
    pub challenges: Seq<Seq<u8>>,
    /// The accumulator that cancels the cross terms between responses.
    pub w: Seq<u8>,
    /// The sum of the responses of all the links.
    pub s: Seq<u8>,
}

/// The signature of a chain of one link: `message` under the key pair
/// `(private, public)`.
pub open spec fn create_model(private: Seq<u8>, public: Seq<u8>, message: Seq<u8>) -> SignatureModel {
    let h = link_point(public, message);
    let gamma = point_scaled(private, h);
    let k = nonce_of(private, h);
    let c = challenge_of(seq![h, public, base_scaled(k), point_scaled(k, h)]);
    SignatureModel {
        gamma_agg: point_scaled(scalar_negation(c), gamma),
        challenges: seq![c],
        w: identity_encoding(),
        s: scalar_sum(k, scalar_product(c, private)),
    }
}

/// The commitments `(u, v)` that the signer of the link `message` under the key
/// pair `(private, public)` hashes into its challenge, where `prior` signs the
/// chain `(keys, messages)`.
pub open spec fn signer_commitments(
    prior: SignatureModel,
    keys: Seq<Seq<u8>>,
    messages: Seq<Seq<u8>>,
    private: Seq<u8>,
    public: Seq<u8>,
    message: Seq<u8>,
) -> (Seq<u8>, Seq<u8>) {
    let h = link_point(public, message);
    let k = nonce_of(private, h);
    let u = point_sum(
        point_sum(point_total(weighted_keys(keys, prior.challenges)), base_scaled(prior.s)),
        base_scaled(k),
    );
    let hashes_sum = point_total(link_points(keys, messages));
    let v = point_sum(
        point_sum(point_sum(prior.w, prior.gamma_agg), point_scaled(prior.s, hashes_sum)),
        point_scaled(k, h),
    );
    (u, v)
}

/// The signature `prior` of the chain `(keys, messages)`, extended by the link
/// `message` under the key pair `(private, public)`.
pub open spec fn sign_model(
    prior: SignatureModel,
    keys: Seq<Seq<u8>>,
    messages: Seq<Seq<u8>>,
    private: Seq<u8>,
    public: Seq<u8>,
    message: Seq<u8>,
) -> SignatureModel {
    let h = link_point(public, message);
    let gamma = point_scaled(private, h);
    let k = nonce_of(private, h);
    let hashes_sum = point_total(link_points(keys, messages));
    let uv = signer_commitments(prior, keys, messages, private, public, message);
    let c = challenge_of(seq![h, point_sum(point_total(keys), public), uv.0, uv.1]);
    let s_new = scalar_sum(k, scalar_product(c, private));
    SignatureModel {
        gamma_agg: point_sum(prior.gamma_agg, point_scaled(scalar_negation(c), gamma)),
        challenges: prior.challenges.push(c),
        w: point_sum(
            point_sum(prior.w, point_scaled(scalar_negation(s_new), hashes_sum)),
            point_scaled(scalar_negation(prior.s), h),
        ),
        s: scalar_sum(prior.s, s_new),
    }
}

/// The commitments `(u, v)` that verification recomputes for the chain
/// `(keys, messages)` under the signature `sig`.
pub open spec fn verifier_commitments(
    sig: SignatureModel,
    keys: Seq<Seq<u8>>,
    messages: Seq<Seq<u8>>,
) -> (Seq<u8>, Seq<u8>) {
    let u = point_sum(point_total(weighted_keys(keys, sig.challenges)), base_scaled(sig.s));
    let hashes = link_points(keys, messages);
    let v = point_sum(point_sum(sig.w, sig.gamma_agg), point_scaled(sig.s, point_total(hashes)));
    (u, v)
}

/// The challenge that verification recomputes for the chain `(keys, messages)`
/// under the signature `sig`.
pub open spec fn recomputed_challenge(
    sig: SignatureModel,
    keys: Seq<Seq<u8>>,
    messages: Seq<Seq<u8>>,
) -> Seq<u8> {
    let uv = verifier_commitments(sig, keys, messages);
    challenge_of(seq![link_points(keys, messages).last(), point_total(keys), uv.0, uv.1])
}

/// Whether `sig` is a valid signature of the chain `(keys, messages)`: the
/// three sequences have one and the same, non-zero length, and the recomputed
/// challenge is the last one.
pub open spec fn verify_model(sig: SignatureModel, keys: Seq<Seq<u8>>, messages: Seq<Seq<u8>>) -> bool {
    &&& keys.len() == messages.len()
    &&& keys.len() == sig.challenges.len()
    &&& keys.len() > 0
    &&& recomputed_challenge(sig, keys, messages) == sig.challenges.last()
}

/// Two signatures created for the same message under the same key pair are
/// identical, byte for byte.
pub proof fn lemma_create_deterministic(
    keypair: KeyPair,
    message: Seq<u8>,
    first: TokenSignature,
    second: TokenSignature,
)
    requires
        first@ == create_model(keypair.secret_model(), keypair.public_model(), message),
        second@ == create_model(keypair.secret_model(), keypair.public_model(), message),
    ensures
        first@ == second@,
{
}

/// A chain whose keys, messages and challenges are not equally many, or are
/// none, never verifies.
pub proof fn lemma_length_mismatch_rejected(
    sig: SignatureModel,
    keys: Seq<Seq<u8>>,
    messages: Seq<Seq<u8>>,
)
    requires
        keys.len() != messages.len() || keys.len() != sig.challenges.len() || keys.len() == 0,
    ensures
        !verify_model(sig, keys, messages),
{
}

/// Verification is a function of the signature and the chain alone: two
/// verifications of the same chain under the same signature agree.
pub proof fn lemma_verify_deterministic(
    sig: SignatureModel,
    keys: Seq<Seq<u8>>,
    messages: Seq<Seq<u8>>,
    first: bool,
    second: bool,
)
    requires
        first == verify_model(sig, keys, messages),
        second == verify_model(sig, keys, messages),
    ensures
        first == second,
{
}

/// A chain of one link verifies under the signature created for it, provided
/// that the commitments that verification recomputes are those that the
/// signer hashed (which the group laws give).
pub proof fn lemma_created_verifies(private: Seq<u8>, public: Seq<u8>, message: Seq<u8>)
    ensures
        ({
            let h = link_point(public, message);
            let k = nonce_of(private, h);
            verifier_commitments(create_model(private, public, message), seq![public], seq![message])
                == (base_scaled(k), point_scaled(k, h))
        }) ==> verify_model(create_model(private, public, message), seq![public], seq![message]),
{
    assert(point_total(seq![public]) == public);
    assert(link_points(seq![public], seq![message]).last() == link_point(public, message));
}

/// A chain of at least one link, extended by `append`, verifies provided that
/// its keys, messages and challenges are equally many and that the commitments
/// that verification recomputes are those that the new signer hashed (which
/// the group laws give). Nothing here asks that the chain verified before the
/// extension: the new signer hashes the chain as it stands.
pub proof fn lemma_appended_verifies(
    prior: SignatureModel,
    keys: Seq<Seq<u8>>,
    messages: Seq<Seq<u8>>,
    private: Seq<u8>,
    public: Seq<u8>,
    message: Seq<u8>,
)
    requires
        keys.len() == messages.len(),
        keys.len() == prior.challenges.len(),
        keys.len() >= 1,
    ensures
        verifier_commitments(
            sign_model(prior, keys, messages, private, public, message),
            keys.push(public),
            messages.push(message),
        ) == signer_commitments(prior, keys, messages, private, public, message)
            ==> verify_model(
            sign_model(prior, keys, messages, private, public, message),
            keys.push(public),
            messages.push(message),
        ),
{
    let extended = keys.push(public);
    assert(extended.drop_last() =~= keys);
    assert(point_total(extended) == point_sum(point_total(keys), public));
    assert(link_points(extended, messages.push(message)).last() == link_point(public, message));
}

/// A private scalar and the public point it generates.
pub struct KeyPair {
    private: Scalar,
    public: GroupElement,
}

impl KeyPair {
    /// The private scalar.
    pub closed spec fn secret_model(self) -> Seq<u8> {
        self.private@
    }

    /// The public point.
    pub closed spec fn public_model(self) -> Seq<u8> {
        self.public@
    }

    /// The public point is the base point multiplied by the private scalar.
    #[verifier::type_invariant]
    pub open spec fn well_formed(self) -> bool {
        self.public_model() == base_scaled(self.secret_model())
    }

    /// The key pair whose private scalar is the 512-bit little-endian integer
    /// `wide` reduced modulo the group order; `wide` is to be drawn uniformly
    /// from a secure source of randomness.
    pub fn new(wide: &[u8; 64]) -> (r: KeyPair)
        ensures
            r.secret_model() == le_encoding(le_value(wide@) % group_order()),
            r.public_model() == base_scaled(r.secret_model()),
    {
        let private = scalar_from_wide(wide);
        let public = scale_base(&private);
        KeyPair { private, public }
    }

    /// The public point of this key pair.
    pub fn public(&self) -> (r: GroupElement)
        ensures
            r@ == self.public_model(),
    {
        self.public
    }
}

/// The aggregate signature of a chain of links.
pub struct TokenSignature {
    gamma_agg: GroupElement,
    c: Vec<Scalar>,
    w: GroupElement,
    s: Scalar,
}

impl View for TokenSignature {
    type V = SignatureModel;

    closed spec fn view(&self) -> SignatureModel {
        SignatureModel {
            gamma_agg: self.gamma_agg@,
            challenges: scalar_views(self.c@),
            w: self.w@,
            s: self.s@,
        }
    }
}

impl TokenSignature {
    /// The signature of a chain of one link: `message` under `keypair`.
    pub fn new(keypair: &KeyPair, message: &[u8]) -> (r: TokenSignature)
        ensures
            r@ == create_model(keypair.secret_model(), keypair.public_model(), message@),
    {
        let public = keypair.public;
        proof {
            use_type_invariant(&public);
        }
        let h = hash_to_curve(&public, message);
        proof {
            use_type_invariant(&h);
        }
        let gamma = scale(&keypair.private, &h);
        let k = derive_nonce(&keypair.private, &h);
        let commitment = scale_base(&k);
        let k_h = scale(&k, &h);
        let transcript = [h, public, commitment, k_h];
        assert(views(transcript@) =~= seq![h@, public@, commitment@, k_h@]);
        let c = hash_points(transcript.as_slice());
        let c_private = scalar_mul(&c, &keypair.private);
        let s = scalar_add(&k, &c_private);
        proof {
            use_type_invariant(&gamma);
        }
        let negated = scalar_neg(&c);
        let gamma_agg = scale(&negated, &gamma);
        let w = identity();
        let r = TokenSignature { gamma_agg, c: vec![c], w, s };
        assert(scalar_views(r.c@) =~= seq![c@]);
        r
    }

    /// The accumulated VRF outputs.
    pub fn gamma_agg(&self) -> (r: GroupElement)
        ensures
            r@ == self@.gamma_agg,
    {
        self.gamma_agg
    }

    /// The challenges, one per link.
    pub fn challenges(&self) -> (r: Vec<Scalar>)
        ensures
            scalar_views(r@) == self@.challenges,
    {
        let mut r: Vec<Scalar> = Vec::new();
        let mut i: usize = 0;
        while i < self.c.len()
            invariant
                i <= self.c@.len(),
                r@ == self.c@.subrange(0, i as int),
            decreases self.c@.len() - i,
        {
            r.push(self.c[i]);
            i = i + 1;
            assert(r@ =~= self.c@.subrange(0, i as int));
        }
        assert(r@ =~= self.c@);
        r
    }

    /// The cross-term accumulator.
    pub fn w(&self) -> (r: GroupElement)
        ensures
            r@ == self@.w,
    {
        self.w
    }

    /// The sum of the responses.
    pub fn s(&self) -> (r: Scalar)
        ensures
            r@ == self@.s,
    {
        self.s
    }

    /// The signature of the chain `(public_keys, messages)` extended by the
    /// link `message` under `keypair`, where `self` signs that chain.
    ///
    /// The sums run over as many links as the sequences share.
    pub fn sign(
        &self,
        public_keys: &[GroupElement],
        messages: &[Vec<u8>],
        keypair: &KeyPair,
        message: &[u8],
    ) -> (r: TokenSignature)
        ensures
            r@ == sign_model(
                self@,
                views(public_keys@),
                message_views(messages@),
                keypair.secret_model(),
                keypair.public_model(),
                message@,
            ),
    {
        let public = keypair.public;
        let h = hash_to_curve(&public, message);
        proof {
            use_type_invariant(&public);
            use_type_invariant(&h);
            use_type_invariant(&self.w);
            use_type_invariant(&self.gamma_agg);
        }
        let gamma = scale(&keypair.private, &h);
        let k = derive_nonce(&keypair.private, &h);

        let pc = weigh_keys(public_keys, self.c.as_slice());
        let pc_sum = add_points(pc.as_slice());
        let s_base = scale_base(&self.s);
        let k_base = scale_base(&k);
        proof {
            use_type_invariant(&pc_sum);
            use_type_invariant(&s_base);
            use_type_invariant(&k_base);
        }
        let u0 = point_add(&pc_sum, &s_base);
        proof {
            use_type_invariant(&u0);
        }
        let u = point_add(&u0, &k_base);

        let hashes = hash_links(public_keys, messages);
        let hashes_sum = add_points(hashes.as_slice());
        proof {
            use_type_invariant(&hashes_sum);
        }
        let v0 = point_add(&self.w, &self.gamma_agg);
        let s_hashes = scale(&self.s, &hashes_sum);
        let k_h = scale(&k, &h);
        proof {
            use_type_invariant(&v0);
            use_type_invariant(&s_hashes);
            use_type_invariant(&k_h);
        }
        let v1 = point_add(&v0, &s_hashes);
        proof {
            use_type_invariant(&v1);
        }
        let v = point_add(&v1, &k_h);

        let p = add_points(public_keys);
        proof {
            use_type_invariant(&p);
        }
        let p_all = point_add(&p, &public);
        let transcript = [h, p_all, u, v];
        assert(views(transcript@) =~= seq![h@, p_all@, u@, v@]);
        let c = hash_points(transcript.as_slice());

        let c_private = scalar_mul(&c, &keypair.private);
        let s_new = scalar_add(&k, &c_private);
        let agg_s = scalar_add(&self.s, &s_new);

        let neg_s_new = scalar_neg(&s_new);
        let neg_s = scalar_neg(&self.s);
        let hs = scale(&neg_s_new, &hashes_sum);
        let h_s = scale(&neg_s, &h);
        proof {
            use_type_invariant(&hs);
            use_type_invariant(&h_s);
        }
        let w0 = point_add(&self.w, &hs);
        proof {
            use_type_invariant(&w0);
        }
        let w = point_add(&w0, &h_s);

        proof {
            use_type_invariant(&gamma);
        }
        let neg_c = scalar_neg(&c);
        let c_gamma = scale(&neg_c, &gamma);
        proof {
            use_type_invariant(&c_gamma);
        }
        let gamma_agg = point_add(&self.gamma_agg, &c_gamma);

        let mut challenges = self.challenges();
        challenges.push(c);
        assert(scalar_views(challenges@) =~= scalar_views(self.c@).push(c@));
        TokenSignature { gamma_agg, c: challenges, w, s: agg_s }
    }

    /// Whether `self` signs the chain `(public_keys, messages)`: the keys, the
    /// messages and the challenges are equally many and at least one, and the
    /// challenge recomputed from the whole chain is the last one.
    pub fn verify(&self, public_keys: &[GroupElement], messages: &[Vec<u8>]) -> (r: bool)
        ensures
            r == verify_model(self@, views(public_keys@), message_views(messages@)),
    {
        if !(public_keys.len() == messages.len() && public_keys.len() == self.c.len()) {
            return false;
        }
        if self.c.len() == 0 {
            return false;
        }
        proof {
            use_type_invariant(&self.w);
            use_type_invariant(&self.gamma_agg);
        }
        let pc = weigh_keys(public_keys, self.c.as_slice());
        let pc_sum = add_points(pc.as_slice());
        let s_base = scale_base(&self.s);
        proof {
            use_type_invariant(&pc_sum);
            use_type_invariant(&s_base);
        }
        let u = point_add(&pc_sum, &s_base);

        let hashes = hash_links(public_keys, messages);
        let hashes_sum = add_points(hashes.as_slice());
        proof {
            use_type_invariant(&hashes_sum);
        }
        let v0 = point_add(&self.w, &self.gamma_agg);
        let s_hashes = scale(&self.s, &hashes_sum);
        proof {
            use_type_invariant(&v0);
            use_type_invariant(&s_hashes);
        }
        let v = point_add(&v0, &s_hashes);

        let p = add_points(public_keys);
        let last = hashes[hashes.len() - 1];
        let transcript = [last, p, u, v];
        assert(views(transcript@) =~= seq![last@, p@, u@, v@]);
        let c = hash_points(transcript.as_slice());
        let expected = self.c[self.c.len() - 1];
        scalar_eq(&c, &expected)
    }
}

/// Whether two scalars have the same encoding.
fn scalar_eq(a: &Scalar, b: &Scalar) -> (r: bool)
    ensures
        r == (a@ == b@),
{
    let x = a.to_bytes();
    let y = b.to_bytes();
    let mut i: usize = 0;
    while i < 32
        invariant
            x@ == a@,
            y@ == b@,
            x@.len() == 32,
            y@.len() == 32,
            i <= 32,
            x@.subrange(0, i as int) == y@.subrange(0, i as int),
        decreases 32 - i,
    {
        if x[i] != y[i] {
            assert(x@[i as int] != y@[i as int]);
            return false;
        }
        i = i + 1;
        assert(x@.subrange(0, i as int) =~= x@.subrange(0, i - 1).push(x@[i - 1]));
        assert(y@.subrange(0, i as int) =~= y@.subrange(0, i - 1).push(y@[i - 1]));
    }
    assert(x@ =~= x@.subrange(0, 32));
    assert(y@ =~= y@.subrange(0, 32));
    true
}

/// Each key weighted by its negated challenge, for as many links as both
/// sequences hold.
fn weigh_keys(keys: &[GroupElement], challenges: &[Scalar]) -> (r: Vec<GroupElement>)
    ensures
        views(r@) == weighted_keys(views(keys@), scalar_views(challenges@)),
{
    let n: usize = if keys.len() <= challenges.len() { keys.len() } else { challenges.len() };
    let mut r: Vec<GroupElement> = Vec::new();
    let mut i: usize = 0;
    while i < n
        invariant
            n == weighted_keys(views(keys@), scalar_views(challenges@)).len(),
            n <= keys@.len(),
            n <= challenges@.len(),
            i <= n,
            r@.len() == i,
            forall|j: int|
                0 <= j < i ==> #[trigger] r@[j]@ == point_scaled(
                    scalar_negation(challenges@[j]@),
                    keys@[j]@,
                ),
        decreases n - i,
    {
        let key = &keys[i];
        proof {
            use_type_invariant(key);
        }
        let negated = scalar_neg(&challenges[i]);
        let weighted = scale(&negated, key);
        r.push(weighted);
        i = i + 1;
    }
    assert(views(r@) =~= weighted_keys(views(keys@), scalar_views(challenges@)));
    r
}

/// The point of each link, for as many links as both sequences hold.
fn hash_links(keys: &[GroupElement], messages: &[Vec<u8>]) -> (r: Vec<GroupElement>)
    ensures
        views(r@) == link_points(views(keys@), message_views(messages@)),
{
    let n: usize = if keys.len() <= messages.len() { keys.len() } else { messages.len() };
    let mut r: Vec<GroupElement> = Vec::new();
    let mut i: usize = 0;
    while i < n
        invariant
            n == link_points(views(keys@), message_views(messages@)).len(),
            n <= keys@.len(),
            n <= messages@.len(),
            i <= n,
            r@.len() == i,
            forall|j: int|
                0 <= j < i ==> #[trigger] r@[j]@ == link_point(keys@[j]@, messages@[j]@),
        decreases n - i,
    {
        let h = hash_to_curve(&keys[i], messages[i].as_slice());
        r.push(h);
        i = i + 1;
    }
    assert(views(r@) =~= link_points(views(keys@), message_views(messages@)));
    r
}

} // verus!
