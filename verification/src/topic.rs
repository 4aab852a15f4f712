//! Topic keys and the strategies that derive them from topic names.

use vstd::prelude::*;
use vstd::string::StrSliceExecFns;
use vstd::std_specs::cmp::PartialEqSpec;
use vstd::std_specs::cmp::PartialOrdSpec;
use core::cmp::Ordering;
use crate::encoding::spec_topic_descriptor;
use crate::encoding::encode_topic_descriptor;
use crate::hashing::base64_of;
use crate::hashing::sha256_of;
use crate::hashing::base64_encode;
use crate::hashing::sha256_digest;

verus! {

/// Lexicographic comparison of two character sequences: the first position
/// where they differ decides, by scalar value; a proper prefix comes first.
pub open spec fn lex_cmp(a: Seq<char>, b: Seq<char>) -> Ordering
    decreases a.len(),
{
    if a.len() == 0 && b.len() == 0 {
        Ordering::Equal
    } else if a.len() == 0 {
        Ordering::Less
    } else if b.len() == 0 {
        Ordering::Greater
    } else if a[0] != b[0] {
        if (a[0] as u32) < (b[0] as u32) {
            Ordering::Less
        } else {
            Ordering::Greater
        }
    } else {
        lex_cmp(a.drop_first(), b.drop_first())
    }
}

/// `lex_cmp` answers `Equal` exactly on equal sequences, so the ordering of
/// topic keys is consistent with their equality.
pub proof fn lemma_lex_cmp_equal_iff(a: Seq<char>, b: Seq<char>)
    ensures
        (lex_cmp(a, b) == Ordering::Equal) <==> (a == b),
    decreases a.len(),
{
    if a.len() == 0 && b.len() == 0 {
        assert(a =~= b);
    } else if a.len() == 0 || b.len() == 0 {
        assert(a.len() != b.len());
    } else if a[0] != b[0] {
        assert(a != b);
    } else {
        lemma_lex_cmp_equal_iff(a.drop_first(), b.drop_first());
        if a.drop_first() == b.drop_first() {
            assert forall|k: int| 0 <= k < a.len() implies a[k] == b[k] by {
                if k > 0 {
                    assert(a.drop_first()[k - 1] == b.drop_first()[k - 1]);
                }
            }
            assert(a =~= b);
        }
        if a == b {
            assert(a.drop_first() =~= b.drop_first());
        }
    }
}

/// Swapping the operands of `lex_cmp` swaps `Less` and `Greater`.
proof fn lemma_lex_cmp_antisymmetric(a: Seq<char>, b: Seq<char>)
    ensures
        (lex_cmp(a, b) == Ordering::Less) <==> (lex_cmp(b, a) == Ordering::Greater),
    decreases a.len(),
{
    if a.len() > 0 && b.len() > 0 {
        if a[0] == b[0] {
            lemma_lex_cmp_antisymmetric(a.drop_first(), b.drop_first());
        } else {
            vstd::utf8::char_u32_cast(a[0], a[0] as u32);
            vstd::utf8::char_u32_cast(b[0], b[0] as u32);
        }
    }
}

/// `lex_cmp`'s `Less` is transitive.
proof fn lemma_lex_cmp_transitive(a: Seq<char>, b: Seq<char>, c: Seq<char>)
    requires
        lex_cmp(a, b) == Ordering::Less,
        lex_cmp(b, c) == Ordering::Less,
    ensures
        lex_cmp(a, c) == Ordering::Less,
    decreases a.len(),
{
    if a.len() > 0 && b.len() > 0 && c.len() > 0 && a[0] == b[0] && b[0] == c[0] {
        lemma_lex_cmp_transitive(a.drop_first(), b.drop_first(), c.drop_first());
    }
}

/// Once the first `i` characters agree, the comparison is decided by what
/// remains.
proof fn lemma_lex_cmp_skip(a: Seq<char>, b: Seq<char>, i: int)
    requires
        0 <= i <= a.len(),
        0 <= i <= b.len(),
        forall|j: int| 0 <= j < i ==> a[j] == b[j],
    ensures
        lex_cmp(a, b) == lex_cmp(a.skip(i), b.skip(i)),
    decreases i,
{
    if i > 0 {
        assert(a.skip(0) =~= a);
        assert(b.skip(0) =~= b);
        lemma_lex_cmp_skip(a, b, i - 1);
        let sa = a.skip(i - 1);
        let sb = b.skip(i - 1);
        assert(sa[0] == a[i - 1] && sb[0] == b[i - 1]);
        assert(sa.drop_first() =~= a.skip(i));
        assert(sb.drop_first() =~= b.skip(i));
    } else {
        assert(a.skip(0) =~= a);
        assert(b.skip(0) =~= b);
    }
}

/// Compares two strings in the lexicographic order of their characters.
pub fn compare_str(a: &str, b: &str) -> (r: Ordering)
    ensures
        r == lex_cmp(a@, b@),
{
    let a_len: usize = a.unicode_len();
    let b_len: usize = b.unicode_len();
    let mut i: usize = 0;
    while i < a_len && i < b_len
        invariant
            a_len == a@.len(),
            b_len == b@.len(),
            i <= a_len,
            i <= b_len,
            forall|j: int| 0 <= j < i ==> a@[j] == b@[j],
        decreases a_len - i,
    {
        let ca = a.get_char(i);
        let cb = b.get_char(i);
        if ca != cb {
            proof {
                lemma_lex_cmp_skip(a@, b@, i as int);
                assert(a@.skip(i as int)[0] == a@[i as int]);
                assert(b@.skip(i as int)[0] == b@[i as int]);
            }
            if (ca as u32) < (cb as u32) {
                return Ordering::Less;
            } else {
                return Ordering::Greater;
            }
        }
        i = i + 1;
    }
    proof {
        lemma_lex_cmp_skip(a@, b@, i as int);
    }
    if a_len == b_len {
        Ordering::Equal
    } else if a_len < b_len {
        proof {
            assert(a@.skip(i as int).len() == 0);
            assert(b@.skip(i as int).len() > 0);
        }
        Ordering::Less
    } else {
        proof {
            assert(b@.skip(i as int).len() == 0);
            assert(a@.skip(i as int).len() > 0);
        }
        Ordering::Greater
    }
}

/// A topic key: an immutable value wrapping the derived string.  Keys are
/// equal exactly when their strings are, and are ordered lexicographically
/// by their strings.
#[derive(Debug, Clone, Hash)]
pub struct TopicHash {
    /// The topic hash.  Stored as a string to align with the wire form.
    hash: String,
}

impl View for TopicHash {
    type V = Seq<char>;

    closed spec fn view(&self) -> Seq<char> {
        self.hash@
    }
}

impl TopicHash {
    /// Builds a key directly from an already-computed or externally supplied
    /// string.  Any string is a legal key; no validation happens here.
    pub fn from_raw(hash: String) -> (r: TopicHash)
        ensures
            r@ == hash@,
    {
        TopicHash { hash }
    }

    /// The key's string projection, by value: the exact representation the
    /// wire and persistence layers transmit.
    pub fn into_string(self) -> (r: String)
        ensures
            r@ == self@,
    {
        self.hash
    }

    /// The key's string projection, borrowed.
    pub fn as_str(&self) -> (r: &str)
        ensures
            r@ == self@,
    {
        self.hash.as_str()
    }
}

impl PartialEq for TopicHash {
    fn eq(&self, other: &TopicHash) -> (r: bool) {
        self.hash == other.hash
    }
}

impl Eq for TopicHash {}

impl vstd::std_specs::cmp::PartialEqSpecImpl for TopicHash {
    open spec fn obeys_eq_spec() -> bool {
        true
    }

    open spec fn eq_spec(&self, other: &TopicHash) -> bool {
        self@ == other@
    }
}

impl PartialOrd for TopicHash {
    fn partial_cmp(&self, other: &TopicHash) -> (r: Option<Ordering>) {
        Some(compare_str(self.hash.as_str(), other.hash.as_str()))
    }
}

impl vstd::std_specs::cmp::PartialOrdSpecImpl for TopicHash {
    open spec fn obeys_partial_cmp_spec() -> bool {
        true
    }

    open spec fn partial_cmp_spec(&self, other: &TopicHash) -> Option<Ordering> {
        Some(lex_cmp(self@, other@))
    }
}

/// A derivation strategy: turns a topic name into a topic key.  A strategy
/// is stateless, total and deterministic: the key it returns is the function
/// `spec_hash` of the name alone.
pub trait Hasher {
    /// The key string this strategy derives from a given topic name.
    spec fn spec_hash(topic_string: Seq<char>) -> Seq<char>;

    /// The function that takes a topic string and creates a topic hash.
    fn hash(topic_string: String) -> (r: TopicHash)
        ensures
            r@ == Self::spec_hash(topic_string@),
    ;
}

/// A type for representing topics which use the identity hash.
#[derive(Debug, Clone)]
pub struct IdentityHash {}

impl Hasher for IdentityHash {
    /// The key is the name itself, unmodified.
    open spec fn spec_hash(topic_string: Seq<char>) -> Seq<char> {
        topic_string
    }

    /// Creates a [`TopicHash`] as a raw string.
    fn hash(topic_string: String) -> (r: TopicHash) {
        TopicHash { hash: topic_string }
    }
}

/// A type for representing topics which hide the name behind a digest.
#[derive(Debug, Clone)]
pub struct Sha256Hash {}

impl Hasher for Sha256Hash {
    /// The padded base64 rendering of the SHA-256 digest of the name's
    /// canonical envelope.
    open spec fn spec_hash(topic_string: Seq<char>) -> Seq<char> {
        base64_of(sha256_of(spec_topic_descriptor(topic_string)))
    }

    /// Creates a [`TopicHash`] by SHA256 hashing the canonical encoding of
    /// the topic, then base64 encoding the digest.  The key has the fixed
    /// length of a padded base64 rendering of a 32-byte digest, whatever the
    /// name's length.
    fn hash(topic_string: String) -> (r: TopicHash)
        ensures
            r@.len() == 44,
    {
        let bytes = encode_topic_descriptor(topic_string.as_str());
        let digest = sha256_digest(bytes.as_slice());
        let hash = base64_encode(digest.as_slice());
        TopicHash { hash }
    }
}

/// A topic, bound at construction to the strategy that derives its key.
#[derive(Debug)]
pub struct Topic<H: Hasher> {
    topic: String,
    phantom_data: core::marker::PhantomData<H>,
}

impl<H: Hasher> Topic<H> {
    /// The bound topic name.
    pub closed spec fn name(&self) -> Seq<char> {
        self.topic@
    }

    /// Binds the name `topic` to the strategy `H`.  The binding is immutable
    /// for the topic's lifetime.
    pub fn new(topic: String) -> (r: Self)
        ensures
            r.name() == topic@,
    {
        Topic { topic, phantom_data: core::marker::PhantomData }
    }

    /// Derives this topic's key with the bound strategy.
    pub fn hash(&self) -> (r: TopicHash)
        ensures
            r@ == H::spec_hash(self.name()),
    {
        H::hash(self.topic.clone())
    }

    /// The original name, not the key: what display surfaces show.  Under a
    /// hashing strategy the two differ.
    pub fn to_string(&self) -> (r: String)
        ensures
            r@ == self.name(),
    {
        self.topic.clone()
    }
}

impl<H: Hasher> Clone for Topic<H> {
    fn clone(&self) -> (r: Self)
        ensures
            r.name() == self.name(),
    {
        Topic { topic: self.topic.clone(), phantom_data: core::marker::PhantomData }
    }
}

impl<H: Hasher> PartialEq for Topic<H> {
    fn eq(&self, other: &Topic<H>) -> (r: bool) {
        self.topic == other.topic
    }
}

impl<H: Hasher> Eq for Topic<H> {}

impl<H: Hasher> vstd::std_specs::cmp::PartialEqSpecImpl for Topic<H> {
    open spec fn obeys_eq_spec() -> bool {
        true
    }

    open spec fn eq_spec(&self, other: &Topic<H>) -> bool {
        self.name() == other.name()
    }
}

impl<H: Hasher> From<Topic<H>> for TopicHash {
    /// Derives the topic's key with its bound strategy: converting a topic
    /// into a key is exactly calling [`Topic::hash`] on it.
    fn from(topic: Topic<H>) -> (r: TopicHash)
        ensures
            r@ == H::spec_hash(topic.name()),
    {
        topic.hash()
    }
}

impl<H: Hasher> vstd::std_specs::convert::FromSpecImpl<Topic<H>> for TopicHash {
    // The key *value* cannot be written down here (no string can be built at
    // the specification level), so `from_spec` stays unconstrained; the
    // result's view is pinned instead by the `ensures` on `from` above.
    open spec fn obeys_from_spec() -> bool {
        false
    }

    open spec fn from_spec(topic: Topic<H>) -> TopicHash {
        arbitrary()
    }
}

/// Determinism law: a strategy's key is a function of the topic name alone,
/// so any two keys derived from the same name with the same strategy are
/// equal.
pub proof fn lemma_derive_deterministic<H: Hasher>(k1: TopicHash, k2: TopicHash, name: Seq<char>)
    requires
        k1@ == H::spec_hash(name),
        k2@ == H::spec_hash(name),
    ensures
        k1@ == k2@,
{
}

/// The provable part of one-wayness: a cryptographic key is 44 characters
/// long, so it never equals a topic name of any other length.  Whether a
/// 44-character name could equal its own key is not decided here: the
/// digest is opaque to the verifier.
pub proof fn lemma_fixed_length_key_differs(k: TopicHash, name: Seq<char>)
    requires
        k@.len() == 44,
        name.len() != 44,
    ensures
        k@ != name,
{
}

/// Round-trip law: a key rebuilt from its own string projection is equal to
/// the original.  `into_string` and `as_str` pin the projection to the key's
/// string, and `from_raw` pins the rebuilt key's string to the projection.
pub proof fn lemma_from_raw_round_trip(k: TopicHash, projection: Seq<char>, rebuilt: TopicHash)
    requires
        projection == k@,
        rebuilt@ == projection,
    ensures
        rebuilt@ == k@,
        rebuilt.eq_spec(&k),
{
}

/// Ordering law: keys built from raw strings compare exactly as the strings
/// compare lexicographically, and compare equal exactly on equal strings.
pub proof fn lemma_from_raw_ordering(ka: TopicHash, kb: TopicHash, a: Seq<char>, b: Seq<char>)
    requires
        ka@ == a,
        kb@ == b,
    ensures
        ka.partial_cmp_spec(&kb) == Some(lex_cmp(a, b)),
        (ka.partial_cmp_spec(&kb) == Some(Ordering::Less)) <==> lex_cmp(a, b) == Ordering::Less,
        (ka.partial_cmp_spec(&kb) == Some(Ordering::Equal)) <==> a == b,
{
    lemma_lex_cmp_equal_iff(a, b);
}

/// Total-order law, antisymmetry: one key comes before a second exactly
/// when the second comes after the first, so comparing in either direction
/// agrees.
pub proof fn lemma_key_order_antisymmetric(ka: TopicHash, kb: TopicHash)
    ensures
        (ka.partial_cmp_spec(&kb) == Some(Ordering::Less)) <==> (kb.partial_cmp_spec(&ka)
            == Some(Ordering::Greater)),
        (ka.partial_cmp_spec(&kb) == Some(Ordering::Equal)) <==> (kb.partial_cmp_spec(&ka)
            == Some(Ordering::Equal)),
{
    lemma_lex_cmp_antisymmetric(ka@, kb@);
    lemma_lex_cmp_equal_iff(ka@, kb@);
    lemma_lex_cmp_equal_iff(kb@, ka@);
}

/// Total-order law, transitivity: keys below a common bound stay in order,
/// so keys sort consistently in ordered containers across peers.
pub proof fn lemma_key_order_transitive(ka: TopicHash, kb: TopicHash, kc: TopicHash)
    requires
        ka.partial_cmp_spec(&kb) == Some(Ordering::Less),
        kb.partial_cmp_spec(&kc) == Some(Ordering::Less),
    ensures
        ka.partial_cmp_spec(&kc) == Some(Ordering::Less),
{
    lemma_lex_cmp_transitive(ka@, kb@, kc@);
}

} // verus!
