//! Method selectors: the first four bytes of the Blake2b-256 digest of a
//! method name.

use subxt::config::substrate::BlakeTwo256;
use subxt::config::Hasher;
use vstd::prelude::*;

verus! {

/// Number of bytes in a selector.
pub const SELECTOR_LEN: usize = 4;

/// The 256-bit Blake2b digest of `data`, as `subxt`'s `BlakeTwo256` hasher
/// computes it.
pub uninterp spec fn blake2_256_digest(data: Seq<u8>) -> Seq<u8>;

/// Calls `BlakeTwo256::hash` of `subxt`. The digest depends on the input
/// bytes alone; its 32 bytes are named by `blake2_256_digest`.
#[verifier::external_body]
fn blake2_256(data: &[u8]) -> (digest: [u8; 32])
    ensures
        digest@ == blake2_256_digest(data@),
{
    BlakeTwo256.hash(data).0
}

/// The selector that a digest yields: its first four bytes.
pub open spec fn selector_of_digest(digest: Seq<u8>) -> Seq<u8> {
    digest.subrange(0, SELECTOR_LEN as int)
}

/// The selector of a method name: the leading bytes of the digest of its
/// UTF-8 encoding.
pub open spec fn selector_of(name: Seq<char>) -> Seq<u8> {
    selector_of_digest(blake2_256_digest(vstd::utf8::encode_utf8(name)))
}

/// A fixed-width identifier that dispatches to a constructor or a message of
/// a contract.
#[derive(Clone, Copy, Debug, PartialEq, Eq)]
pub struct MethodSelector {
    pub bytes: [u8; 4],
}

impl View for MethodSelector {
    type V = Seq<u8>;

    open spec fn view(&self) -> Seq<u8> {
        self.bytes@
    }
}

impl MethodSelector {
    /// Truncates a digest to its selector.
    pub fn from_digest(digest: &[u8; 32]) -> (sel: MethodSelector)
        ensures
            sel@ == selector_of_digest(digest@),
    {
        let sel = MethodSelector { bytes: [digest[0], digest[1], digest[2], digest[3]] };
        sel
    }

    /// Whether two selectors hold the same bytes.
    pub fn same_as(&self, other: &MethodSelector) -> (same: bool)
        ensures
            same == (self@ == other@),
    {
        let same = self.bytes[0] == other.bytes[0] && self.bytes[1] == other.bytes[1]
            && self.bytes[2] == other.bytes[2] && self.bytes[3] == other.bytes[3];
        proof {
            if same {
                assert(self@ =~= other@);
            } else {
                assert(self@[0] != other@[0] || self@[1] != other@[1] || self@[2] != other@[2]
                    || self@[3] != other@[3]);
            }
        }
        same
    }
}

/// Derives the selector of `method_name`.
pub fn selector_for(method_name: &str) -> (sel: MethodSelector)
    ensures
        sel@ == selector_of(method_name@),
{
    let digest = blake2_256(method_name.as_bytes());
    MethodSelector::from_digest(&digest)
}

/// The selector is a function of the name: the same name gives the same
/// selector, in every call.
pub proof fn lemma_selector_is_deterministic(first: Seq<char>, second: Seq<char>)
    requires
        first == second,
    ensures
        selector_of(first) == selector_of(second),
{
}

/// No two different names among `names` have the same selector.
pub open spec fn collision_free(names: Seq<Seq<char>>) -> bool {
    forall|i: int, j: int|
        0 <= i < names.len() && 0 <= j < names.len() && names[i] != names[j] ==> selector_of(
            #[trigger] names[i],
        ) != selector_of(#[trigger] names[j])
}

/// Says whether a set of method names can be told apart by selector alone.
pub fn is_collision_free(names: &Vec<String>) -> (free: bool)
    ensures
        free == collision_free(names.deep_view()),
{
    let ghost all = names.deep_view();
    let mut selectors: Vec<MethodSelector> = Vec::new();
    let mut k: usize = 0;
    while k < names.len()
        invariant
            k <= names.len(),
            all == names.deep_view(),
            selectors.len() == k,
            forall|i: int| 0 <= i < k ==> (#[trigger] selectors[i])@ == selector_of(all[i]),
        decreases names.len() - k,
    {
        selectors.push(selector_for(names[k].as_str()));
        k += 1;
    }
    let mut i: usize = 0;
    while i < names.len()
        invariant
            i <= names.len(),
            all == names.deep_view(),
            selectors.len() == names.len(),
            forall|n: int|
                0 <= n < names.len() ==> (#[trigger] selectors[n])@ == selector_of(all[n]),
            forall|a: int, b: int|
                0 <= a < i && a < b < names.len() && all[a] != all[b] ==> selector_of(
                    #[trigger] all[a],
                ) != selector_of(#[trigger] all[b]),
        decreases names.len() - i,
    {
        let mut j: usize = i + 1;
        while j < names.len()
            invariant
                i < j <= names.len(),
                all == names.deep_view(),
                selectors.len() == names.len(),
                forall|n: int|
                    0 <= n < names.len() ==> (#[trigger] selectors[n])@ == selector_of(all[n]),
                forall|b: int|
                    i < b < j && all[i as int] != all[b] ==> selector_of(all[i as int])
                        != selector_of(#[trigger] all[b]),
            decreases names.len() - j,
        {
            if names[i] != names[j] && selectors[i].same_as(&selectors[j]) {
                return false;
            }
            j += 1;
        }
        i += 1;
    }
    true
}

} // verus!
