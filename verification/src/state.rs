//! The revocation registry itself: key derivation and the revoked / valid
//! state of each (prefix, account, permit name) triple.

use vstd::prelude::*;

verus! {

use crate::permit_key_chars;
use crate::storage::{empty_contents, store_contents, store_get, store_set};
use vstd::utf8::{decode_utf8, encode_utf8, encode_utf8_decode_utf8};

/// The storage key under which a permit's revocation fact is recorded:
/// the UTF-8 bytes of the prefix, account and permit name concatenated
/// in that order.
pub open spec fn permit_key(
    prefix: Seq<char>,
    account: Seq<char>,
    permit_name: Seq<char>,
) -> Seq<u8> {
    encode_utf8(permit_key_chars(prefix, account, permit_name))
}

/// The sentinel stored under a revoked permit's key. Its exact bytes are
/// deliberately kept out of the public contract: all that matters is that
/// it is non-empty (the backing store refuses empty values) and that the
/// same sentinel is written on every revocation.
pub closed spec fn presence_marker() -> Seq<u8> {
    seq![95u8]
}

/// The sentinel is non-empty, as the backing store requires.
pub proof fn lemma_presence_marker_nonempty()
    ensures
        presence_marker().len() > 0,
{
}

/// Builds the sentinel value written under a revoked permit's key.
fn presence_marker_bytes() -> (value: Vec<u8>)
    ensures
        value@ == presence_marker(),
{
    let mut value: Vec<u8> = Vec::new();
    value.push(95u8);
    proof {
        assert(value@ =~= presence_marker());
    }
    value
}

/// Builds the storage key for a permit as a `String`, by concatenating
/// prefix, account and permit name with no separator.
pub fn permit_key_string(storage_prefix: &str, account: &str, permit_name: &str) -> (key: String)
    ensures
        key@ == permit_key_chars(storage_prefix@, account@, permit_name@),
{
    let mut key = storage_prefix.to_owned();
    key.append(account);
    key.append(permit_name);
    key
}

/// The revocation registry: a presence record per revoked permit, held in
/// a caller-supplied key-value store.
pub struct RevokedPermits;

impl RevokedPermits {
    /// Returns whether the given account's named permit has been revoked
    /// under the given namespace prefix: true exactly when the store holds
    /// a value under the permit's key.
    pub fn is_permit_revoked(
        storage: &cosmwasm_std::MemoryStorage,
        storage_prefix: &str,
        account: &str,
        permit_name: &str,
    ) -> (revoked: bool)
        ensures
            revoked == store_contents(*storage).contains_key(
                permit_key(storage_prefix@, account@, permit_name@),
            ),
    {
        let storage_key = permit_key_string(storage_prefix, account, permit_name);

        store_get(storage, storage_key.as_str().as_bytes()).is_some()
    }

    /// Marks the given account's named permit as revoked under the given
    /// namespace prefix, by writing the non-empty sentinel under the
    /// permit's key. Every other key of the store is left untouched, and
    /// revoking an already-revoked permit rewrites the same sentinel, so
    /// the operation is idempotent.
    pub fn revoke_permit(
        storage: &mut cosmwasm_std::MemoryStorage,
        storage_prefix: &str,
        account: &str,
        permit_name: &str,
    )
        ensures
            store_contents(*final(storage)) == store_contents(*old(storage)).insert(
                permit_key(storage_prefix@, account@, permit_name@),
                presence_marker(),
            ),
    {
        let storage_key = permit_key_string(storage_prefix, account, permit_name);
        let marker = presence_marker_bytes();
        proof {
            lemma_presence_marker_nonempty();
        }

        store_set(storage, storage_key.as_str().as_bytes(), marker.as_slice())
    }
}

/// UTF-8 encoding is injective: two character sequences with the same
/// encoding are the same sequence.
proof fn lemma_encode_utf8_injective(s1: Seq<char>, s2: Seq<char>)
    requires
        encode_utf8(s1) == encode_utf8(s2),
    ensures
        s1 == s2,
{
    broadcast use encode_utf8_decode_utf8;

    assert(decode_utf8(encode_utf8(s1)) == s1);
    assert(decode_utf8(encode_utf8(s2)) == s2);
}

/// Concatenation of sequences cancels on the right: equal results with the
/// same suffix come from the same first part.
proof fn lemma_concat_right_cancel(a1: Seq<char>, a2: Seq<char>, s: Seq<char>)
    requires
        a1 + s == a2 + s,
    ensures
        a1 == a2,
{
    assert((a1 + s).len() == a1.len() + s.len());
    assert((a2 + s).len() == a2.len() + s.len());
    assert(a1.len() == a2.len());
    assert forall|i: int| 0 <= i < a1.len() implies a1[i] == a2[i] by {
        assert((a1 + s)[i] == a1[i]);
        assert((a2 + s)[i] == a2[i]);
    }
    assert(a1 =~= a2);
}

/// Concatenation of sequences cancels on the left: equal results with the
/// same prefix come from the same second part.
proof fn lemma_concat_left_cancel(p: Seq<char>, b1: Seq<char>, b2: Seq<char>)
    requires
        p + b1 == p + b2,
    ensures
        b1 == b2,
{
    assert((p + b1).len() == p.len() + b1.len());
    assert((p + b2).len() == p.len() + b2.len());
    assert(b1.len() == b2.len());
    assert forall|i: int| 0 <= i < b1.len() implies b1[i] == b2[i] by {
        assert((p + b1)[p.len() + i] == b1[i]);
        assert((p + b2)[p.len() + i] == b2[i]);
    }
    assert(b1 =~= b2);
}

/// Two different namespace prefixes always derive different keys for the
/// same (account, permit name) pair.
pub proof fn lemma_keys_distinct_prefixes(
    prefix1: Seq<char>,
    prefix2: Seq<char>,
    account: Seq<char>,
    permit_name: Seq<char>,
)
    requires
        prefix1 != prefix2,
    ensures
        permit_key(prefix1, account, permit_name) != permit_key(prefix2, account, permit_name),
{
    if permit_key(prefix1, account, permit_name) == permit_key(prefix2, account, permit_name) {
        lemma_encode_utf8_injective(
            permit_key_chars(prefix1, account, permit_name),
            permit_key_chars(prefix2, account, permit_name),
        );
        assert(prefix1 + account + permit_name =~= prefix1 + (account + permit_name));
        assert(prefix2 + account + permit_name =~= prefix2 + (account + permit_name));
        lemma_concat_right_cancel(prefix1, prefix2, account + permit_name);
    }
}

/// Under one prefix, two different accounts always derive different keys
/// for the same permit name.
pub proof fn lemma_keys_distinct_accounts(
    prefix: Seq<char>,
    account1: Seq<char>,
    account2: Seq<char>,
    permit_name: Seq<char>,
)
    requires
        account1 != account2,
    ensures
        permit_key(prefix, account1, permit_name) != permit_key(prefix, account2, permit_name),
{
    if permit_key(prefix, account1, permit_name) == permit_key(prefix, account2, permit_name) {
        lemma_encode_utf8_injective(
            permit_key_chars(prefix, account1, permit_name),
            permit_key_chars(prefix, account2, permit_name),
        );
        assert(prefix + account1 + permit_name =~= prefix + (account1 + permit_name));
        assert(prefix + account2 + permit_name =~= prefix + (account2 + permit_name));
        lemma_concat_left_cancel(prefix, account1 + permit_name, account2 + permit_name);
        lemma_concat_right_cancel(account1, account2, permit_name);
    }
}

/// Under one prefix, two different permit names always derive different
/// keys for the same account.
pub proof fn lemma_keys_distinct_names(
    prefix: Seq<char>,
    account: Seq<char>,
    permit_name1: Seq<char>,
    permit_name2: Seq<char>,
)
    requires
        permit_name1 != permit_name2,
    ensures
        permit_key(prefix, account, permit_name1) != permit_key(prefix, account, permit_name2),
{
    if permit_key(prefix, account, permit_name1) == permit_key(prefix, account, permit_name2) {
        lemma_encode_utf8_injective(
            permit_key_chars(prefix, account, permit_name1),
            permit_key_chars(prefix, account, permit_name2),
        );
        lemma_concat_left_cancel(prefix + account, permit_name1, permit_name2);
    }
}

/// In a fresh store no permit is revoked: the empty contents hold no key,
/// so `is_permit_revoked` returns false for every triple.
pub proof fn lemma_fresh_permit_not_revoked(
    prefix: Seq<char>,
    account: Seq<char>,
    permit_name: Seq<char>,
)
    ensures
        !empty_contents().contains_key(permit_key(prefix, account, permit_name)),
{
}

/// Revoking sets the fact: after `revoke_permit` writes the sentinel under
/// a permit's key, `is_permit_revoked` finds that key present.
pub proof fn lemma_revoke_sets_fact(
    contents: Map<Seq<u8>, Seq<u8>>,
    prefix: Seq<char>,
    account: Seq<char>,
    permit_name: Seq<char>,
)
    ensures
        contents.insert(permit_key(prefix, account, permit_name), presence_marker()).contains_key(
            permit_key(prefix, account, permit_name),
        ),
{
}

/// Revocation is idempotent: revoking a permit twice leaves the store with
/// exactly the contents that one revocation leaves.
pub proof fn lemma_revoke_idempotent(
    contents: Map<Seq<u8>, Seq<u8>>,
    prefix: Seq<char>,
    account: Seq<char>,
    permit_name: Seq<char>,
)
    ensures
        contents.insert(permit_key(prefix, account, permit_name), presence_marker()).insert(
            permit_key(prefix, account, permit_name),
            presence_marker(),
        ) == contents.insert(permit_key(prefix, account, permit_name), presence_marker()),
{
    let once = contents.insert(permit_key(prefix, account, permit_name), presence_marker());
    let twice = once.insert(permit_key(prefix, account, permit_name), presence_marker());
    assert(twice =~= once);
}

/// Revocation is monotonic: a key present in the store before a revocation
/// is still present after it, whatever permit the revocation names. Once
/// revoked, a permit never returns to the valid state through this
/// registry.
pub proof fn lemma_revocation_monotonic(
    contents: Map<Seq<u8>, Seq<u8>>,
    prefix: Seq<char>,
    account: Seq<char>,
    permit_name: Seq<char>,
    key: Seq<u8>,
)
    requires
        contents.contains_key(key),
    ensures
        contents.insert(permit_key(prefix, account, permit_name), presence_marker()).contains_key(
            key,
        ),
{
}

/// Writing the sentinel under one key leaves the presence of every other
/// key unchanged.
pub proof fn lemma_revoke_leaves_other_keys(
    contents: Map<Seq<u8>, Seq<u8>>,
    key_written: Seq<u8>,
    key_other: Seq<u8>,
)
    requires
        key_written != key_other,
    ensures
        contents.insert(key_written, presence_marker()).contains_key(key_other)
            == contents.contains_key(key_other),
{
}

/// Isolation: under one prefix, revoking a permit changes the revocation
/// state of no permit that differs from it in the account alone or in the
/// permit name alone. (When both components differ at once, the
/// separator-free concatenation can let two triples alias to one key, so
/// no such guarantee is stated.)
pub proof fn lemma_revoke_isolated(
    contents: Map<Seq<u8>, Seq<u8>>,
    prefix: Seq<char>,
    account1: Seq<char>,
    permit_name1: Seq<char>,
    account2: Seq<char>,
    permit_name2: Seq<char>,
)
    requires
        account1 == account2 && permit_name1 != permit_name2 || account1 != account2
            && permit_name1 == permit_name2,
    ensures
        contents.insert(permit_key(prefix, account1, permit_name1), presence_marker()).contains_key(
            permit_key(prefix, account2, permit_name2),
        ) == contents.contains_key(permit_key(prefix, account2, permit_name2)),
{
    if account1 == account2 {
        lemma_keys_distinct_names(prefix, account1, permit_name1, permit_name2);
    } else {
        lemma_keys_distinct_accounts(prefix, account1, account2, permit_name1);
    }
    lemma_revoke_leaves_other_keys(
        contents,
        permit_key(prefix, account1, permit_name1),
        permit_key(prefix, account2, permit_name2),
    );
}

/// Namespace separation: revoking a permit under one prefix changes the
/// revocation state of no permit under any other prefix with the same
/// account and permit name.
pub proof fn lemma_namespace_separation(
    contents: Map<Seq<u8>, Seq<u8>>,
    prefix1: Seq<char>,
    prefix2: Seq<char>,
    account: Seq<char>,
    permit_name: Seq<char>,
)
    requires
        prefix1 != prefix2,
    ensures
        contents.insert(permit_key(prefix1, account, permit_name), presence_marker()).contains_key(
            permit_key(prefix2, account, permit_name),
        ) == contents.contains_key(permit_key(prefix2, account, permit_name)),
{
    lemma_keys_distinct_prefixes(prefix1, prefix2, account, permit_name);
    lemma_revoke_leaves_other_keys(
        contents,
        permit_key(prefix1, account, permit_name),
        permit_key(prefix2, account, permit_name),
    );
}

} // verus!

