//! Partition keys: the Redis data-key routing and drainer-stream sharding of KV
//! resources.

use vstd::prelude::*;
use vstd::string::StringExecFns;

use crate::text::{concat, decimal_string, decimal_text};

verus! {

/// Partition key for Redis data-key routing and drainer stream derivation.
#[derive(Debug, Clone, Copy)]
pub enum PartitionKey<'a> {
    CombinationKey { combination: &'a str },
    Fingerprint { fingerprint_hash: &'a [u8] },
    HashTable { data_hash: &'a [u8] },
    Locker { merchant_id: &'a str, customer_id: &'a str },
    ReverseLookup { lookup_id: &'a str },
    Vault { entity_id: &'a str, vault_id: &'a str },
}

/// The lowercase hexadecimal digit of `n` (`0 <= n < 16`).
pub open spec fn hex_digit(n: int) -> char {
    if n < 10 {
        (n + 48) as char
    } else {
        (n + 87) as char
    }
}

/// Lowercase hexadecimal text of `bytes`: two digits per byte, high nibble first.
pub open spec fn hex_lower(bytes: Seq<u8>) -> Seq<char>
    decreases bytes.len(),
{
    if bytes.len() == 0 {
        Seq::empty()
    } else {
        hex_lower(bytes.drop_last()) + seq![
            hex_digit((bytes.last() / 16) as int),
            hex_digit((bytes.last() % 16) as int),
        ]
    }
}

/// Wraps `hex::encode`: the lowercase hexadecimal text of `data`, two digits per byte,
/// high nibble first.
#[verifier::external_body]
fn hex_encode(data: &[u8]) -> (r: String)
    ensures
        r@ == hex_lower(data@),
{
    hex::encode(data)
}

/// The CRC-32 (IEEE) checksum of `data`, as `crc32fast::hash` computes it.
pub uninterp spec fn crc32_checksum(data: Seq<u8>) -> u32;

/// Wraps `crc32fast::hash`; the result is named [`crc32_checksum`].
#[verifier::external_body]
fn crc32_hash(data: &[u8]) -> (r: u32)
    ensures
        r == crc32_checksum(data@),
{
    crc32fast::hash(data)
}

/// The text of a partition key.
pub open spec fn partition_key_text(key: PartitionKey) -> Seq<char> {
    match key {
        PartitionKey::CombinationKey { combination } => combination@,
        PartitionKey::Fingerprint { fingerprint_hash } => "fingerprint_"@ + hex_lower(
            fingerprint_hash@,
        ),
        PartitionKey::HashTable { data_hash } => "hash_table_"@ + hex_lower(data_hash@),
        PartitionKey::Locker { merchant_id, customer_id } => "locker_"@ + merchant_id@ + "_"@
            + customer_id@,
        PartitionKey::ReverseLookup { lookup_id } => "reverse_lookup_"@ + lookup_id@,
        PartitionKey::Vault { entity_id, vault_id } => "vault_"@ + entity_id@ + "_"@ + vault_id@,
    }
}

/// The partition (of `num_partitions`) a key falls in: the CRC-32 of the key's UTF-8
/// text, modulo the number of partitions.
pub open spec fn partition_index(key: PartitionKey, num_partitions: u8) -> u32 {
    (crc32_checksum(vstd::utf8::encode_utf8(partition_key_text(key))) % (num_partitions as u32)) as u32
}

/// The drainer shard key of a partition: `shard_<n>`.
pub open spec fn shard_key_text(key: PartitionKey, num_partitions: u8) -> Seq<char> {
    "shard_"@ + decimal_text(partition_index(key, num_partitions) as nat)
}

/// The Redis data key of a partition key: the shard key as a Redis hash tag, then the
/// partition key, so that data key and drainer stream share a cluster slot.
pub open spec fn data_key_text(key: PartitionKey, num_partitions: u8) -> Seq<char> {
    "{"@ + shard_key_text(key, num_partitions) + "}:"@ + partition_key_text(key)
}

impl<'a> PartitionKey<'a> {
    /// The text of the key (`locker_<merchant>_<customer>`, `fingerprint_<hex>`, ...).
    pub fn to_string(&self) -> (r: String)
        ensures
            r@ == partition_key_text(*self),
    {
        match self {
            PartitionKey::CombinationKey { combination } => crate::text::to_owned_string(combination),
            PartitionKey::Fingerprint { fingerprint_hash } => {
                let hex = hex_encode(fingerprint_hash);
                concat("fingerprint_", hex.as_str())
            },
            PartitionKey::HashTable { data_hash } => {
                let hex = hex_encode(data_hash);
                concat("hash_table_", hex.as_str())
            },
            PartitionKey::Locker { merchant_id, customer_id } => {
                let mut s = concat("locker_", merchant_id);
                s.append("_");
                s.append(customer_id);
                s
            },
            PartitionKey::ReverseLookup { lookup_id } => concat("reverse_lookup_", lookup_id),
            PartitionKey::Vault { entity_id, vault_id } => {
                let mut s = concat("vault_", entity_id);
                s.append("_");
                s.append(vault_id);
                s
            },
        }
    }
}

/// The partition of `key`; see [`partition_index`].
pub fn partition_number_of(key: PartitionKey<'_>, num_partitions: u8) -> (r: u32)
    requires
        num_partitions > 0,
    ensures
        r == partition_index(key, num_partitions),
{
    let text = key.to_string();
    let hash = crc32_hash(text.as_str().as_bytes());
    hash % (num_partitions as u32)
}

/// The drainer shard key of `key`; see [`shard_key_text`].
pub fn shard_key_of(key: PartitionKey<'_>, num_partitions: u8) -> (r: String)
    requires
        num_partitions > 0,
    ensures
        r@ == shard_key_text(key, num_partitions),
{
    let n = partition_number_of(key, num_partitions);
    let digits = decimal_string(n as u64);
    concat("shard_", digits.as_str())
}

/// The Redis data key of `key`; see [`data_key_text`].
pub fn data_key_of(key: PartitionKey<'_>, num_partitions: u8) -> (r: String)
    requires
        num_partitions > 0,
    ensures
        r@ == data_key_text(key, num_partitions),
{
    let partition_key = key.to_string();
    let shard_key = shard_key_of(key, num_partitions);
    let mut s = concat("{", shard_key.as_str());
    s.append("}:");
    s.append(partition_key.as_str());
    s
}

/// Types that participate in KV sharding.
pub trait KvStorePartition {
    /// The partition `key` falls in among `num_partitions`.
    fn partition_number(key: PartitionKey<'_>, num_partitions: u8) -> (r: u32)
        requires
            num_partitions > 0,
        ensures
            r == partition_index(key, num_partitions),
    {
        partition_number_of(key, num_partitions)
    }

    /// The drainer shard key `shard_<partition>` of `key`.
    fn shard_key(key: PartitionKey<'_>, num_partitions: u8) -> (r: String)
        requires
            num_partitions > 0,
        ensures
            r@ == shard_key_text(key, num_partitions),
    {
        shard_key_of(key, num_partitions)
    }

    /// The Redis data key `{<shard key>}:<partition key>` of `key`.
    fn data_key(key: PartitionKey<'_>, num_partitions: u8) -> (r: String)
        requires
            num_partitions > 0,
        ensures
            r@ == data_key_text(key, num_partitions),
    {
        data_key_of(key, num_partitions)
    }
}

/// The data key keeps the partition key intact after the shard hash tag, so the
/// partition key can be recovered from it, and the hash tag is the shard key.
pub proof fn lemma_data_key_preserves_partition_key(key: PartitionKey, num_partitions: u8)
    ensures
        data_key_text(key, num_partitions).subrange(
            data_key_text(key, num_partitions).len() - partition_key_text(key).len(),
            data_key_text(key, num_partitions).len() as int,
        ) == partition_key_text(key),
        data_key_text(key, num_partitions).subrange(1, 1 + shard_key_text(key, num_partitions).len() as int)
            == shard_key_text(key, num_partitions),
{
    reveal_strlit("{");
    reveal_strlit("}:");
    let d = data_key_text(key, num_partitions);
    let p = partition_key_text(key);
    let s = shard_key_text(key, num_partitions);
    assert(d == ("{"@ + s + "}:"@) + p);
    assert(d.subrange(d.len() - p.len(), d.len() as int) =~= p);
    assert(d == "{"@ + (s + ("}:"@ + p)));
    assert(d.subrange(1, 1 + s.len() as int) =~= s);
}

/// The first index at or after `from` where `s` holds `c`, or `-1` when there is none.
pub open spec fn first_index_from(s: Seq<char>, c: char, from: int) -> int
    decreases s.len() - from,
{
    if from < 0 || from >= s.len() {
        -1
    } else if s[from] == c {
        from
    } else {
        first_index_from(s, c, from + 1)
    }
}

/// The part of a key that Redis Cluster hashes to pick the key's slot: the text
/// between the first `{` and the first `}` after it, when that text is not empty;
/// otherwise the whole key.
pub open spec fn redis_hash_tag(key: Seq<char>) -> Seq<char> {
    let open = first_index_from(key, '{', 0);
    let close = first_index_from(key, '}', open + 1);
    if open < 0 || close < 0 || close == open + 1 {
        key
    } else {
        key.subrange(open + 1, close)
    }
}

proof fn lemma_first_index_from(s: Seq<char>, c: char, from: int, at: int)
    requires
        0 <= from <= at < s.len(),
        s[at] == c,
        forall|k: int| from <= k < at ==> s[k] != c,
    ensures
        first_index_from(s, c, from) == at,
    decreases at - from,
{
    if from < at {
        lemma_first_index_from(s, c, from + 1, at);
    }
}

proof fn lemma_decimal_text_digits(n: nat)
    ensures
        decimal_text(n).len() > 0,
        forall|i: int|
            0 <= i < decimal_text(n).len() ==> '0' <= #[trigger] decimal_text(n)[i] <= '9',
    decreases n,
{
    if n >= 10 {
        lemma_decimal_text_digits(n / 10);
    }
}

/// Redis Cluster places a data key by its hash tag, and the hash tag of the data key
/// of any partition key is exactly the partition's drainer shard key: every record of
/// a partition lands in the cluster slot of that shard key.
pub proof fn lemma_data_key_hash_tag_is_shard_key(key: PartitionKey, num_partitions: u8)
    ensures
        redis_hash_tag(data_key_text(key, num_partitions)) == shard_key_text(key, num_partitions),
{
    reveal_strlit("{");
    reveal_strlit("}:");
    reveal_strlit("shard_");
    let d = data_key_text(key, num_partitions);
    let s = shard_key_text(key, num_partitions);
    let digits = decimal_text(partition_index(key, num_partitions) as nat);
    lemma_decimal_text_digits(partition_index(key, num_partitions) as nat);
    assert(s == "shard_"@ + digits);
    assert(d == "{"@ + s + "}:"@ + partition_key_text(key));
    assert(d[0] == '{');
    lemma_first_index_from(d, '{', 0, 0);
    assert forall|k: int| 1 <= k < 1 + s.len() implies d[k] != '}' by {
        assert(d[k] == s[k - 1]);
        if k - 1 >= 6 {
            assert(s[k - 1] == digits[k - 1 - 6]);
        }
    }
    assert(d[1 + s.len() as int] == '}');
    lemma_first_index_from(d, '}', 1, 1 + s.len() as int);
    assert(d.subrange(1, 1 + s.len() as int) =~= s);
}

} // verus!
