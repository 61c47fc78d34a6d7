//! Resolution of a wire-format block selector into a typed query key.
//!
//! A selector is either a tag keyword or a `0x`-prefixed quantity or hash.
//! Every input string falls into exactly one of three classes: parsed
//! successfully, recognized but unsupported by this ledger, or malformed.
//! The classes map to distinct outcomes so that a caller's mistake is never
//! conflated with a capability gap, and a resolution failure never silently
//! defaults to the latest block.

use vstd::prelude::*;
use vstd::string::StrSliceExecFns;
use vstd::string::StringExecFns;

use crate::codec::all_hex;
use crate::codec::hex_bytes;
use crate::codec::hex_num;
use crate::codec::parse_hex_bytes;
use crate::codec::parse_hex_u64;
use crate::errors::RpcError;
use crate::errors::is_invalid_params;

verus! {

/// The ledger snapshot a query targets. Constructed once per request;
/// a hash key always holds exactly thirty-two bytes.
pub enum BlockKey {
    Latest,
    Pending,
    Number(u64),
    Hash(Vec<u8>),
}

impl BlockKey {
    /// Well-formedness: a hash selector carries a full thirty-two bytes.
    pub open spec fn wf(self) -> bool {
        self matches BlockKey::Hash(h) ==> h@.len() == 32
    }
}

/// Tag keywords this ledger can serve.
pub open spec fn is_supported_tag(s: Seq<char>) -> bool {
    s == "latest"@ || s == "pending"@
}

/// Tag keywords that are part of the wire grammar but that this ledger
/// cannot serve.
pub open spec fn is_unsupported_tag(s: Seq<char>) -> bool {
    s == "earliest"@
}

/// A `0x` marker followed by at least one character.
pub open spec fn has_hex_prefix(s: Seq<char>) -> bool {
    s.len() >= 3 && s[0] == '0' && s[1] == 'x'
}

/// A block-hash selector: `0x` plus exactly sixty-four hex digits.
pub open spec fn is_hash_str(s: Seq<char>) -> bool {
    has_hex_prefix(s) && s.len() == 66 && all_hex(s.subrange(2, 66))
}

/// A block-number selector: `0x` plus hex digits whose value fits a `u64`.
/// Sixty-four digits are read as a hash, never as a number.
pub open spec fn is_quantity_str(s: Seq<char>) -> bool {
    &&& has_hex_prefix(s)
    &&& s.len() != 66
    &&& all_hex(s.subrange(2, s.len() as int))
    &&& hex_num(s.subrange(2, s.len() as int)) <= u64::MAX
}

/// The selector resolves to a key.
pub open spec fn block_parse_ok(s: Seq<char>) -> bool {
    is_supported_tag(s) || is_quantity_str(s) || is_hash_str(s)
}

/// The selector is well-formed but names a mode this ledger lacks.
pub open spec fn block_unsupported(s: Seq<char>) -> bool {
    is_unsupported_tag(s)
}

/// The selector cannot be read at all.
pub open spec fn block_invalid(s: Seq<char>) -> bool {
    !block_parse_ok(s) && !block_unsupported(s)
}

/// The one key that a successfully parsed selector denotes.
pub open spec fn block_key_matches(s: Seq<char>, k: BlockKey) -> bool {
    if s == "latest"@ {
        k == BlockKey::Latest
    } else if s == "pending"@ {
        k == BlockKey::Pending
    } else if is_hash_str(s) {
        k matches BlockKey::Hash(h) && h@ == hex_bytes(s.subrange(2, 66))
    } else if is_quantity_str(s) {
        k matches BlockKey::Number(n) && n == hex_num(s.subrange(2, s.len() as int))
    } else {
        false
    }
}

/// The message a malformed selector is reported with.
pub open spec fn block_parse_msg() -> Seq<char> {
    "Failed to parse block number"@
}

/// Resolves a block selector string into a typed key.
///
/// The three outcome classes are disjoint and exhaustive over all strings
/// (`lemma_block_key_partition`): a parsed key, a `NotImplemented` error for
/// a recognized-but-unsupported mode, and an `InvalidParams` error for a
/// malformed selector.
pub fn validate_block_key(block: String) -> (r: Result<BlockKey, RpcError>)
    ensures
        block_parse_ok(block@) ==> (r matches Ok(k) && block_key_matches(block@, k) && k.wf()),
        block_unsupported(block@) ==> (r matches Err(e) && e is NotImplemented),
        block_invalid(block@) ==> is_invalid_params(r, block_parse_msg()),
{
    proof {
        reveal_strlit("latest");
        reveal_strlit("pending");
        reveal_strlit("earliest");
        assert("latest"@.len() == 6);
        assert("pending"@.len() == 7);
        assert("earliest"@.len() == 8);
    }
    if block == String::from_str("latest") {
        return Ok(BlockKey::Latest);
    }
    if block == String::from_str("pending") {
        return Ok(BlockKey::Pending);
    }
    if block == String::from_str("earliest") {
        return Err(RpcError::NotImplemented);
    }
    let n = block.as_str().unicode_len();
    if n < 3 {
        return Err(RpcError::InvalidParams(String::from_str("Failed to parse block number")));
    }
    if !(block.as_str().get_char(0) == '0' && block.as_str().get_char(1) == 'x') {
        return Err(RpcError::InvalidParams(String::from_str("Failed to parse block number")));
    }
    if n == 66 {
        let digits = block.as_str().substring_char(2, 66);
        match parse_hex_bytes(digits) {
            Some(bytes) => Ok(BlockKey::Hash(bytes)),
            None => Err(RpcError::InvalidParams(String::from_str("Failed to parse block number"))),
        }
    } else {
        let digits = block.as_str().substring_char(2, n);
        match parse_hex_u64(digits) {
            Some(v) => Ok(BlockKey::Number(v)),
            None => Err(RpcError::InvalidParams(String::from_str("Failed to parse block number"))),
        }
    }
}

/// The resolver's three outcome classes partition the space of selector
/// strings: every string falls in exactly one class.
pub proof fn lemma_block_key_partition(s: Seq<char>)
    ensures
        block_parse_ok(s) || block_unsupported(s) || block_invalid(s),
        !(block_parse_ok(s) && block_unsupported(s)),
        !(block_parse_ok(s) && block_invalid(s)),
        !(block_unsupported(s) && block_invalid(s)),
{
    if s == "earliest"@ {
        reveal_strlit("earliest");
        reveal_strlit("latest");
        reveal_strlit("pending");
        assert(s.len() == 8);
        assert("latest"@.len() == 6);
        assert("pending"@.len() == 7);
        assert(s[0] == 'e');
        assert(!has_hex_prefix(s));
    }
}

} // verus!
