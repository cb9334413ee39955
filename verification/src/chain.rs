//! Replica identifiers in their text form.
//!
//! A replica is addressed by 32 bytes written as 64 hexadecimal digits. The
//! reducers keep identifiers as text; whether a text addresses a replica, and
//! which one, is decided by the identifier type of the messaging layer.

use vstd::prelude::*;
use crate::text::opt_view;
use linera_base::crypto::CryptoHash;
use linera_base::identifiers::ChainId;
use std::str::FromStr;

verus! {

/// Whether a character is a hexadecimal digit of either case.
pub open spec fn is_hex_digit(c: char) -> bool {
    ('0' <= c && c <= '9') || ('a' <= c && c <= 'f') || ('A' <= c && c <= 'F')
}

/// The lower-case form of a hexadecimal digit.
pub open spec fn lower_hex(c: char) -> char {
    if 'A' <= c && c <= 'F' {
        ((c as u8 + 32) as u8) as char
    } else {
        c
    }
}

/// Whether a text is made of exactly 64 hexadecimal digits.
pub open spec fn is_hash_text(s: Seq<char>) -> bool {
    s.len() == 64 && forall|i: int| 0 <= i < s.len() ==> is_hex_digit(#[trigger] s[i])
}

/// The canonical text of the identifier that `s` denotes: its 64 digits in
/// lower case. Nothing where `s` denotes no identifier.
pub open spec fn canonical_id(s: Seq<char>) -> Option<Seq<char>> {
    if is_hash_text(s) {
        Some(s.map_values(|c: char| lower_hex(c)))
    } else {
        None
    }
}

/// Parses a replica identifier with `ChainId::from_str` and writes it back
/// with `ChainId::to_string`. Parsing decodes hexadecimal digits of either
/// case and succeeds exactly on 32 bytes; writing gives lower-case digits.
#[verifier::external_body]
pub(crate) fn parse_chain_id(text: &str) -> (r: Option<String>)
    ensures
        opt_view(r) == canonical_id(text@),
{
    ChainId::from_str(text).ok().map(|id| id.to_string())
}

/// Parses the hash of a blob with `CryptoHash::from_str` and writes it back
/// with `CryptoHash::to_string`, under the same rules as replica identifiers.
#[verifier::external_body]
pub(crate) fn parse_blob_hash(text: &str) -> (r: Option<String>)
    ensures
        opt_view(r) == canonical_id(text@),
{
    CryptoHash::from_str(text).ok().map(|hash| hash.to_string())
}

/// The canonical texts of those entries of `ids` that denote a replica, in
/// the order of `ids`.
pub open spec fn reachable(ids: Seq<Seq<char>>) -> Seq<Seq<char>>
    decreases ids.len(),
{
    if ids.len() == 0 {
        Seq::empty()
    } else {
        match canonical_id(ids.last()) {
            Some(c) => reachable(ids.drop_last()).push(c),
            None => reachable(ids.drop_last()),
        }
    }
}

/// Canonical identifiers of the entries of `ids` that denote a replica.
pub fn reachable_ids(ids: &Vec<String>) -> (r: Vec<String>)
    ensures
        crate::text::strings_view(r@) == reachable(crate::text::strings_view(ids@)),
{
    let mut out: Vec<String> = Vec::new();
    let mut i: usize = 0;
    let ghost all = crate::text::strings_view(ids@);
    while i < ids.len()
        invariant
            i <= ids.len(),
            all == crate::text::strings_view(ids@),
            crate::text::strings_view(out@) == reachable(all.take(i as int)),
        decreases ids.len() - i,
    {
        let parsed = parse_chain_id(ids[i].as_str());
        proof {
            assert(all.take(i as int + 1).drop_last() == all.take(i as int));
            assert(all.take(i as int + 1).last() == ids@[i as int]@);
        }
        match parsed {
            Some(c) => {
                proof {
                    assert(crate::text::strings_view(out@.push(c)) == crate::text::strings_view(out@).push(c@));
                }
                out.push(c);
            },
            None => {},
        }
        i += 1;
    }
    proof {
        assert(all.take(ids.len() as int) == all);
    }
    out
}

} // verus!
