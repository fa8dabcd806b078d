//! The request-level face of the search: validating a caller's parameters,
//! running the search, and shaping the outcome into a response. Transport
//! (HTTP, JSON) stays outside; this module works on plain values.

use vstd::prelude::*;
use vstd::string::StrSliceExecFns;
use crate::encoder::{base58_of, encode};
use crate::matcher::{spec_matches, MatchSpec, Position};

verus! {

/// A request: the pattern to look for, where it must stand ("prefix" or
/// "suffix", absent meaning suffix), and how many workers to use.
pub struct GenerateParams {
    pub search_type: Option<String>,
    pub pattern: String,
    pub threads: Option<usize>,
}

/// A successful outcome: the matching address, its keypair's Base58-encoded
/// 64 secret bytes, the request echoed back, and the search's telemetry.
pub struct GenerateResponse {
    pub address: String,
    pub private_key: String,
    pub pattern: String,
    pub search_type: String,
    pub attempts: u64,
    pub time_ms: u128,
}

/// A rejected request, with the reason spelled out.
pub struct ErrorResponse {
    pub error: String,
}

/// A character of the Base58 alphabet: ASCII alphanumeric with the four
/// ambiguous characters '0', 'O', 'I' and 'l' left out.
pub open spec fn is_base58_char(c: char) -> bool {
    ||| ('1' as u32 <= c as u32 && c as u32 <= '9' as u32)
    ||| ('A' as u32 <= c as u32 && c as u32 <= 'Z' as u32 && c as u32 != 'O' as u32 && c as u32
        != 'I' as u32)
    ||| ('a' as u32 <= c as u32 && c as u32 <= 'z' as u32 && c as u32 != 'l' as u32)
}

/// The search type the caller asked for; an absent one means suffix.
pub open spec fn requested_type(params: &GenerateParams) -> Seq<char> {
    match params.search_type {
        Some(s) => s@,
        None => "suffix"@,
    }
}

/// The position a search-type string names, if it names one.
pub open spec fn position_of(t: Seq<char>) -> Option<Position> {
    if t == "prefix"@ {
        Some(Position::Prefix)
    } else if t == "suffix"@ {
        Some(Position::Suffix)
    } else {
        None
    }
}

/// Why a request is turned away, as the reported message — or `None` for a
/// request the search accepts. The checks happen in this order: an empty
/// pattern, an over-long pattern, a character outside the alphabet, and an
/// unrecognized search type.
pub open spec fn spec_rejection(params: &GenerateParams) -> Option<Seq<char>> {
    if params.pattern@.len() == 0 {
        Some("Pattern cannot be empty"@)
    } else if params.pattern@.len() > 5 {
        Some("Pattern too long (max 5 characters for reasonable response time)"@)
    } else if !(forall|i: int|
        0 <= i < params.pattern@.len() ==> is_base58_char(params.pattern@[i])) {
        Some("Pattern must contain only Base58 characters (no 0, O, I, or l)"@)
    } else if position_of(requested_type(params)) is None {
        Some("Invalid search type. Use 'prefix' or 'suffix'"@)
    } else {
        None
    }
}

/// Decides membership in the Base58 alphabet.
fn base58_char(c: char) -> (r: bool)
    ensures
        r == is_base58_char(c),
{
    let n = c as u32;
    ('1' as u32 <= n && n <= '9' as u32) || ('A' as u32 <= n && n <= 'Z' as u32 && n != 'O' as u32
        && n != 'I' as u32) || ('a' as u32 <= n && n <= 'z' as u32 && n != 'l' as u32)
}

/// Decides string equality, character by character.
fn str_eq(a: &str, b: &str) -> (r: bool)
    ensures
        r == (a@ == b@),
{
    let alen = a.unicode_len();
    let blen = b.unicode_len();
    if alen != blen {
        return false;
    }
    let mut i: usize = 0;
    while i < alen
        invariant
            i <= alen,
            alen == a@.len(),
            alen == b@.len(),
            forall|j: int| 0 <= j < i ==> a@[j] == b@[j],
        decreases alen - i,
    {
        if a.get_char(i) != b.get_char(i) {
            return false;
        }
        i = i + 1;
    }
    proof {
        assert(a@ =~= b@);
    }
    true
}

/// Validates a request and, when it is acceptable, searches until a keypair
/// whose address satisfies it is found. A rejected request is answered with
/// the exact reason and reaches no search work; an accepted one is answered
/// with a matching address, its keypair's encoded secret bytes, and the
/// attempt and time telemetry. The worker count is the requested one capped
/// at 64, with 64 the default.
pub fn generate_address(params: &GenerateParams) -> (r: Result<GenerateResponse, ErrorResponse>)
    ensures
        match spec_rejection(params) {
            Some(msg) => r matches Err(e) && e.error@ == msg,
            None => r matches Ok(resp) && {
                &&& position_of(requested_type(params)) matches Some(pos) && spec_matches(
                    resp.address@,
                    params.pattern@,
                    pos,
                )
                &&& resp.pattern@ == params.pattern@
                &&& resp.search_type@ == requested_type(params)
                &&& resp.attempts >= 1
                &&& exists|b: Seq<u8>|
                    b.len() == 64 && resp.private_key@ == #[trigger] base58_of(b)
                        && resp.address@ == base58_of(b.subrange(32, 64))
            },
        },
{
    if params.pattern.as_str().is_empty() {
        return Err(ErrorResponse { error: "Pattern cannot be empty".to_owned() });
    }
    let plen = params.pattern.as_str().unicode_len();
    if plen > 5 {
        return Err(
            ErrorResponse {
                error: "Pattern too long (max 5 characters for reasonable response time)".to_owned(),
            },
        );
    }
    let mut i: usize = 0;
    while i < plen
        invariant
            i <= plen,
            1 <= plen <= 5,
            plen == params.pattern@.len(),
            forall|j: int| 0 <= j < i ==> is_base58_char(params.pattern@[j]),
        decreases plen - i,
    {
        if !base58_char(params.pattern.as_str().get_char(i)) {
            proof {
                assert(!is_base58_char(params.pattern@[i as int]));
            }
            return Err(
                ErrorResponse {
                    error: "Pattern must contain only Base58 characters (no 0, O, I, or l)".to_owned(),
                },
            );
        }
        i = i + 1;
    }
    let search_type: String = match &params.search_type {
        Some(s) => {
            if str_eq(s.as_str(), "prefix") || str_eq(s.as_str(), "suffix") {
                s.clone()
            } else {
                return Err(
                    ErrorResponse { error: "Invalid search type. Use 'prefix' or 'suffix'".to_owned() },
                );
            }
        },
        None => "suffix".to_owned(),
    };
    let position = if str_eq(search_type.as_str(), "prefix") {
        Position::Prefix
    } else {
        proof {
            reveal_strlit("prefix");
            reveal_strlit("suffix");
        }
        Position::Suffix
    };
    let threads: usize = match params.threads {
        Some(t) => if t > 64 {
            64
        } else {
            t
        },
        None => 64,
    };
    let mspec = MatchSpec { pattern: params.pattern.clone(), position };
    let result = crate::search(&mspec, threads);
    let address = encode(&result.keypair.pubkey);
    let private_key = encode(&result.keypair.bytes);
    let resp = GenerateResponse {
        address,
        private_key,
        pattern: params.pattern.clone(),
        search_type,
        attempts: result.attempts,
        time_ms: result.elapsed_ms,
    };
    proof {
        assert(resp.address@ == base58_of(result.keypair.bytes@.subrange(32, 64)));
    }
    Ok(resp)
}

/// The liveness payload: this service is up.
pub struct HealthStatus {
    pub status: String,
    pub service: String,
}

/// Reports the service healthy, as a static payload.
pub fn health() -> (r: HealthStatus)
    ensures
        r.status@ == "healthy"@,
        r.service@ == "solana-vanity-api"@,
{
    HealthStatus { status: "healthy".to_owned(), service: "solana-vanity-api".to_owned() }
}

} // verus!
