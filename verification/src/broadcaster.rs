use vstd::prelude::*;

verus! {

/// An error document returned by the indexer's RPC interface.
#[derive(Debug)]
pub struct RpcError {
    pub code: i64,
    pub message: String,
}

/// The RPC error codes the broadcaster distinguishes, as bitcoin core
/// assigns them.
#[derive(Clone, Copy, Debug, PartialEq, Eq, Structural)]
pub enum RpcErrorCode {
    RpcVerifyError,
    RpcVerifyAlreadyInChain,
}

pub open spec fn rpc_code_spec(c: RpcErrorCode) -> i64 {
    match c {
        RpcErrorCode::RpcVerifyError => -25i64,
        RpcErrorCode::RpcVerifyAlreadyInChain => -27i64,
    }
}

impl RpcErrorCode {
    /// The numeric value of this code on the wire.
    pub fn value(&self) -> (r: i64)
        ensures
            r == rpc_code_spec(*self),
    {
        match self {
            RpcErrorCode::RpcVerifyError => -25,
            RpcErrorCode::RpcVerifyAlreadyInChain => -27,
        }
    }
}

/// What a well-formed RPC error JSON document holds: its `code` and
/// `message` fields, or nothing when the text is not such a document.
pub uninterp spec fn rpc_error_fields(s: Seq<char>) -> Option<(i64, Seq<char>)>;

/// Relies on serde_json::from_str and serde_json::Value's get, as_i64 and
/// as_str: the fields of the error document depend on the text alone.
#[verifier::external_body]
fn parse_rpc_error_json(s: &str) -> (r: Option<RpcError>)
    ensures
        (match r {
            Some(e) => rpc_error_fields(s@) == Some((e.code, e.message@)),
            None => rpc_error_fields(s@) is None,
        }),
{
    let v: serde_json::Value = match serde_json::from_str(s) {
        Ok(v) => v,
        Err(_) => return None,
    };
    let code = v.get("code")?.as_i64()?;
    let message = v.get("message")?.as_str()?.to_string();
    Some(RpcError { code, message })
}

/// Character-wise equality of two string slices.
#[verifier::loop_isolation(false)]
pub fn str_eq(a: &str, b: &str) -> (r: bool)
    ensures
        r == (a@ == b@),
{
    let alen = a.unicode_len();
    let blen = b.unicode_len();
    if alen != blen {
        return false;
    }
    let mut i: usize = 0;
    while i < alen
        invariant
            alen == a@.len(),
            blen == b@.len(),
            alen == blen,
            i <= alen,
            forall|k: int| 0 <= k < i ==> a@[k] == b@[k],
        decreases alen - i,
    {
        if a.get_char(i) != b.get_char(i) {
            return false;
        }
        i += 1;
    }
    proof {
        assert(a@ =~= b@);
    }
    true
}

/// The first index at or after `i` where `pat` occurs in `s`.
pub open spec fn find_at(s: Seq<char>, pat: Seq<char>, i: int) -> Option<int>
    decreases s.len() - i + 1,
{
    if i < 0 || i + pat.len() > s.len() {
        None
    } else if s.subrange(i, i + pat.len()) == pat {
        Some(i)
    } else {
        find_at(s, pat, i + 1)
    }
}

/// A found index is in bounds and carries the pattern.
proof fn lemma_find_at_some(s: Seq<char>, pat: Seq<char>, i: int, j: int)
    requires
        find_at(s, pat, i) == Some(j),
    ensures
        i <= j,
        j + pat.len() <= s.len(),
        s.subrange(j, j + pat.len()) == pat,
    decreases s.len() - i + 1,
{
    if !(i < 0 || i + pat.len() > s.len()) && s.subrange(i, i + pat.len()) == pat {
    } else {
        lemma_find_at_some(s, pat, i + 1, j);
    }
}

/// Whether `pat` occurs in `hay` starting at `i`.
#[verifier::loop_isolation(false)]
fn occurs_at(hay: &str, pat: &str, i: usize) -> (r: bool)
    requires
        i + pat@.len() <= hay@.len(),
        hay@.len() <= usize::MAX,
    ensures
        r == (hay@.subrange(i as int, i + pat@.len()) == pat@),
{
    let plen = pat.unicode_len();
    let mut k: usize = 0;
    while k < plen
        invariant
            plen == pat@.len(),
            i + plen <= hay@.len(),
            k <= plen,
            forall|t: int| 0 <= t < k ==> hay@[i + t] == pat@[t],
        decreases plen - k,
    {
        if hay.get_char(i + k) != pat.get_char(k) {
            proof {
                assert(hay@.subrange(i as int, i + pat@.len())[k as int] != pat@[k as int]);
            }
            return false;
        }
        k += 1;
    }
    proof {
        assert(hay@.subrange(i as int, i + pat@.len()) =~= pat@);
    }
    true
}

/// The index of the first occurrence of `pat` in `hay`, if any.
#[verifier::loop_isolation(false)]
pub fn find_substr(hay: &str, pat: &str) -> (r: Option<usize>)
    ensures
        (match r {
            Some(i) => find_at(hay@, pat@, 0) == Some(i as int),
            None => find_at(hay@, pat@, 0) is None,
        }),
{
    let hlen = hay.unicode_len();
    let plen = pat.unicode_len();
    if plen > hlen {
        return None;
    }
    if plen == 0 {
        proof {
            assert(hay@.subrange(0, 0) =~= pat@);
        }
        return Some(0);
    }
    let mut i: usize = 0;
    while i <= hlen - plen
        invariant
            hlen == hay@.len(),
            plen == pat@.len(),
            0 < plen <= hlen,
            i <= hlen - plen + 1,
            find_at(hay@, pat@, 0) == find_at(hay@, pat@, i as int),
        decreases hlen - plen + 1 - i,
    {
        if occurs_at(hay, pat, i) {
            return Some(i);
        }
        i += 1;
    }
    None
}

/// The separator in front of the JSON body of an indexer protocol error.
pub open spec fn rpc_sep() -> Seq<char> {
    "RPC error: "@
}

/// The JSON payload of a protocol error text: what stands between the first
/// occurrence of the separator and the next one (or the end).  Nothing when
/// the separator is absent, or nothing at all follows it.
pub open spec fn rpc_payload_spec(s: Seq<char>) -> Option<Seq<char>> {
    match find_at(s, rpc_sep(), 0) {
        None => None,
        Some(f) => {
            let rest = s.subrange(f + rpc_sep().len(), s.len() as int);
            match find_at(rest, rpc_sep(), 0) {
                Some(g) => Some(rest.subrange(0, g)),
                None => if rest.len() == 0 {
                    None
                } else {
                    Some(rest)
                },
            }
        },
    }
}

/// Cut the JSON payload out of a protocol error text.
pub fn extract_rpc_payload(s: &str) -> (r: Option<String>)
    ensures
        (match r {
            Some(p) => rpc_payload_spec(s@) == Some(p@),
            None => rpc_payload_spec(s@) is None,
        }),
{
    let sep = "RPC error: ";
    proof {
        assert(sep@ == rpc_sep());
    }
    match find_substr(s, sep) {
        None => None,
        Some(f) => {
            proof {
                lemma_find_at_some(s@, sep@, 0, f as int);
            }
            let seplen = sep.unicode_len();
            let slen = s.unicode_len();
            let rest = s.substring_char(f + seplen, slen);
            match find_substr(rest, sep) {
                Some(g) => {
                    proof {
                        lemma_find_at_some(rest@, sep@, 0, g as int);
                    }
                    Some(rest.substring_char(0, g).to_owned())
                },
                None => {
                    if rest.unicode_len() == 0 {
                        None
                    } else {
                        Some(rest.to_owned())
                    }
                },
            }
        },
    }
}

/// The ways a protocol error text can fail to parse.
#[derive(Clone, Copy, Debug, PartialEq, Eq, Structural)]
pub enum RpcParseError {
    /// No `RPC error: ` payload in the text.
    UnknownErrorCodeFormat,
    /// The payload is not a `{code, message}` document.
    UnexpectedFormat,
}

/// Parse the `{code, message}` document out of an indexer protocol error
/// text.
pub fn parse_rpc_protocol_error(text: &str) -> (r: Result<RpcError, RpcParseError>)
    ensures
        (match rpc_payload_spec(text@) {
            None => r matches Err(RpcParseError::UnknownErrorCodeFormat),
            Some(p) => (match rpc_error_fields(p) {
                None => r matches Err(RpcParseError::UnexpectedFormat),
                Some(f) => r matches Ok(e) && e.code == f.0 && e.message@ == f.1,
            }),
        }),
{
    match extract_rpc_payload(text) {
        None => Err(RpcParseError::UnknownErrorCodeFormat),
        Some(json) => match parse_rpc_error_json(json.as_str()) {
            None => Err(RpcParseError::UnexpectedFormat),
            Some(e) => Ok(e),
        },
    }
}

/// What to do about a broadcast rejection.
#[derive(Clone, Copy, Debug, PartialEq, Eq, Structural)]
pub enum BroadcastStep {
    /// The transaction is already on chain: treat the broadcast as a
    /// success.
    AlreadyInChain,
    /// The indexer blamed missing or spent inputs, which it sometimes does
    /// for transactions already mined: ask it for the txid, and treat the
    /// broadcast as a success exactly when the transaction comes back.
    CheckTransaction,
    /// A real failure: hand the original error to the caller.
    Propagate,
}

/// The outcome policy on a parsed RPC error.
pub open spec fn classify_spec(code: i64, message: Seq<char>) -> BroadcastStep {
    if code == rpc_code_spec(RpcErrorCode::RpcVerifyAlreadyInChain) {
        BroadcastStep::AlreadyInChain
    } else if code == rpc_code_spec(RpcErrorCode::RpcVerifyError) && message
        == "bad-txns-inputs-missingorspent"@ {
        BroadcastStep::CheckTransaction
    } else {
        BroadcastStep::Propagate
    }
}

/// Decide what a parsed RPC error means for the broadcast.
pub fn classify_rpc_error(e: &RpcError) -> (r: BroadcastStep)
    ensures
        r == classify_spec(e.code, e.message@),
{
    if e.code == RpcErrorCode::RpcVerifyAlreadyInChain.value() {
        BroadcastStep::AlreadyInChain
    } else if e.code == RpcErrorCode::RpcVerifyError.value() && str_eq(
        e.message.as_str(),
        "bad-txns-inputs-missingorspent",
    ) {
        BroadcastStep::CheckTransaction
    } else {
        BroadcastStep::Propagate
    }
}

/// Decide what a protocol error text means for the broadcast: parse it and
/// classify the document; a text that does not parse is handed back as the
/// parse error, which the caller propagates.
pub fn broadcast_failure_step(text: &str) -> (r: Result<BroadcastStep, RpcParseError>)
    ensures
        (match rpc_payload_spec(text@) {
            None => r matches Err(RpcParseError::UnknownErrorCodeFormat),
            Some(p) => (match rpc_error_fields(p) {
                None => r matches Err(RpcParseError::UnexpectedFormat),
                Some(f) => r matches Ok(s) && s == classify_spec(f.0, f.1),
            }),
        }),
{
    match parse_rpc_protocol_error(text) {
        Ok(e) => Ok(classify_rpc_error(&e)),
        Err(x) => Err(x),
    }
}

} // verus!
