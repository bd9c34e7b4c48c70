use vstd::prelude::*;
use crate::principal::Principal;
use crate::text::{debug_str, decimal, no_underscore, principal_text, push_debug_str, push_decimal, push_principal};

verus! {

/// The ways an exchange operation can fail.
#[derive(Debug)]
pub enum ExchangeError {
    NotImplemented,
    InternalError(String),
    CanisterCallError(String),
    Timeout,
    RateLimit,
    InsufficientFunds,
    SlippageExceeded,
    PriceChanged,
    TradeRejected(String),
    TransactionFailed(String),
    InsufficientLiquidity,
    PoolNotFound,
    UnsupportedToken(String),
    InvalidTokenStandard,
    TokenTransferFailed(String),
    TokenApprovalFailed(String),
    InvalidParameters(String),
    InvalidAmount,
    Unauthorized,
    UserRejected,
    Unknown(String),
}

/// The message of an exchange error.
pub open spec fn exchange_error_text(e: ExchangeError) -> Seq<char> {
    match e {
        ExchangeError::NotImplemented => "Functionality not implemented yet"@,
        ExchangeError::InternalError(m) => "Internal error: "@ + m@,
        ExchangeError::CanisterCallError(m) => "Canister call error: "@ + m@,
        ExchangeError::Timeout => "Operation timed out"@,
        ExchangeError::RateLimit => "Rate limit reached"@,
        ExchangeError::InsufficientFunds => "Insufficient funds"@,
        ExchangeError::SlippageExceeded => "Slippage tolerance exceeded"@,
        ExchangeError::PriceChanged => "Price has changed"@,
        ExchangeError::TradeRejected(m) => "Trade rejected: "@ + m@,
        ExchangeError::TransactionFailed(m) => "Transaction failed: "@ + m@,
        ExchangeError::InsufficientLiquidity => "Insufficient liquidity"@,
        ExchangeError::PoolNotFound => "Liquidity pool not found"@,
        ExchangeError::UnsupportedToken(m) => "Unsupported token: "@ + m@,
        ExchangeError::InvalidTokenStandard => "Invalid token standard"@,
        ExchangeError::TokenTransferFailed(m) => "Token transfer failed: "@ + m@,
        ExchangeError::TokenApprovalFailed(m) => "Token approval failed: "@ + m@,
        ExchangeError::InvalidParameters(m) => "Invalid parameters: "@ + m@,
        ExchangeError::InvalidAmount => "Invalid amount"@,
        ExchangeError::Unauthorized => "Unauthorized operation"@,
        ExchangeError::UserRejected => "User rejected operation"@,
        ExchangeError::Unknown(m) => "Unknown error: "@ + m@,
    }
}

/// The debug form of an exchange error: the variant's name, followed by its
/// message in debug form between parentheses when it has one.
pub open spec fn exchange_error_debug(e: ExchangeError) -> Seq<char> {
    match e {
        ExchangeError::NotImplemented => "NotImplemented"@,
        ExchangeError::InternalError(m) => "InternalError"@ + "("@ + debug_str(m@) + ")"@,
        ExchangeError::CanisterCallError(m) => "CanisterCallError"@ + "("@ + debug_str(m@) + ")"@,
        ExchangeError::Timeout => "Timeout"@,
        ExchangeError::RateLimit => "RateLimit"@,
        ExchangeError::InsufficientFunds => "InsufficientFunds"@,
        ExchangeError::SlippageExceeded => "SlippageExceeded"@,
        ExchangeError::PriceChanged => "PriceChanged"@,
        ExchangeError::TradeRejected(m) => "TradeRejected"@ + "("@ + debug_str(m@) + ")"@,
        ExchangeError::TransactionFailed(m) => "TransactionFailed"@ + "("@ + debug_str(m@) + ")"@,
        ExchangeError::InsufficientLiquidity => "InsufficientLiquidity"@,
        ExchangeError::PoolNotFound => "PoolNotFound"@,
        ExchangeError::UnsupportedToken(m) => "UnsupportedToken"@ + "("@ + debug_str(m@) + ")"@,
        ExchangeError::InvalidTokenStandard => "InvalidTokenStandard"@,
        ExchangeError::TokenTransferFailed(m) => "TokenTransferFailed"@ + "("@ + debug_str(m@) + ")"@,
        ExchangeError::TokenApprovalFailed(m) => "TokenApprovalFailed"@ + "("@ + debug_str(m@) + ")"@,
        ExchangeError::InvalidParameters(m) => "InvalidParameters"@ + "("@ + debug_str(m@) + ")"@,
        ExchangeError::InvalidAmount => "InvalidAmount"@,
        ExchangeError::Unauthorized => "Unauthorized"@,
        ExchangeError::UserRejected => "UserRejected"@,
        ExchangeError::Unknown(m) => "Unknown"@ + "("@ + debug_str(m@) + ")"@,
    }
}

fn wrapped_debug(name: &str, m: &String) -> (r: String)
    ensures
        r@ == name@ + "("@ + debug_str(m@) + ")"@,
{
    let mut s = name.to_string();
    s.append("(");
    push_debug_str(&mut s, m.as_str());
    s.append(")");
    proof {
        assert(s@ =~= name@ + "("@ + debug_str(m@) + ")"@);
    }
    s
}

impl ExchangeError {
    /// The error's message.
    pub fn to_string(&self) -> (r: String)
        ensures
            r@ == exchange_error_text(*self),
    {
        let (prefix, detail): (&str, Option<&String>) = match self {
            ExchangeError::NotImplemented => ("Functionality not implemented yet", None),
            ExchangeError::InternalError(m) => ("Internal error: ", Some(m)),
            ExchangeError::CanisterCallError(m) => ("Canister call error: ", Some(m)),
            ExchangeError::Timeout => ("Operation timed out", None),
            ExchangeError::RateLimit => ("Rate limit reached", None),
            ExchangeError::InsufficientFunds => ("Insufficient funds", None),
            ExchangeError::SlippageExceeded => ("Slippage tolerance exceeded", None),
            ExchangeError::PriceChanged => ("Price has changed", None),
            ExchangeError::TradeRejected(m) => ("Trade rejected: ", Some(m)),
            ExchangeError::TransactionFailed(m) => ("Transaction failed: ", Some(m)),
            ExchangeError::InsufficientLiquidity => ("Insufficient liquidity", None),
            ExchangeError::PoolNotFound => ("Liquidity pool not found", None),
            ExchangeError::UnsupportedToken(m) => ("Unsupported token: ", Some(m)),
            ExchangeError::InvalidTokenStandard => ("Invalid token standard", None),
            ExchangeError::TokenTransferFailed(m) => ("Token transfer failed: ", Some(m)),
            ExchangeError::TokenApprovalFailed(m) => ("Token approval failed: ", Some(m)),
            ExchangeError::InvalidParameters(m) => ("Invalid parameters: ", Some(m)),
            ExchangeError::InvalidAmount => ("Invalid amount", None),
            ExchangeError::Unauthorized => ("Unauthorized operation", None),
            ExchangeError::UserRejected => ("User rejected operation", None),
            ExchangeError::Unknown(m) => ("Unknown error: ", Some(m)),
        };
        let mut s = prefix.to_string();
        if let Some(m) = detail {
            s.append(m.as_str());
        }
        proof {
            assert(s@ =~= exchange_error_text(*self));
        }
        s
    }

    /// The error's debug form.
    pub fn debug_text(&self) -> (r: String)
        ensures
            r@ == exchange_error_debug(*self),
    {
        match self {
            ExchangeError::NotImplemented => "NotImplemented".to_string(),
            ExchangeError::InternalError(m) => wrapped_debug("InternalError", m),
            ExchangeError::CanisterCallError(m) => wrapped_debug("CanisterCallError", m),
            ExchangeError::Timeout => "Timeout".to_string(),
            ExchangeError::RateLimit => "RateLimit".to_string(),
            ExchangeError::InsufficientFunds => "InsufficientFunds".to_string(),
            ExchangeError::SlippageExceeded => "SlippageExceeded".to_string(),
            ExchangeError::PriceChanged => "PriceChanged".to_string(),
            ExchangeError::TradeRejected(m) => wrapped_debug("TradeRejected", m),
            ExchangeError::TransactionFailed(m) => wrapped_debug("TransactionFailed", m),
            ExchangeError::InsufficientLiquidity => "InsufficientLiquidity".to_string(),
            ExchangeError::PoolNotFound => "PoolNotFound".to_string(),
            ExchangeError::UnsupportedToken(m) => wrapped_debug("UnsupportedToken", m),
            ExchangeError::InvalidTokenStandard => "InvalidTokenStandard".to_string(),
            ExchangeError::TokenTransferFailed(m) => wrapped_debug("TokenTransferFailed", m),
            ExchangeError::TokenApprovalFailed(m) => wrapped_debug("TokenApprovalFailed", m),
            ExchangeError::InvalidParameters(m) => wrapped_debug("InvalidParameters", m),
            ExchangeError::InvalidAmount => "InvalidAmount".to_string(),
            ExchangeError::Unauthorized => "Unauthorized".to_string(),
            ExchangeError::UserRejected => "UserRejected".to_string(),
            ExchangeError::Unknown(m) => wrapped_debug("Unknown", m),
        }
    }
}

/// The exchanges a connector can be made for.
#[derive(Clone, Copy, Debug, PartialEq, Eq, Hash, Structural)]
pub enum ExchangeType {
    ICPSwap,
    KongSwap,
    Sonic,
    ICDex,
}

/// The token standards.
#[derive(Clone, Copy, Debug, PartialEq, Eq, Hash, Structural)]
pub enum TokenStandard {
    ICRC1,
    ICRC2,
    DIP20,
    EXT,
    ICP,
}

/// The direction of a trade: buying or selling the base token.
#[derive(Clone, Copy, Debug, PartialEq, Eq, Structural)]
pub enum TradeDirection {
    Buy,
    Sell,
}

/// The states of a trade.
#[derive(Clone, Copy, Debug, PartialEq, Eq, Structural)]
pub enum TradeStatus {
    Pending,
    Completed,
    Failed,
    Refunded,
}

/// A token on an exchange: its ledger canister, symbol, decimals and
/// standard.
#[derive(Debug)]
pub struct TokenInfo {
    pub canister_id: Principal,
    pub symbol: String,
    pub decimals: u8,
    pub standard: TokenStandard,
}

impl Clone for TokenInfo {
    fn clone(&self) -> (r: Self)
        ensures
            r == *self,
    {
        TokenInfo {
            canister_id: self.canister_id,
            symbol: self.symbol.clone(),
            decimals: self.decimals,
            standard: self.standard,
        }
    }
}

/// The name of a token standard.
pub open spec fn token_standard_text(s: TokenStandard) -> Seq<char> {
    match s {
        TokenStandard::ICRC1 => "ICRC1"@,
        TokenStandard::ICRC2 => "ICRC2"@,
        TokenStandard::DIP20 => "DIP20"@,
        TokenStandard::EXT => "EXT"@,
        TokenStandard::ICP => "ICP"@,
    }
}

/// The name of a token standard.
pub fn token_standard_name(s: TokenStandard) -> (r: String)
    ensures
        r@ == token_standard_text(s),
{
    match s {
        TokenStandard::ICRC1 => "ICRC1".to_string(),
        TokenStandard::ICRC2 => "ICRC2".to_string(),
        TokenStandard::DIP20 => "DIP20".to_string(),
        TokenStandard::EXT => "EXT".to_string(),
        TokenStandard::ICP => "ICP".to_string(),
    }
}

/// What `ic_ledger_types::AccountIdentifier::new` makes of an owner's
/// principal bytes and a 32-byte subaccount: the bytes of the ICP ledger
/// account identifier (a checksum, then a hash of both).
pub uninterp spec fn account_identifier(owner: Seq<u8>, subaccount: Seq<u8>) -> Seq<u8>;

/// Calls `ic_ledger_types::AccountIdentifier::new` on the principal of the
/// bytes and the subaccount, and returns the identifier's bytes; the result
/// is named `account_identifier`, and the source builds it as 32 bytes.
/// `Principal::from_slice` panics beyond 29 bytes, which the `requires`
/// rules out.
#[verifier::external_body]
fn ledger_account_id(owner: &Vec<u8>, subaccount: &Vec<u8>) -> (r: Vec<u8>)
    requires
        owner@.len() <= 29,
        subaccount@.len() == 32,
    ensures
        r@ == account_identifier(owner@, subaccount@),
        r@.len() == 32,
{
    let mut sub = [0u8; 32];
    sub.copy_from_slice(subaccount);
    let principal = candid::Principal::from_slice(owner);
    ic_ledger_types::AccountIdentifier::new(&principal, &ic_ledger_types::Subaccount(sub)).as_ref().to_vec()
}

/// The ICP ledger account of `owner` under the 32-byte `subaccount`.
pub fn account_identifier_of(owner: &Principal, subaccount: &Vec<u8>) -> (r: Vec<u8>)
    requires
        subaccount@.len() == 32,
    ensures
        r@ == account_identifier(owner@, subaccount@),
        r@.len() == 32,
{
    let bytes = owner.as_slice();
    ledger_account_id(&bytes, subaccount)
}

/// The ICP ledger account of `owner` under the default subaccount, which
/// is all zeros.
pub fn default_account_identifier(owner: &Principal) -> (r: Vec<u8>)
    ensures
        r@ == account_identifier(owner@, Seq::new(32, |i: int| 0u8)),
        r@.len() == 32,
{
    let zeros: Vec<u8> = vec![0u8; 32];
    proof {
        assert(zeros@ =~= Seq::new(32, |i: int| 0u8));
    }
    account_identifier_of(owner, &zeros)
}

/// The best of the quotes gathered from several exchanges, each an
/// exchange and the output it offers: the first quote with the largest
/// output, or nothing when there are no quotes.
pub fn best_quote(quotes: &Vec<(ExchangeType, u128)>) -> (r: Option<(ExchangeType, u128)>)
    ensures
        r is None <==> quotes@.len() == 0,
        r matches Some(b) ==> exists|k: int|
            0 <= k < quotes@.len() && #[trigger] quotes@[k] == b && (forall|j: int|
                0 <= j < quotes@.len() ==> #[trigger] quotes@[j].1 <= b.1) && (forall|j: int|
                0 <= j < k ==> #[trigger] quotes@[j].1 < b.1),
{
    if quotes.len() == 0 {
        return None;
    }
    let mut best: usize = 0;
    let mut i: usize = 1;
    while i < quotes.len()
        invariant
            1 <= i <= quotes@.len(),
            best < i,
            forall|j: int| 0 <= j < i ==> #[trigger] quotes@[j].1 <= quotes@[best as int].1,
            forall|j: int| 0 <= j < best ==> #[trigger] quotes@[j].1 < quotes@[best as int].1,
        decreases quotes@.len() - i,
    {
        if quotes[i].1 > quotes[best].1 {
            best = i;
        }
        i = i + 1;
    }
    let b = quotes[best];
    assert(quotes@[best as int] == b);
    Some(b)
}

/// The 32-byte subaccount of a principal: its length, its bytes, then
/// zeros.
pub open spec fn subaccount_of(p: Seq<u8>) -> Seq<u8> {
    seq![p.len() as u8] + p + Seq::new((31 - p.len()) as nat, |i: int| 0u8)
}

/// The subaccount that identifies `principal` on a ledger.
pub fn principal_to_subaccount(principal: &Principal) -> (r: Vec<u8>)
    ensures
        r@ == subaccount_of(principal@),
        r@.len() == 32,
{
    let bytes = principal.as_slice();
    let mut out: Vec<u8> = Vec::new();
    out.push(principal.len());
    let mut i: usize = 0;
    while i < bytes.len()
        invariant
            bytes@ == principal@,
            bytes@.len() <= 29,
            i <= bytes@.len(),
            out@ == seq![bytes@.len() as u8] + bytes@.take(i as int),
        decreases bytes@.len() - i,
    {
        out.push(bytes[i]);
        proof {
            assert(bytes@.take(i + 1) =~= bytes@.take(i as int).push(bytes@[i as int]));
        }
        i = i + 1;
    }
    let ghost n = bytes@.len();
    while out.len() < 32
        invariant
            n == principal@.len(),
            n <= 29,
            1 + n <= out@.len() <= 32,
            out@ == seq![n as u8] + principal@ + Seq::new((out@.len() - 1 - n) as nat, |i: int| 0u8),
        decreases 32 - out@.len(),
    {
        let ghost prev = out@;
        out.push(0u8);
        proof {
            assert(out@ =~= seq![n as u8] + principal@ + Seq::new((out@.len() - 1 - n) as nat, |i: int| 0u8));
        }
    }
    proof {
        assert(bytes@.take(n as int) =~= bytes@);
    }
    out
}

/// The text of the id of a trade by the principal with bytes `user` at
/// `timestamp`: the principal's text, an underscore and the time.
pub open spec fn trade_id_text(user: Seq<u8>, timestamp: u64) -> Seq<char> {
    principal_text(user) + "_"@ + decimal(timestamp as nat)
}

/// Two trade ids are equal exactly when they are for the same principal
/// and the same time, for principals whose texts hold no underscore and
/// name no other principal, as every principal's text does (what
/// `generate_trade_id` states of the principal it is given).
pub proof fn law_trade_ids_identify_their_inputs(u1: Seq<u8>, t1: u64, u2: Seq<u8>, t2: u64)
    requires
        u2.len() <= 29,
        no_underscore(principal_text(u1)),
        no_underscore(principal_text(u2)),
        forall|b: Seq<u8>| b.len() <= 29 && #[trigger] principal_text(b) == principal_text(u1) ==> b == u1,
    ensures
        trade_id_text(u1, t1) == trade_id_text(u2, t2) <==> (u1 == u2 && t1 == t2),
{
    if trade_id_text(u1, t1) == trade_id_text(u2, t2) {
        let p1 = principal_text(u1);
        let p2 = principal_text(u2);
        let d1 = decimal(t1 as nat);
        let d2 = decimal(t2 as nat);
        let a = trade_id_text(u1, t1);
        let b = trade_id_text(u2, t2);
        assert(a =~= p1 + seq!['_'] + d1) by {
            reveal_strlit("_");
        }
        assert(b =~= p2 + seq!['_'] + d2) by {
            reveal_strlit("_");
        }
        if p1.len() < p2.len() {
            assert(a[p1.len() as int] == '_');
            assert(b[p1.len() as int] == p2[p1.len() as int]);
        } else if p2.len() < p1.len() {
            assert(b[p2.len() as int] == '_');
            assert(a[p2.len() as int] == p1[p2.len() as int]);
        } else {
            assert(p1 =~= a.subrange(0, p1.len() as int));
            assert(p2 =~= b.subrange(0, p2.len() as int));
            assert(d1 =~= a.subrange(p1.len() as int + 1, a.len() as int));
            assert(d2 =~= b.subrange(p2.len() as int + 1, b.len() as int));
            crate::text::lemma_decimal_injective(t1 as nat, t2 as nat);
        }
    }
}

/// The id of a trade by `user` at `timestamp`.
pub fn generate_trade_id(user: &Principal, timestamp: u64) -> (r: String)
    ensures
        r@ == trade_id_text(user@, timestamp),
        no_underscore(principal_text(user@)),
        forall|b: Seq<u8>| b.len() <= 29 && #[trigger] principal_text(b) == principal_text(user@) ==> b == user@,
{
    let mut s = String::new();
    push_principal(&mut s, user);
    s.append("_");
    push_decimal(&mut s, timestamp as u128);
    proof {
        assert(s@ =~= principal_text(user@) + "_"@ + decimal(timestamp as nat));
    }
    s
}

/// Checks that the token's standard is one the exchanges support; every
/// standard is.
pub fn validate_token_standard(token: &TokenInfo) -> (r: Result<(), ExchangeError>)
    ensures
        r is Ok,
{
    match token.standard {
        TokenStandard::ICRC1 | TokenStandard::ICRC2 | TokenStandard::DIP20 | TokenStandard::EXT
        | TokenStandard::ICP => Ok(()),
    }
}

/// Checks the terms of a trade at `now_secs`: a non-zero amount, a
/// slippage tolerance within 0 to 100 (`slippage_in_range`), a deadline not
/// passed, and supported token standards.
pub fn validate_trade_params(
    amount: u128,
    slippage_in_range: bool,
    deadline_secs: Option<u64>,
    now_secs: u64,
    base_token: &TokenInfo,
    quote_token: &TokenInfo,
) -> (r: Result<(), ExchangeError>)
    ensures
        amount == 0 ==> r matches Err(ExchangeError::InvalidAmount),
        amount != 0 && !slippage_in_range ==> (r matches Err(ExchangeError::InvalidParameters(m)) && m@
            == "Slippage tolerance must be between 0 and 100"@),
        amount != 0 && slippage_in_range && (deadline_secs matches Some(d) && d < now_secs) ==> (r matches Err(
            ExchangeError::InvalidParameters(m),
        ) && m@ == "Deadline has passed"@),
        r is Ok <==> amount != 0 && slippage_in_range && !(deadline_secs matches Some(d) && d < now_secs),
{
    if amount == 0 {
        return Err(ExchangeError::InvalidAmount);
    }
    if !slippage_in_range {
        return Err(ExchangeError::InvalidParameters("Slippage tolerance must be between 0 and 100".to_string()));
    }
    if let Some(deadline) = deadline_secs {
        if deadline < now_secs {
            return Err(ExchangeError::InvalidParameters("Deadline has passed".to_string()));
        }
    }
    validate_token_standard(base_token)?;
    validate_token_standard(quote_token)?;
    Ok(())
}

/// The standard named by `s` exactly, if any.
pub open spec fn standard_named(s: Seq<char>) -> Option<TokenStandard> {
    if s == "ICRC1"@ {
        Some(TokenStandard::ICRC1)
    } else if s == "ICRC2"@ {
        Some(TokenStandard::ICRC2)
    } else if s == "DIP20"@ {
        Some(TokenStandard::DIP20)
    } else if s == "EXT"@ {
        Some(TokenStandard::EXT)
    } else if s == "ICP"@ {
        Some(TokenStandard::ICP)
    } else {
        None
    }
}

/// The standard named by `standard`, or an unsupported-token error.
pub fn string_to_token_standard(standard: &str) -> (r: Result<TokenStandard, ExchangeError>)
    ensures
        standard_named(standard@) matches Some(s) ==> r == Ok::<TokenStandard, ExchangeError>(s),
        standard_named(standard@) is None ==> (r matches Err(ExchangeError::UnsupportedToken(m)) && m@
            == "Unknown standard string: "@ + standard@),
{
    let s = standard.to_string();
    if s == "ICRC1".to_string() {
        Ok(TokenStandard::ICRC1)
    } else if s == "ICRC2".to_string() {
        Ok(TokenStandard::ICRC2)
    } else if s == "DIP20".to_string() {
        Ok(TokenStandard::DIP20)
    } else if s == "EXT".to_string() {
        Ok(TokenStandard::EXT)
    } else if s == "ICP".to_string() {
        Ok(TokenStandard::ICP)
    } else {
        let mut m = "Unknown standard string: ".to_string();
        m.append(standard);
        Err(ExchangeError::UnsupportedToken(m))
    }
}

/// A liquidity pool as an exchange describes it: its canister, its two
/// tokens, its fee in millionths, and its liquidity and reserves.
#[derive(Debug)]
pub struct PoolInfo {
    pub pool_id: Principal,
    pub token0: TokenInfo,
    pub token1: TokenInfo,
    pub fee: u64,
    pub total_liquidity: u128,
    pub token0_reserves: u128,
    pub token1_reserves: u128,
}

} // verus!
