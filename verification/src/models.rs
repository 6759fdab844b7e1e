//! Data model for route queries and route results.

use vstd::prelude::*;
use crate::encode::{
    dec_digits, digit_run_len, is_decimal_text, is_digit_char, is_float_text,
    lemma_dec_digits_is_decimal, lemma_leading_digits,
};

verus! {

/// An arbitrary-precision non-negative integer amount, held as its
/// canonical decimal rendering so that values beyond the 64-bit range are
/// carried without loss. The view is the digit sequence.
#[derive(Debug, Clone, PartialEq, Eq)]
pub struct Amount {
    digits: String,
}

impl View for Amount {
    type V = Seq<char>;

    closed spec fn view(&self) -> Seq<char> {
        self.digits@
    }
}

impl Amount {
    /// Whether the held text is a canonical decimal rendering: non-empty,
    /// digits only, no leading zero except for zero itself. Both
    /// constructors establish this.
    pub open spec fn wf(self) -> bool {
        is_decimal_text(self@)
    }

    /// Builds an amount from a decimal string, rejecting anything that is
    /// not a canonical decimal rendering of a non-negative integer.
    pub fn from_decimal(s: String) -> (r: Option<Amount>)
        ensures
            match r {
                Some(a) => a@ == s@ && a.wf(),
                None => !is_decimal_text(s@),
            },
    {
        let n: usize = s.as_str().unicode_len();
        if n == 0 {
            return None;
        }
        let mut i: usize = 0;
        while i < n
            invariant
                n == s@.len(),
                i <= n,
                forall|j: int| 0 <= j < i ==> is_digit_char(#[trigger] s@[j]),
            decreases n - i,
        {
            let c = s.as_str().get_char(i);
            let v: u32 = c as u32;
            if v < 48 || v > 57 {
                return None;
            }
            i = i + 1;
        }
        if n > 1 && s.as_str().get_char(0) == '0' {
            return None;
        }
        Some(Amount { digits: s })
    }

    /// Builds an amount from an unsigned 64-bit value; the text is the
    /// canonical decimal rendering of that value.
    pub fn from_u64(n: u64) -> (r: Amount)
        ensures
            r@ == dec_digits(n as nat),
            r.wf(),
    {
        let mut digits = String::new();
        crate::encode::push_u64_decimal(&mut digits, n);
        proof {
            lemma_dec_digits_is_decimal(n as nat);
            assert(digits@ =~= dec_digits(n as nat));
        }
        Amount { digits }
    }

    /// The decimal text of this amount.
    pub fn as_decimal(&self) -> (r: &str)
        ensures
            r@ == self@,
    {
        self.digits.as_str()
    }
}

/// A finite floating-point value held as its plain decimal rendering (an
/// optional sign, an integer part, an optional fraction), so that it can
/// be spliced into a query string or a JSON body as a number without
/// breaking either format. The view is the character sequence.
#[derive(Debug, Clone, PartialEq, Eq)]
pub struct FloatText {
    text: String,
}

impl View for FloatText {
    type V = Seq<char>;

    closed spec fn view(&self) -> Seq<char> {
        self.text@
    }
}

impl FloatText {
    /// Whether the held text has the float shape. The constructor
    /// establishes this.
    pub open spec fn wf(self) -> bool {
        is_float_text(self@)
    }

    /// Builds a float rendering from a string, rejecting anything that is
    /// not an optional minus sign, a canonical integer part, and an
    /// optional fraction of at least one digit.
    pub fn from_text(s: String) -> (r: Option<FloatText>)
        ensures
            match r {
                Some(t) => t@ == s@ && t.wf(),
                None => !is_float_text(s@),
            },
    {
        let n: usize = s.as_str().unicode_len();
        let has_sign: bool = n > 0 && s.as_str().get_char(0) == '-';
        let start: usize = if has_sign {
            1
        } else {
            0
        };
        let ghost t: Seq<char> = s@.skip(start as int);
        proof {
            if !has_sign {
                assert(t =~= s@);
            }
            lemma_leading_digits(t);
        }
        let k = digit_run_len(s.as_str(), start);
        if k == 0 {
            return None;
        }
        if k > 1 && s.as_str().get_char(start) == '0' {
            proof {
                assert(t[0] == s@[start as int]);
            }
            return None;
        }
        proof {
            assert(t[0] == s@[start as int]);
            assert forall|j: int| 0 <= j < k implies is_digit_char(
                #[trigger] t.take(k as int)[j],
            ) by {
                assert(t.take(k as int)[j] == t[j]);
            }
            assert(is_decimal_text(t.take(k as int)));
        }
        if start + k == n {
            proof {
                assert(t.take(k as int) =~= t);
            }
            return Some(FloatText { text: s });
        }
        if s.as_str().get_char(start + k) != '.' {
            proof {
                assert(t[k as int] == s@[start as int + k]);
            }
            return None;
        }
        proof {
            assert(t[k as int] == s@[start as int + k]);
        }
        let k2 = digit_run_len(s.as_str(), start + k + 1);
        proof {
            assert(s@.skip((start + k + 1) as int) =~= t.skip(k as int + 1));
        }
        if k2 > 0 && start + k + 1 + k2 == n {
            return Some(FloatText { text: s });
        }
        None
    }

    /// The text of this rendering.
    pub fn as_text(&self) -> (r: &str)
        ensures
            r@ == self@,
    {
        self.text.as_str()
    }
}

/// One hypothetical liquidity adjustment to a pool, sent with a query to
/// preview its effect on routing.
#[derive(Debug, Clone, PartialEq, Eq)]
pub struct PreSwapLpChangeParams {
    /// The pool whose liquidity is adjusted.
    pub pool_id: String,
    /// Lower tick bound of the adjusted range.
    pub tick_lower: i32,
    /// Upper tick bound of the adjusted range.
    pub tick_upper: i32,
    /// Signed change in liquidity units.
    pub delta_liquidity: i64,
}

/// A caller's description of a desired swap: the two assets, the amount,
/// and the optional search constraints. Absent optional fields are omitted
/// from the built request entirely.
#[derive(Debug, Clone, PartialEq, Eq)]
pub struct FindRouterParams {
    /// Source asset identifier.
    pub from: String,
    /// Target asset identifier.
    pub target: String,
    /// Amount to swap, as an arbitrary-precision decimal.
    pub amount: Amount,
    /// Whether the amount is the input amount (true) or the desired output
    /// amount (false).
    pub by_amount_in: bool,
    /// Search depth.
    pub depth: Option<u32>,
    /// Split-selection algorithm name.
    pub split_algorithm: Option<String>,
    /// Split factor, as its decimal rendering.
    pub split_factor: Option<FloatText>,
    /// Maximum split count.
    pub split_count: Option<u32>,
    /// Allow-list of provider names; the order is kept for deterministic
    /// serialization.
    pub providers: Option<Vec<String>>,
    /// Liquidity-change simulations; a non-empty list switches the request
    /// to a POST.
    pub liquidity_changes: Option<Vec<PreSwapLpChangeParams>>,
}

impl Default for FindRouterParams {
    /// An empty query: empty asset identifiers, amount zero, amount taken
    /// as input, and no optional constraints.
    fn default() -> (r: FindRouterParams)
        ensures
            r.from@ == Seq::<char>::empty(),
            r.target@ == Seq::<char>::empty(),
            r.amount@ == dec_digits(0),
            r.by_amount_in == true,
            r.depth is None,
            r.split_algorithm is None,
            r.split_factor is None,
            r.split_count is None,
            r.providers is None,
            r.liquidity_changes is None,
    {
        let r = FindRouterParams {
            from: String::new(),
            target: String::new(),
            amount: Amount::from_u64(0),
            by_amount_in: true,
            depth: None,
            split_algorithm: None,
            split_factor: None,
            split_count: None,
            providers: None,
            liquidity_changes: None,
        };
        r
    }
}

/// One pool-level exchange step within a route.
#[derive(Debug, Clone, PartialEq)]
pub struct Path {
    /// Pool or path identifier.
    pub id: String,
    /// Direction of the step: true for asset A to asset B, false for the
    /// reverse.
    pub direction: bool,
    /// Name of the liquidity-pool protocol executing the step.
    pub provider: String,
    /// Source asset identifier of the step.
    pub from: String,
    /// Target asset identifier of the step.
    pub target: String,
    /// Fee rate, as a string-encoded decimal.
    pub fee_rate: String,
    /// Input amount of the step.
    pub amount_in: u64,
    /// Output amount of the step.
    pub amount_out: u64,
    /// Protocol version tag.
    pub version: Option<String>,
    /// Provider-specific extended details.
    pub extended_details: Option<ExtendedDetails>,
}

/// A sparse, provider-specific record of optional fields; each field is
/// populated only by the provider it belongs to, and absence carries no
/// error meaning. Fractional values are held as their decimal renderings.
#[derive(Debug, Clone, PartialEq)]
pub struct ExtendedDetails {
    /// Pool flatness factor, as a string-encoded decimal.
    pub aftermath_pool_flatness: Option<String>,
    /// LP supply type tag.
    pub aftermath_lp_supply_type: Option<String>,
    /// Fee type tag.
    pub turbos_fee_type: Option<String>,
    /// Post-trade square-root price.
    pub after_sqrt_price: Option<u128>,
    /// Protocol-specific fee amount, as a string-encoded decimal.
    pub deepbookv3_deep_fee: Option<String>,
    /// Treasury identifier.
    pub scallop_scoin_treasury: Option<String>,
    /// Base price seed.
    pub haedal_pmm_base_price_seed: Option<String>,
    /// Quote price seed.
    pub haedal_pmm_quote_price_seed: Option<String>,
    /// Bank identifier for asset A.
    pub steamm_bank_a: Option<String>,
    /// Bank identifier for asset B.
    pub steamm_bank_b: Option<String>,
    /// Lending market identifier.
    pub steamm_lending_market: Option<String>,
    /// Lending market type tag.
    pub steamm_lending_market_type: Option<String>,
    /// Wrapped-token type for asset A.
    pub steamm_btoken_a_type: Option<String>,
    /// Wrapped-token type for asset B.
    pub steamm_btoken_b_type: Option<String>,
    /// LP token type tag.
    pub steamm_lp_token_type: Option<String>,
}

/// One candidate execution path: an ordered sequence of hops with its
/// aggregate amounts and initial price.
#[derive(Debug, Clone, PartialEq)]
pub struct Router {
    /// The hops of the path, in execution order.
    pub path: Vec<Path>,
    /// Aggregate input amount.
    pub amount_in: u64,
    /// Aggregate output amount.
    pub amount_out: u64,
    /// Initial price, as a string-encoded decimal; never parsed to a
    /// float, to avoid precision loss.
    pub initial_price: String,
}

/// An error the service embeds inside an otherwise successful payload.
#[derive(Debug, Clone, PartialEq, Eq)]
pub struct RouterError {
    /// Numeric error code.
    pub code: u32,
    /// Human-readable message.
    pub msg: String,
}

/// The payload of a successful route query: the candidate routes and
/// their aggregate amounts.
#[derive(Debug, Clone, PartialEq)]
pub struct RouterData {
    /// Input amount echoed by the service.
    pub amount_in: u64,
    /// Output amount computed by the service.
    pub amount_out: u64,
    /// Echo of the amount-is-input flag.
    pub by_amount_in: bool,
    /// Candidate routes, best first.
    pub routes: Vec<Router>,
    /// Whether the pools lacked liquidity for the requested amount.
    pub insufficient_liquidity: bool,
    /// Mapping of package or module name to on-chain address.
    pub packages: Option<Vec<(String, String)>>,
    /// Aggregate fee total, as a string-encoded decimal.
    pub total_deep_fee: Option<String>,
    /// Error embedded in the payload.
    pub error: Option<RouterError>,
}

impl RouterData {
    /// Well-formedness of the package map: the package names are pairwise
    /// distinct, as the wire-level JSON object guarantees of its keys.
    pub open spec fn wf(self) -> bool {
        match self.packages {
            Some(ps) => forall|i: int, j: int|
                0 <= i < j < ps@.len() ==> (#[trigger] ps@[i]).0@ != (#[trigger] ps@[j]).0@,
            None => true,
        }
    }
}

/// The wire-level wrapper of every response: a status code, a status
/// message, and an optional payload. A code of 0 or 200 denotes success.
#[derive(Debug, Clone, PartialEq)]
pub struct AggregatorResponse {
    /// Status code reported by the service.
    pub code: u32,
    /// Status message reported by the service.
    pub msg: String,
    /// Payload, absent when the service found no result.
    pub data: Option<RouterData>,
}

} // verus!
