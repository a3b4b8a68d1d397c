//! Per-token pricing of model usage, and the observer that turns response
//! events into usage records for a ledger.
//!
//! Prices are in millionths of a US dollar per million tokens.

use vstd::prelude::*;
use crate::search::{first_where, lemma_first_skip};
use crate::text::{
    contains, hyphens_dotted, hyphens_to_dots, is_prefix, is_substring, starts_with, str_eq,
};

verus! {

/// Input price for models with no entry in the table: 3.00 USD per million.
pub const DEFAULT_INPUT_PRICE: u64 = 3_000_000;

/// Output price for models with no entry in the table: 15.00 USD per million.
pub const DEFAULT_OUTPUT_PRICE: u64 = 15_000_000;

/// Prices of one model, in millionths of a dollar per million tokens.
#[derive(Clone, Copy, Debug, PartialEq, Eq, Structural)]
pub struct ModelPricing {
    pub input: u64,
    pub output: u64,
}

/// Something that happened around a model call.
#[derive(Debug)]
pub enum ObserverEvent {
    /// A request was sent to a model.
    LlmRequest { provider: String, model: String, messages_count: usize },
    /// A response (or a failure) came back from a model.
    LlmResponse {
        provider: String,
        model: String,
        duration_ms: u64,
        success: bool,
        error_message: Option<String>,
        input_tokens: Option<u64>,
        output_tokens: Option<u64>,
    },
}

/// Token usage of one response, priced, as handed to the ledger.
#[derive(Debug)]
pub struct UsageRecord {
    /// "provider/model".
    pub model: String,
    pub input_tokens: u64,
    pub output_tokens: u64,
    pub input_price_per_million: u64,
    pub output_price_per_million: u64,
}

/// Resolves model prices from a table and builds usage records.
#[derive(Debug)]
pub struct CostObserver {
    prices: Vec<(String, ModelPricing)>,
    default_input_price: u64,
    default_output_price: u64,
}

/// Where the part of `k` after its last `/` begins, looking at `k[..i]`.
pub open spec fn tail_start(k: Seq<char>, i: int) -> int
    decreases i,
{
    if i <= 0 {
        0
    } else if k[i - 1] == '/' {
        i
    } else {
        tail_start(k, i - 1)
    }
}

/// The model part of a table key: what follows its last `/`, or the whole
/// key when it has none.
pub open spec fn key_model(k: Seq<char>) -> Seq<char> {
    k.subrange(tail_start(k, k.len() as int), k.len() as int)
}

/// A table key's model part and a model name belong to one family: one is
/// a prefix of the other, or, with hyphens read as dots, one contains the
/// other.
pub open spec fn family_match(key_part: Seq<char>, model: Seq<char>) -> bool {
    is_prefix(key_part, model) || is_prefix(model, key_part) || is_substring(
        hyphens_to_dots(key_part),
        hyphens_to_dots(model),
    ) || is_substring(hyphens_to_dots(model), hyphens_to_dots(key_part))
}

pub open spec fn key_is(table: Seq<(String, ModelPricing)>, key: Seq<char>) -> spec_fn(
    int,
) -> bool {
    |i: int| table[i].0@ == key
}

pub open spec fn in_family(table: Seq<(String, ModelPricing)>, model: Seq<char>) -> spec_fn(
    int,
) -> bool {
    |i: int| family_match(key_model(table[i].0@), model)
}

/// No two entries of a price table share a key: the table is a mapping
/// from key to prices.
pub open spec fn keys_unique(table: Seq<(String, ModelPricing)>) -> bool {
    forall|i: int, j: int|
        0 <= i < table.len() && 0 <= j < table.len() && i != j ==> (#[trigger] table[i]).0@
            != (#[trigger] table[j]).0@
}

/// "provider/model".
pub open spec fn full_name(provider: Seq<char>, model: Seq<char>) -> Seq<char> {
    provider + "/"@ + model
}

/// The table entry whose prices apply to `provider`/`model`: the first with
/// the key "provider/model"; failing that the first keyed by the model
/// alone; failing that the first whose key is of the model's family.
pub open spec fn price_entry(
    table: Seq<(String, ModelPricing)>,
    provider: Seq<char>,
    model: Seq<char>,
) -> Option<int> {
    let n = table.len() as int;
    match first_where(key_is(table, full_name(provider, model)), n) {
        Some(i) => Some(i),
        None => match first_where(key_is(table, model), n) {
            Some(i) => Some(i),
            None => first_where(in_family(table, model), n),
        },
    }
}

/// (input, output) prices for `provider`/`model`: those of the applicable
/// table entry, or the defaults when there is none.
pub open spec fn pricing_of(
    table: Seq<(String, ModelPricing)>,
    default_input: u64,
    default_output: u64,
    provider: Seq<char>,
    model: Seq<char>,
) -> (u64, u64) {
    match price_entry(table, provider, model) {
        Some(i) => (table[i].1.input, table[i].1.output),
        None => (default_input, default_output),
    }
}

pub open spec fn tokens_or_zero(t: Option<u64>) -> u64 {
    match t {
        Some(n) => n,
        None => 0,
    }
}

/// The model part of `key` (see `key_model`).
fn model_part(key: &str) -> (r: &str)
    ensures
        r@ == key_model(key@),
{
    let n = key.unicode_len();
    let mut i: usize = n;
    while i > 0
        invariant
            n == key@.len(),
            i <= n,
            tail_start(key@, n as int) == tail_start(key@, i as int),
        ensures
            i <= n,
            tail_start(key@, n as int) == i,
        decreases i,
    {
        if key.get_char(i - 1) == '/' {
            break;
        }
        i = i - 1;
    }
    key.substring_char(i, n)
}

impl CostObserver {
    /// The price table, in its configured order.
    pub closed spec fn table(&self) -> Seq<(String, ModelPricing)> {
        self.prices@
    }

    /// A valid observer's table maps each key to one price pair.
    pub closed spec fn wf(&self) -> bool {
        keys_unique(self.prices@)
    }

    pub closed spec fn default_input(&self) -> u64 {
        self.default_input_price
    }

    pub closed spec fn default_output(&self) -> u64 {
        self.default_output_price
    }

    /// An observer pricing from `prices`, with the defaults of 3.00 and
    /// 15.00 USD per million tokens for models that the table lacks.
    pub fn new(prices: Vec<(String, ModelPricing)>) -> (r: CostObserver)
        requires
            keys_unique(prices@),
        ensures
            r.wf(),
            r.table() == prices@,
            keys_unique(r.table()),
            r.default_input() == DEFAULT_INPUT_PRICE,
            r.default_output() == DEFAULT_OUTPUT_PRICE,
    {
        CostObserver {
            prices,
            default_input_price: DEFAULT_INPUT_PRICE,
            default_output_price: DEFAULT_OUTPUT_PRICE,
        }
    }

    /// Position of the first entry keyed exactly `key`.
    fn find_key(&self, key: &str) -> (r: Option<usize>)
        ensures
            r matches Some(i) ==> i < self.prices@.len(),
            first_where(key_is(self.prices@, key@), self.prices@.len() as int) == match r {
                Some(i) => Some(i as int),
                None => None,
            },
    {
        let ghost p = key_is(self.prices@, key@);
        let n = self.prices.len();
        let mut i: usize = 0;
        while i < n
            invariant
                n == self.prices@.len(),
                i <= n,
                p == key_is(self.prices@, key@),
                forall|j: int| 0 <= j < i ==> !#[trigger] p(j),
            decreases n - i,
        {
            if str_eq(self.prices[i].0.as_str(), key) {
                proof {
                    lemma_first_skip(p, 0, i as int, n as int);
                }
                return Some(i);
            }
            i = i + 1;
        }
        proof {
            lemma_first_skip(p, 0, n as int, n as int);
        }
        None
    }

    /// Position of the first entry whose key is of `model`'s family.
    fn find_family(&self, model: &str) -> (r: Option<usize>)
        ensures
            r matches Some(i) ==> i < self.prices@.len(),
            first_where(in_family(self.prices@, model@), self.prices@.len() as int) == match r {
                Some(i) => Some(i as int),
                None => None,
            },
    {
        let ghost p = in_family(self.prices@, model@);
        let n = self.prices.len();
        let normalized_model = hyphens_dotted(model);
        let mut i: usize = 0;
        while i < n
            invariant
                n == self.prices@.len(),
                i <= n,
                p == in_family(self.prices@, model@),
                normalized_model@ == hyphens_to_dots(model@),
                forall|j: int| 0 <= j < i ==> !#[trigger] p(j),
            decreases n - i,
        {
            let key_part = model_part(self.prices[i].0.as_str());
            let normalized_key = hyphens_dotted(key_part);
            if starts_with(model, key_part) || starts_with(key_part, model) || contains(
                normalized_model.as_str(),
                normalized_key.as_str(),
            ) || contains(normalized_key.as_str(), normalized_model.as_str()) {
                proof {
                    lemma_first_skip(p, 0, i as int, n as int);
                }
                return Some(i);
            }
            i = i + 1;
        }
        proof {
            lemma_first_skip(p, 0, n as int, n as int);
        }
        None
    }

    /// (input, output) prices for `provider`/`model`, tried in order as the
    /// exact "provider/model" key, the bare model key, a key of the model's
    /// family, and else the defaults. Never fails.
    pub fn get_pricing(&self, provider: &str, model: &str) -> (r: (u64, u64))
        ensures
            r == pricing_of(
                self.table(),
                self.default_input(),
                self.default_output(),
                provider@,
                model@,
            ),
    {
        let mut full = String::from_str(provider);
        full.append("/");
        full.append(model);
        let found = match self.find_key(full.as_str()) {
            Some(i) => Some(i),
            None => match self.find_key(model) {
                Some(i) => Some(i),
                None => self.find_family(model),
            },
        };
        match found {
            Some(i) => (self.prices[i].1.input, self.prices[i].1.output),
            None => (self.default_input_price, self.default_output_price),
        }
    }

    /// The usage to forward to the ledger for `event`: only a successful
    /// response with a non-zero token count yields one, priced by
    /// `get_pricing` and named "provider/model"; every other event yields
    /// nothing.
    pub fn record_event(&self, event: &ObserverEvent) -> (r: Option<UsageRecord>)
        ensures
            (match event {
                ObserverEvent::LlmResponse {
                    provider,
                    model,
                    success,
                    input_tokens,
                    output_tokens,
                    ..
                } => {
                    let input = tokens_or_zero(*input_tokens);
                    let output = tokens_or_zero(*output_tokens);
                    if *success && !(input == 0 && output == 0) {
                        let prices = pricing_of(
                            self.table(),
                            self.default_input(),
                            self.default_output(),
                            provider@,
                            model@,
                        );
                        r matches Some(u) && u.model@ == full_name(provider@, model@)
                            && u.input_tokens == input && u.output_tokens == output
                            && u.input_price_per_million == prices.0
                            && u.output_price_per_million == prices.1
                    } else {
                        r is None
                    }
                },
                _ => r is None,
            }),
    {
        match event {
            ObserverEvent::LlmResponse {
                provider,
                model,
                success,
                input_tokens,
                output_tokens,
                ..
            } => {
                if !*success {
                    return None;
                }
                let input = match input_tokens {
                    Some(n) => *n,
                    None => 0,
                };
                let output = match output_tokens {
                    Some(n) => *n,
                    None => 0,
                };
                if input == 0 && output == 0 {
                    return None;
                }
                let (input_price, output_price) = self.get_pricing(
                    provider.as_str(),
                    model.as_str(),
                );
                let mut name = provider.clone();
                name.append("/");
                name.append(model.as_str());
                Some(
                    UsageRecord {
                        model: name,
                        input_tokens: input,
                        output_tokens: output,
                        input_price_per_million: input_price,
                        output_price_per_million: output_price,
                    },
                )
            },
            _ => None,
        }
    }
}

/// When a table with unique keys has the key "provider/model", that
/// entry's prices are the ones returned, whatever family or bare-model
/// entries the table also holds.
pub proof fn lemma_exact_key_wins(
    table: Seq<(String, ModelPricing)>,
    default_input: u64,
    default_output: u64,
    provider: Seq<char>,
    model: Seq<char>,
    i: int,
)
    requires
        0 <= i < table.len(),
        keys_unique(table),
        table[i].0@ == full_name(provider, model),
    ensures
        pricing_of(table, default_input, default_output, provider, model) == (
            table[i].1.input,
            table[i].1.output,
        ),
{
    let p = key_is(table, full_name(provider, model));
    assert forall|j: int| 0 <= j < i implies !#[trigger] p(j) by {
        assert(table[j].0@ != full_name(provider, model));
    }
    lemma_first_skip(p, 0, i, table.len() as int);
}

/// When no entry is keyed "provider/model" or by the model, and none is of
/// the model's family, the defaults are returned.
pub proof fn lemma_unmatched_uses_defaults(
    table: Seq<(String, ModelPricing)>,
    default_input: u64,
    default_output: u64,
    provider: Seq<char>,
    model: Seq<char>,
)
    requires
        forall|i: int|
            0 <= i < table.len() ==> {
                let key = (#[trigger] table[i]).0@;
                &&& key != full_name(provider, model)
                &&& key != model
                &&& !family_match(key_model(key), model)
            },
    ensures
        pricing_of(table, default_input, default_output, provider, model) == (
            default_input,
            default_output,
        ),
{
    let n = table.len() as int;
    let exact = key_is(table, full_name(provider, model));
    let bare = key_is(table, model);
    let family = in_family(table, model);
    assert forall|j: int| 0 <= j < n implies !#[trigger] exact(j) && !bare(j) && !family(j) by {
        assert(table[j] == table[j]);
    }
    lemma_first_skip(exact, 0, n, n);
    lemma_first_skip(bare, 0, n, n);
    lemma_first_skip(family, 0, n, n);
}

} // verus!
