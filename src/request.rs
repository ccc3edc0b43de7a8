use vstd::prelude::*;
use crate::topic::channel_name;

verus! {

/// Relies on chrono's `Utc::now` and `DateTime::timestamp_millis`: the current
/// time in milliseconds since the epoch. Nothing is known of the value.
#[verifier::external_body]
fn now_millis() -> (r: i64) {
    chrono::Utc::now().timestamp_millis()
}

/// The process settings that the pipeline reads: where the pub/sub service
/// is, what to subscribe to and where to write.
pub struct Settings {
    pub redis_url: String,
    pub exchange_name: String,
    pub symbols: Vec<String>,
    pub market_type: String,
    pub stream_type: String,
    pub log_directory: String,
}

/// A (un)subscribe announcement published on the control channel.
pub struct SubscriptionRequest {
    pub action: String,
    pub symbols: Vec<String>,
    pub stream_type: String,
    pub market_type: String,
    pub request_id: u64,
}

/// `s` followed by `":"` and `t`.
fn join_with_colon(s: String, t: &str) -> (r: String)
    ensures
        r@ == s@ + seq![':'] + t@,
{
    proof {
        reveal_strlit(":");
    }
    let r = s.concat(":");
    r.concat(t)
}

/// The data channel of one symbol.
fn channel_for(exchange: &str, market_type: &str, symbol: &str, stream_type: &str) -> (r: String)
    ensures
        r@ == channel_name(exchange@, market_type@, symbol@, stream_type@),
{
    let r = String::from_str(exchange);
    let r = join_with_colon(r, market_type);
    let r = join_with_colon(r, symbol);
    join_with_colon(r, stream_type)
}

/// The control channel `<exchange>:control` of an exchange.
pub open spec fn control_channel_name(exchange: Seq<char>) -> Seq<char> {
    exchange + seq![':', 'c', 'o', 'n', 't', 'r', 'o', 'l']
}

impl SubscriptionRequest {
    /// A request stamped with the current time in milliseconds as its id.
    pub fn new(
        action: String,
        symbols: Vec<String>,
        stream_type: String,
        market_type: String,
    ) -> (r: Self)
        ensures
            r.action == action,
            r.symbols == symbols,
            r.stream_type == stream_type,
            r.market_type == market_type,
    {
        let now = now_millis();
        SubscriptionRequest {
            action,
            symbols,
            stream_type,
            market_type,
            request_id: now as u64,
        }
    }

    /// One data channel per symbol, in the order of the symbols.
    pub fn get_channels(&self, exchange: &str) -> (r: Vec<String>)
        ensures
            r@.len() == self.symbols@.len(),
            forall|i: int|
                0 <= i < r@.len() ==> #[trigger] r@[i]@ == channel_name(
                    exchange@,
                    self.market_type@,
                    self.symbols@[i]@,
                    self.stream_type@,
                ),
    {
        let mut out: Vec<String> = Vec::new();
        let mut i: usize = 0;
        while i < self.symbols.len()
            invariant
                i <= self.symbols@.len(),
                out@.len() == i,
                forall|j: int|
                    0 <= j < i ==> #[trigger] out@[j]@ == channel_name(
                        exchange@,
                        self.market_type@,
                        self.symbols@[j]@,
                        self.stream_type@,
                    ),
            decreases self.symbols@.len() - i,
        {
            let c = channel_for(
                exchange,
                self.market_type.as_str(),
                self.symbols[i].as_str(),
                self.stream_type.as_str(),
            );
            out.push(c);
            i = i + 1;
        }
        out
    }
}

impl Settings {
    /// The control channel on which (un)subscribe requests are announced.
    pub fn control_channel(&self) -> (r: String)
        ensures
            r@ == control_channel_name(self.exchange_name@),
    {
        proof {
            reveal_strlit(":control");
        }
        self.exchange_name.clone().concat(":control")
    }

    /// A request with the given action for the configured symbols, market
    /// type and stream type.
    pub fn subscription_request(&self, action: String) -> (r: SubscriptionRequest)
        ensures
            r.action == action,
            r.symbols@.len() == self.symbols@.len(),
            forall|i: int| 0 <= i < r.symbols@.len() ==> #[trigger] r.symbols@[i]@ == self.symbols@[i]@,
            r.stream_type@ == self.stream_type@,
            r.market_type@ == self.market_type@,
    {
        let mut symbols: Vec<String> = Vec::new();
        let mut i: usize = 0;
        while i < self.symbols.len()
            invariant
                i <= self.symbols@.len(),
                symbols@.len() == i,
                forall|j: int| 0 <= j < i ==> #[trigger] symbols@[j]@ == self.symbols@[j]@,
            decreases self.symbols@.len() - i,
        {
            symbols.push(self.symbols[i].clone());
            i = i + 1;
        }
        SubscriptionRequest::new(
            action,
            symbols,
            self.stream_type.clone(),
            self.market_type.clone(),
        )
    }
}

} // verus!
