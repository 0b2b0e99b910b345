//! Payments as the providers report them, and the credentials that name a
//! provider.
use crate::clock::{now_millis, now_nanos, random_in};
use crate::money::{decimal_text, signed_digits};
use crate::setup::{adyen_name, is_adyen, is_mock, mock_name, mollie_name};
use crate::text::same_text;
use vstd::prelude::*;

verus! {

/// One payment notification, normalised across providers.
///
/// `created_at` is in milliseconds since the Unix epoch.
#[derive(Debug, Clone)]
pub struct Payment {
    pub id: String,
    pub amount_cents: i64,
    pub currency: String,
    pub status: String,
    pub created_at: i64,
    pub provider: String,
}

/// The finished credentials of one provider.
#[derive(Debug, Clone)]
pub struct PspConfig {
    pub provider: String,
    pub api_key: String,
}

impl Payment {
    pub open spec fn view(&self) -> PaymentView {
        (self.id@, self.amount_cents, self.currency@, self.status@, self.created_at, self.provider@)
    }
}

/// A payment as values: id, amount, currency, status, creation time and
/// provider.
pub type PaymentView = (Seq<char>, i64, Seq<char>, Seq<char>, i64, Seq<char>);

impl PspConfig {
    pub open spec fn view(&self) -> (Seq<char>, Seq<char>) {
        (self.provider@, self.api_key@)
    }
}

/// The test provider: every poll yields one payment of two to fifteen whole
/// units.
pub struct MockProvider;

/// Fewest and most whole units of a test payment.
pub const MOCK_MIN_UNITS: i64 = 2;

pub const MOCK_MAX_UNITS: i64 = 15;

pub open spec fn mock_id(stamp: i64) -> Seq<char> {
    seq!['m', 'o', 'c', 'k', '_'] + signed_digits(stamp as int)
}

pub open spec fn eur() -> Seq<char> {
    seq!['E', 'U', 'R']
}

pub open spec fn paid() -> Seq<char> {
    seq!['p', 'a', 'i', 'd']
}

/// The test payment of `units` whole units, stamped `stamp` nanoseconds and
/// created at `now`.
pub fn mock_payment(units: i64, stamp: i64, now: i64) -> (p: Payment)
    requires
        i64::MIN <= units * 100 <= i64::MAX,
    ensures
        p.view() == (mock_id(stamp), (units * 100) as i64, eur(), paid(), now, mock_name()),
{
    let mut id = String::from_str("mock_");
    let digits = decimal_text(stamp);
    id.append(digits.as_str());
    proof {
        reveal_strlit("mock_");
        reveal_strlit("EUR");
        reveal_strlit("paid");
        reveal_strlit("Mock");
        assert(id@ =~= mock_id(stamp));
        assert("EUR"@ =~= eur());
        assert("paid"@ =~= paid());
        assert("Mock"@ =~= mock_name());
    }
    Payment {
        id,
        amount_cents: units * 100,
        currency: String::from_str("EUR"),
        status: String::from_str("paid"),
        created_at: now,
        provider: String::from_str("Mock"),
    }
}

impl MockProvider {
    pub fn new() -> Self {
        MockProvider
    }

    /// One test payment, of a random number of whole units, created now.
    pub fn fetch_recent_payments(&self, since: i64) -> (r: Vec<Payment>)
        ensures
            r@.len() == 1,
            r@[0].provider@ == mock_name(),
            r@[0].currency@ == eur(),
            r@[0].status@ == paid(),
            r@[0].amount_cents % 100 == 0,
            MOCK_MIN_UNITS * 100 <= r@[0].amount_cents <= MOCK_MAX_UNITS * 100,
            exists|stamp: i64| r@[0].id@ == mock_id(stamp),
    {
        let units = random_in(MOCK_MIN_UNITS, MOCK_MAX_UNITS);
        let stamp = match now_nanos() {
            Some(n) => n,
            None => 0,
        };
        let p = mock_payment(units, stamp, now_millis());
        vec![p]
    }
}

/// One record of a provider's payment list, as the provider wrote it; the
/// amount is `None` where it could not be read.
#[derive(Debug, Clone)]
pub struct ProviderRecord {
    pub id: String,
    pub amount_cents: Option<i64>,
    pub currency: String,
    pub status: String,
    pub created_at: String,
}

/// The instant that an RFC 3339 timestamp names, in milliseconds since the
/// Unix epoch.
pub uninterp spec fn rfc3339_millis(s: Seq<char>) -> Option<i64>;

/// Relies on `chrono::DateTime::parse_from_rfc3339` and
/// `DateTime::timestamp_millis`: the instant that the text names, or `None`
/// where it is no RFC 3339 timestamp.
#[verifier::external_body]
fn parse_timestamp(s: &str) -> (r: Option<i64>)
    ensures
        r == rfc3339_millis(s@),
{
    chrono::DateTime::parse_from_rfc3339(s).ok().map(|d| d.timestamp_millis())
}

/// The payment that a record becomes: only a well-formed record (its
/// creation time a timestamp, its amount read) that is kept (created at or
/// after `since` and, where only paid payments count, paid) becomes one.
pub open spec fn record_payment(
    r: ProviderRecord,
    since: i64,
    paid_only: bool,
    provider: Seq<char>,
) -> Option<PaymentView> {
    match rfc3339_millis(r.created_at@) {
        Some(t) => match r.amount_cents {
            Some(amount) => if t >= since && (!paid_only || r.status@ == paid()) {
                Some((r.id@, amount, r.currency@, r.status@, t, provider))
            } else {
                None
            },
            None => None,
        },
        None => None,
    }
}

/// The payments that the records become, in order; malformed records are
/// dropped, the rest of the list stays.
pub open spec fn selected(
    records: Seq<ProviderRecord>,
    since: i64,
    paid_only: bool,
    provider: Seq<char>,
) -> Seq<PaymentView>
    decreases records.len(),
{
    if records.len() == 0 {
        seq![]
    } else {
        selected(records.drop_last(), since, paid_only, provider) + match record_payment(
            records.last(),
            since,
            paid_only,
            provider,
        ) {
            Some(v) => seq![v],
            None => seq![],
        }
    }
}

fn record_to_payment(rec: &ProviderRecord, since: i64, paid_only: bool, provider: &str) -> (r:
    Option<Payment>)
    ensures
        match record_payment(*rec, since, paid_only, provider@) {
            Some(v) => r matches Some(p) && p.view() == v,
            None => r.is_none(),
        },
{
    proof {
        reveal_strlit("paid");
        assert("paid"@ =~= paid());
    }
    match parse_timestamp(rec.created_at.as_str()) {
        Some(t) => match rec.amount_cents {
            Some(amount) => {
                if t >= since && (!paid_only || same_text(rec.status.as_str(), "paid")) {
                    Some(
                        Payment {
                            id: rec.id.clone(),
                            amount_cents: amount,
                            currency: rec.currency.clone(),
                            status: rec.status.clone(),
                            created_at: t,
                            provider: String::from_str(provider),
                        },
                    )
                } else {
                    None
                }
            },
            None => None,
        },
        None => None,
    }
}

fn select_payments(records: &Vec<ProviderRecord>, since: i64, paid_only: bool, provider: &str) -> (r:
    Vec<Payment>)
    ensures
        r@.map_values(|p: Payment| p.view()) == selected(records@, since, paid_only, provider@),
{
    let mut out: Vec<Payment> = Vec::new();
    let mut i: usize = 0;
    while i < records.len()
        invariant
            0 <= i <= records@.len(),
            out@.map_values(|p: Payment| p.view()) == selected(
                records@.take(i as int),
                since,
                paid_only,
                provider@,
            ),
        decreases records@.len() - i,
    {
        assert(records@.take(i + 1).drop_last() =~= records@.take(i as int));
        assert(records@.take(i + 1).last() == records@[i as int]);
        match record_to_payment(&records[i], since, paid_only, provider) {
            Some(p) => out.push(p),
            None => {},
        }
        i = i + 1;
        assert(out@.map_values(|p: Payment| p.view()) =~= selected(
            records@.take(i as int),
            since,
            paid_only,
            provider@,
        ));
    }
    assert(records@.take(i as int) =~= records@);
    out
}

/// The paid payments of a Mollie list created at or after `since`, in
/// order; a record whose creation time or amount cannot be read is dropped.
pub fn mollie_payments(records: &Vec<ProviderRecord>, since: i64) -> (r: Vec<Payment>)
    ensures
        r@.map_values(|p: Payment| p.view()) == selected(records@, since, true, mollie_name()),
{
    proof {
        reveal_strlit("Mollie");
        assert("Mollie"@ =~= mollie_name());
    }
    select_payments(records, since, true, "Mollie")
}

/// The payments of an Adyen list created at or after `since`, in order; a
/// record whose creation time or amount cannot be read is dropped.
pub fn adyen_payments(records: &Vec<ProviderRecord>, since: i64) -> (r: Vec<Payment>)
    ensures
        r@.map_values(|p: Payment| p.view()) == selected(records@, since, false, adyen_name()),
{
    proof {
        reveal_strlit("Adyen");
        assert("Adyen"@ =~= adyen_name());
    }
    select_payments(records, since, false, "Adyen")
}

/// A provider to poll, with what it needs to sign in.
#[derive(Debug, Clone)]
pub enum ProviderPlan {
    Mock,
    Mollie { api_key: String },
    Adyen { api_key: String, merchant_account: String },
}

impl ProviderPlan {
    /// The provider's name followed by its credentials.
    pub open spec fn view(&self) -> Seq<Seq<char>> {
        match self {
            ProviderPlan::Mock => seq![mock_name()],
            ProviderPlan::Mollie { api_key } => seq![mollie_name(), api_key@],
            ProviderPlan::Adyen { api_key, merchant_account } => seq![
                adyen_name(),
                api_key@,
                merchant_account@,
            ],
        }
    }
}

/// Position of the first `|` in `s` from `from` on.
pub open spec fn first_bar(s: Seq<char>, from: int) -> Option<int>
    decreases s.len() - from,
{
    if from < 0 || from >= s.len() {
        None
    } else if s[from] == '|' {
        Some(from)
    } else {
        first_bar(s, from + 1)
    }
}

/// What one stored credential set becomes: the test provider as it is;
/// Mollie with its key; Adyen with the key and merchant account split at the
/// first `|`, and nothing where there is none; any other name, nothing.
pub open spec fn plan_of(c: (Seq<char>, Seq<char>)) -> Option<Seq<Seq<char>>> {
    if c.0 == mock_name() {
        Some(seq![mock_name()])
    } else if c.0 == mollie_name() {
        Some(seq![mollie_name(), c.1])
    } else if c.0 == adyen_name() {
        match first_bar(c.1, 0) {
            Some(i) => Some(seq![adyen_name(), c.1.take(i), c.1.skip(i + 1)]),
            None => None,
        }
    } else {
        None
    }
}

/// The providers to poll for the stored credential sets, in order.
pub open spec fn plans(cfgs: Seq<(Seq<char>, Seq<char>)>) -> Seq<Seq<Seq<char>>>
    decreases cfgs.len(),
{
    if cfgs.len() == 0 {
        seq![]
    } else {
        plans(cfgs.drop_last()) + match plan_of(cfgs.last()) {
            Some(p) => seq![p],
            None => seq![],
        }
    }
}

/// Splits a stored credential at its first `|`.
fn split_credential(s: &String) -> (r: Option<(String, String)>)
    ensures
        match first_bar(s@, 0) {
            Some(i) => r matches Some(pair) && pair.0@ == s@.take(i) && pair.1@ == s@.skip(i + 1),
            None => r.is_none(),
        },
{
    let text = s.as_str();
    let n = text.unicode_len();
    let mut i: usize = 0;
    while i < n
        invariant
            n == s@.len(),
            text@ == s@,
            0 <= i <= n,
            first_bar(s@, 0) == first_bar(s@, i as int),
        decreases n - i,
    {
        if text.get_char(i) == '|' {
            let head = text.substring_char(0, i);
            let tail = text.substring_char(i + 1, n);
            assert(s@.skip(i + 1) =~= s@.subrange(i + 1, n as int));
            return Some((String::from_str(head), String::from_str(tail)));
        }
        i = i + 1;
    }
    None
}

fn plan_for(c: &PspConfig) -> (r: Option<ProviderPlan>)
    ensures
        match plan_of(c.view()) {
            Some(p) => r matches Some(q) && q.view() == p,
            None => r.is_none(),
        },
{
    proof {
        reveal_strlit("Mollie");
        assert("Mollie"@ =~= mollie_name());
    }
    if is_mock(&c.provider) {
        Some(ProviderPlan::Mock)
    } else if same_text(c.provider.as_str(), "Mollie") {
        Some(ProviderPlan::Mollie { api_key: c.api_key.clone() })
    } else if is_adyen(&c.provider) {
        match split_credential(&c.api_key) {
            Some((api_key, merchant_account)) => Some(ProviderPlan::Adyen { api_key, merchant_account }),
            None => None,
        }
    } else {
        None
    }
}

/// The providers to poll for the stored credential sets: one per set whose
/// provider is known and whose credentials are complete, in order.
pub fn build_providers(configs: &Vec<PspConfig>) -> (r: Vec<ProviderPlan>)
    ensures
        r@.map_values(|p: ProviderPlan| p.view()) == plans(
            configs@.map_values(|c: PspConfig| c.view()),
        ),
{
    let ghost cv = configs@.map_values(|c: PspConfig| c.view());
    let mut out: Vec<ProviderPlan> = Vec::new();
    let mut i: usize = 0;
    while i < configs.len()
        invariant
            0 <= i <= configs@.len(),
            cv == configs@.map_values(|c: PspConfig| c.view()),
            out@.map_values(|p: ProviderPlan| p.view()) == plans(cv.take(i as int)),
        decreases configs@.len() - i,
    {
        assert(cv.take(i + 1).drop_last() =~= cv.take(i as int));
        match plan_for(&configs[i]) {
            Some(p) => out.push(p),
            None => {},
        }
        i = i + 1;
        assert(out@.map_values(|p: ProviderPlan| p.view()) =~= plans(cv.take(i as int)));
    }
    assert(cv.take(i as int) =~= cv);
    out
}

} // verus!
