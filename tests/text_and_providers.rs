use profit_cli::clock::elapsed_between;
use profit_cli::money::{decimal_text, dots_animation, format_money};
use profit_cli::psp::{
    adyen_payments, build_providers, mollie_payments, MockProvider, ProviderPlan, ProviderRecord,
    PspConfig,
};

#[test]
fn money_with_separators() {
    assert_eq!(format_money(123456, "€"), "€1,234.56");
    assert_eq!(format_money(100000000, "$"), "$1,000,000.00");
    assert_eq!(format_money(12345, "CA$"), "CA$123.45");
    assert_eq!(format_money(0, "€"), "€0.00");
    assert_eq!(format_money(7, "€"), "€0.07");
}

#[test]
fn money_negative() {
    assert_eq!(format_money(-150, "$"), "$-1.50");
    assert_eq!(format_money(-50, "$"), "$0.50");
    assert_eq!(format_money(-123456789, "£"), "£-1,234,567.89");
    assert_eq!(format_money(i64::MIN, ""), "-92,233,720,368,547,758.08");
}

#[test]
fn dots_cycle() {
    assert_eq!(dots_animation(0), "");
    assert_eq!(dots_animation(1), ".");
    assert_eq!(dots_animation(6), "..");
    assert_eq!(dots_animation(7), "...");
}

#[test]
fn decimal_text_signs() {
    assert_eq!(decimal_text(-42), "-42");
    assert_eq!(decimal_text(0), "0");
    assert_eq!(decimal_text(1700000000123456789), "1700000000123456789");
}

#[test]
fn mock_payment_in_range() {
    let mock = MockProvider::new();
    for _ in 0..20 {
        let ps = mock.fetch_recent_payments(0);
        assert_eq!(ps.len(), 1);
        let p = &ps[0];
        assert!(p.amount_cents >= 200 && p.amount_cents <= 1500);
        assert_eq!(p.amount_cents % 100, 0);
        assert!(p.id.starts_with("mock_"));
        assert_eq!(p.provider, "Mock");
        assert_eq!(p.currency, "EUR");
        assert_eq!(p.status, "paid");
    }
}

fn cfg(provider: &str, key: &str) -> PspConfig {
    PspConfig { provider: provider.to_string(), api_key: key.to_string() }
}

#[test]
fn providers_from_stored_credentials() {
    let plans = build_providers(&vec![
        cfg("Mock", ""),
        cfg("Adyen", "AQE|Shop|Two"),
        cfg("Adyen", "no-bar"),
        cfg("Mollie", "live_1"),
        cfg("Stripe", "sk"),
    ]);
    assert_eq!(plans.len(), 3);
    assert!(matches!(plans[0], ProviderPlan::Mock));
    match &plans[1] {
        ProviderPlan::Adyen { api_key, merchant_account } => {
            assert_eq!(api_key, "AQE");
            assert_eq!(merchant_account, "Shop|Two");
        }
        _ => panic!("expected Adyen"),
    }
    match &plans[2] {
        ProviderPlan::Mollie { api_key } => assert_eq!(api_key, "live_1"),
        _ => panic!("expected Mollie"),
    }
}

fn record(id: &str, amount: Option<i64>, status: &str, created: &str) -> ProviderRecord {
    ProviderRecord {
        id: id.to_string(),
        amount_cents: amount,
        currency: "EUR".to_string(),
        status: status.to_string(),
        created_at: created.to_string(),
    }
}

// 2024-01-01T00:00:00Z
const NEW_YEAR: i64 = 1704067200000;

#[test]
fn mollie_keeps_recent_paid() {
    let records = vec![
        record("tr_1", Some(1000), "paid", "2024-01-01T00:00:01Z"),
        record("tr_2", Some(500), "open", "2024-01-01T00:00:02Z"),
        record("tr_3", None, "paid", "2023-12-31T23:59:59Z"),
        record("tr_4", Some(250), "paid", "2024-01-01T01:00:00+01:00"),
    ];
    let ps = mollie_payments(&records, NEW_YEAR);
    assert_eq!(ps.len(), 2);
    assert_eq!(ps[0].id, "tr_1");
    assert_eq!(ps[0].created_at, NEW_YEAR + 1000);
    assert_eq!(ps[0].provider, "Mollie");
    assert_eq!(ps[1].id, "tr_4");
    assert_eq!(ps[1].created_at, NEW_YEAR);
}

#[test]
fn mollie_drops_malformed_records() {
    let records = vec![
        record("tr_1", Some(1000), "paid", "yesterday"),
        record("tr_2", None, "paid", "2024-01-01T00:00:01Z"),
        record("tr_3", Some(400), "paid", "2024-01-01T00:00:02Z"),
    ];
    let ps = mollie_payments(&records, NEW_YEAR);
    assert_eq!(ps.len(), 1);
    assert_eq!(ps[0].id, "tr_3");
    assert_eq!(ps[0].amount_cents, 400);
}

#[test]
fn adyen_keeps_recent() {
    let records = vec![
        record("psp_1", Some(1000), "Authorised", "2023-06-01T00:00:00Z"),
        record("psp_2", Some(2000), "Authorised", "2024-02-01T00:00:00Z"),
        record("psp_3", Some(3000), "Authorised", "not a time"),
    ];
    let ps = adyen_payments(&records, NEW_YEAR);
    assert_eq!(ps.len(), 1);
    assert_eq!(ps[0].id, "psp_2");
    assert_eq!(ps[0].amount_cents, 2000);
    assert_eq!(ps[0].created_at, 1706745600000);
    assert_eq!(ps[0].provider, "Adyen");
}

#[test]
fn elapsed_time_saturates() {
    assert_eq!(elapsed_between(1000, 4500), 3500);
    assert_eq!(elapsed_between(10, 5), -5);
    assert_eq!(elapsed_between(i64::MIN, i64::MAX), i64::MAX);
    assert_eq!(elapsed_between(i64::MAX, i64::MIN), i64::MIN);
}

#[test]
fn session_clock_runs_forward() {
    let app = profit_cli::app::App::new();
    let d = app.session_duration();
    assert!(d >= 0 && d < 60_000);
}
