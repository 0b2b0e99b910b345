use profit_cli::app::{App, AppPhase};
use profit_cli::config::AppConfig;
use profit_cli::psp::{Payment, PspConfig};

fn payment(id: &str, amount: i64, provider: &str) -> Payment {
    Payment {
        id: id.to_string(),
        amount_cents: amount,
        currency: "EUR".to_string(),
        status: "paid".to_string(),
        created_at: 0,
        provider: provider.to_string(),
    }
}

fn running_app() -> App {
    let config = AppConfig {
        currency: "EUR".to_string(),
        currency_symbol: "€".to_string(),
        providers: vec![PspConfig { provider: "Mock".to_string(), api_key: String::new() }],
    };
    App::from_config(config)
}

#[test]
fn duplicate_id_counted_once() {
    let mut app = running_app();
    app.add_payment(payment("pay_1", 500, "Mock"));
    app.add_payment(payment("pay_1", 500, "Mock"));
    assert_eq!(app.total_cents, 500);
    assert_eq!(app.session_payments.len(), 1);
    assert_eq!(app.pending_bills.len(), 5);
}

#[test]
fn duplicate_id_with_other_payload_ignored() {
    let mut app = running_app();
    app.add_payment(payment("pay_1", 300, "Mock"));
    app.add_payment(payment("pay_1", 9900, "Adyen"));
    assert_eq!(app.total_cents, 300);
    assert_eq!(app.session_payments.len(), 1);
    assert_eq!(app.session_payments[0].amount_cents, 300);
    assert_eq!(app.pending_bills.len(), 3);
    assert!(app.seen(&"pay_1".to_string()));
    assert!(!app.seen(&"pay_2".to_string()));
}

#[test]
fn expansion_is_capped_at_ten() {
    let mut app = running_app();
    app.add_payment(payment("big", 1550, "Mollie"));
    assert_eq!(app.pending_bills.len(), 10);
    assert!(app.pending_bills.iter().all(|b| b.amount_cents == 100 && b.provider == "Mollie"));
}

#[test]
fn expansion_floors_amount() {
    let mut app = running_app();
    app.add_payment(payment("mid", 250, "Mock"));
    assert_eq!(app.pending_bills.len(), 2);
    app.add_payment(payment("small", 40, "Mock"));
    assert_eq!(app.pending_bills.len(), 2);
    assert_eq!(app.total_cents, 290);
    app.add_payment(payment("exact", 1000, "Mock"));
    assert_eq!(app.pending_bills.len(), 12);
}

#[test]
fn negative_amount_is_dropped() {
    let mut app = running_app();
    app.add_payment(payment("refund", -500, "Mock"));
    assert_eq!(app.pending_bills.len(), 0);
    assert_eq!(app.total_cents, 0);
    assert!(app.session_payments.is_empty());
    assert!(!app.seen(&"refund".to_string()));
    assert!(!app.would_overflow(&payment("refund", -500, "Mock")));
}

#[test]
fn overflow_is_detected_before_delivery() {
    let mut app = running_app();
    app.add_payment(payment("a", i64::MAX - 10, "Mock"));
    assert!(app.would_overflow(&payment("b", 11, "Mock")));
    assert!(!app.would_overflow(&payment("b", 10, "Mock")));
    assert!(!app.would_overflow(&payment("a", 1000, "Mock")));
}

#[test]
fn reset_keeps_total_and_seen_ids() {
    let mut app = running_app();
    app.add_payment(payment("p", 700, "Mock"));
    app.tick(0, 40);
    assert_eq!(app.bills.len(), 1);
    app.phase = AppPhase::Celebration;
    app.reset_session();
    assert_eq!(app.phase, AppPhase::Running);
    assert!(app.bills.is_empty());
    assert!(app.pending_bills.is_empty());
    assert_eq!(app.celebration_tick, 0);
    assert_eq!(app.total_cents, 700);
    app.add_payment(payment("p", 700, "Mock"));
    assert_eq!(app.total_cents, 700);
    assert_eq!(app.session_payments.len(), 1);
}

#[test]
fn total_never_decreases_while_running() {
    let mut app = running_app();
    let mut last = app.total_cents;
    for k in 0..60u32 {
        if k % 7 == 0 {
            app.add_payment(payment(&format!("p{}", k % 21), 120 * (k as i64 + 1), "Mock"));
        }
        app.tick(k, 30);
        assert!(app.total_cents >= last);
        last = app.total_cents;
    }
}
