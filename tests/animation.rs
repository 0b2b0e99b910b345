use profit_cli::app::{App, AppPhase, PendingBill};
use profit_cli::bill::BillAnimation;
use profit_cli::config::AppConfig;
use profit_cli::psp::PspConfig;
use profit_cli::setup::InputKey;
use profit_cli::session::KeyOutcome;

fn running_app() -> App {
    let config = AppConfig {
        currency: "USD".to_string(),
        currency_symbol: "$".to_string(),
        providers: vec![PspConfig { provider: "Mock".to_string(), api_key: String::new() }],
    };
    App::from_config(config)
}

fn queue(app: &mut App, n: usize) {
    for _ in 0..n {
        app.pending_bills.push(PendingBill { amount_cents: 100, provider: "Mock".to_string() });
    }
}

#[test]
fn gap_shrinks_by_seven_tenths() {
    let mut b = BillAnimation::spawn(100, 20, "Mock".to_string());
    b.advance();
    assert_eq!((b.gap_num, b.gap_den), (140, 10));
    b.advance();
    assert_eq!((b.gap_num, b.gap_den), (980, 100));
    assert!(!b.settled);
    assert_eq!(b.age_ticks, 2);
    // 20 * 0.7^2 = 9.8 rows above row 20: row 10.2, shown on row 10
    assert_eq!(b.y_pos_row(), 10);
}

#[test]
fn bill_settles_exactly_and_stays() {
    let mut b = BillAnimation::spawn(100, 20, "Mock".to_string());
    let mut ticks = 0;
    while !b.settled {
        b.advance();
        ticks += 1;
        assert!(ticks < 100);
    }
    // 20 * 0.7^9 < 1 <= 20 * 0.7^8: nine moves, then the snap
    assert_eq!(ticks, 10);
    assert_eq!(b.moves, 9);
    assert_eq!(b.gap_num, 0);
    assert_eq!(b.y_pos_row(), 20);
    for _ in 0..5 {
        b.advance();
    }
    assert_eq!(b.y_pos_row(), 20);
    assert!(b.settled);
    assert_eq!(b.age_ticks, 15);
}

#[test]
fn bill_on_row_zero_settles_at_once() {
    let mut b = BillAnimation::spawn(100, 0, "Mock".to_string());
    b.advance();
    assert!(b.settled);
    assert_eq!(b.y_pos_row(), 0);
}

#[test]
fn tallest_target_still_settles() {
    let mut b = BillAnimation::spawn(100, u16::MAX, "Mock".to_string());
    let mut ticks = 0;
    while !b.settled {
        b.advance();
        ticks += 1;
    }
    assert_eq!(b.moves, 32);
    assert_eq!(ticks, 33);
    assert_eq!(b.y_pos_row(), u16::MAX);
}

#[test]
fn spawn_every_third_tick() {
    let mut app = running_app();
    queue(&mut app, 3);
    app.tick(0, 40);
    assert_eq!(app.bills.len(), 1);
    assert_eq!(app.pending_bills.len(), 2);
    app.tick(1, 40);
    app.tick(2, 40);
    assert_eq!(app.bills.len(), 1);
    app.tick(3, 40);
    assert_eq!(app.bills.len(), 2);
}

#[test]
fn spawn_targets_top_of_stack() {
    let mut app = running_app();
    queue(&mut app, 2);
    app.spawn_next_bill(40);
    assert_eq!(app.bills[0].target_y, 36);
    app.bills[0].settled = true;
    app.bills[0].gap_num = 0;
    app.bills[0].gap_den = 1;
    app.spawn_next_bill(40);
    assert_eq!(app.bills[1].target_y, 33);
    assert!(app.pending_bills.is_empty());
    app.spawn_next_bill(40);
    assert_eq!(app.bills.len(), 2);
}

#[test]
fn no_spawn_outside_running() {
    let mut app = running_app();
    queue(&mut app, 1);
    app.phase = AppPhase::Setup;
    app.tick(0, 40);
    assert!(app.bills.is_empty());
    assert_eq!(app.pending_bills.len(), 1);
}

#[test]
fn full_screen_starts_celebration() {
    let mut app = running_app();
    // a display of 12 rows is full at two settled bills
    queue(&mut app, 2);
    let mut k = 0u32;
    while app.phase == AppPhase::Running {
        app.tick(k, 12);
        k += 1;
        assert!(k < 200);
    }
    assert_eq!(app.phase, AppPhase::Celebration);
    assert!(app.is_screen_full(12));
    assert_eq!(app.settled_bills(), 2);
    assert_eq!(app.celebration_tick, 1);
}

#[test]
fn screen_full_threshold() {
    let mut app = running_app();
    assert!(app.is_screen_full(6));
    assert!(!app.is_screen_full(7));
    let mut b = BillAnimation::spawn(100, 0, "Mock".to_string());
    b.advance();
    app.bills.push(b);
    assert!(app.is_screen_full(9));
    assert!(!app.is_screen_full(10));
}

#[test]
fn celebration_resets_after_101_ticks() {
    let mut app = running_app();
    app.phase = AppPhase::Celebration;
    app.celebration_tick = 0;
    for k in 1..=100u32 {
        app.tick(1000 + k, 40);
        assert_eq!(app.phase, AppPhase::Celebration);
        assert_eq!(app.celebration_tick, k);
    }
    app.tick(2000, 40);
    assert_eq!(app.phase, AppPhase::Running);
    assert_eq!(app.celebration_tick, 2000);
}

#[test]
fn confirm_ends_celebration_early() {
    let mut app = running_app();
    app.add_payment(profit_cli::psp::Payment {
        id: "x".to_string(),
        amount_cents: 300,
        currency: "USD".to_string(),
        status: "paid".to_string(),
        created_at: 0,
        provider: "Mock".to_string(),
    });
    app.phase = AppPhase::Celebration;
    app.celebration_tick = 37;
    assert_eq!(app.handle_key(InputKey::Enter), KeyOutcome::Continue);
    assert_eq!(app.phase, AppPhase::Running);
    assert!(app.pending_bills.is_empty());
    assert_eq!(app.total_cents, 300);
    app.phase = AppPhase::Celebration;
    assert_eq!(app.handle_key(InputKey::Char(' ')), KeyOutcome::Continue);
    assert_eq!(app.phase, AppPhase::Running);
}

#[test]
fn quit_keys() {
    let mut app = running_app();
    assert_eq!(app.handle_key(InputKey::Char('q')), KeyOutcome::Quit);
    assert_eq!(app.handle_key(InputKey::Esc), KeyOutcome::Quit);
    assert_eq!(app.handle_key(InputKey::Enter), KeyOutcome::Continue);
    assert_eq!(app.phase, AppPhase::Running);
}

#[test]
fn waiting_timer_follows_tick_count() {
    let mut app = running_app();
    app.tick(42, 40);
    assert_eq!(app.celebration_tick, 42);
}
