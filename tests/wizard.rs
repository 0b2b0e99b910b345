use profit_cli::app::{App, AppPhase, SetupStep};
use profit_cli::session::KeyOutcome;
use profit_cli::setup::{currency_choice, InputKey};

fn type_text(app: &mut App, text: &str) {
    for c in text.chars() {
        assert!(!app.handle_setup_input(InputKey::Char(c)));
    }
}

#[test]
fn fresh_session_starts_in_setup() {
    let app = App::new();
    assert_eq!(app.phase, AppPhase::Setup);
    assert_eq!(app.setup_step, SetupStep::Currency);
    assert_eq!(app.config.currency, "EUR");
    assert_eq!(app.config.currency_symbol, "€");
    let names: Vec<&str> = app.provider_configs.iter().map(|p| p.name.as_str()).collect();
    assert_eq!(names, vec!["Mock", "Mollie", "Adyen"]);
    assert!(app.provider_configs.iter().all(|p| !p.enabled));
}

#[test]
fn currency_cursor_and_choice() {
    let mut app = App::new();
    app.handle_setup_input(InputKey::Up);
    assert_eq!(app.setup_currency_idx, 0);
    for _ in 0..10 {
        app.handle_setup_input(InputKey::Down);
    }
    assert_eq!(app.setup_currency_idx, 6);
    app.handle_setup_input(InputKey::Up);
    app.handle_setup_input(InputKey::Up);
    app.handle_setup_input(InputKey::Enter);
    assert_eq!(app.config.currency, "CHF");
    assert_eq!(app.config.currency_symbol, "CHF");
    assert_eq!(app.setup_step, SetupStep::ProviderSelect);
    assert_eq!(currency_choice(2), ("GBP".to_string(), "£".to_string()));
}

#[test]
fn provider_select_needs_one_enabled() {
    let mut app = App::new();
    app.handle_setup_input(InputKey::Enter);
    app.handle_setup_input(InputKey::Enter);
    assert_eq!(app.setup_step, SetupStep::ProviderSelect);
}

#[test]
fn wizard_path_skips_providers_without_key() {
    // Mollie enabled and needs a key, Mock enabled and needs none, Adyen disabled
    let mut app = App::new();
    app.handle_setup_input(InputKey::Enter);
    app.handle_setup_input(InputKey::Char(' '));
    app.handle_setup_input(InputKey::Down);
    app.handle_setup_input(InputKey::Char(' '));
    app.handle_setup_input(InputKey::Enter);
    assert_eq!(app.setup_step, SetupStep::ProviderApiKey);
    assert_eq!(app.current_provider_idx, 1);
    type_text(&mut app, "live_kex");
    app.handle_setup_input(InputKey::Backspace);
    type_text(&mut app, "y");
    app.handle_setup_input(InputKey::Enter);
    assert_eq!(app.setup_step, SetupStep::Confirm);
    assert!(app.handle_setup_input(InputKey::Enter));
    assert_eq!(app.config.providers.len(), 2);
    assert_eq!(app.config.providers[0].provider, "Mock");
    assert_eq!(app.config.providers[0].api_key, "");
    assert_eq!(app.config.providers[1].provider, "Mollie");
    assert_eq!(app.config.providers[1].api_key, "live_key");
}

#[test]
fn adyen_asks_for_merchant_account() {
    let mut app = App::new();
    app.handle_setup_input(InputKey::Enter);
    app.handle_setup_input(InputKey::Down);
    app.handle_setup_input(InputKey::Down);
    app.handle_setup_input(InputKey::Char(' '));
    app.handle_setup_input(InputKey::Enter);
    assert_eq!(app.setup_step, SetupStep::ProviderApiKey);
    assert_eq!(app.current_provider_idx, 2);
    app.handle_setup_input(InputKey::Enter);
    assert_eq!(app.setup_step, SetupStep::ProviderApiKey);
    type_text(&mut app, "AQE");
    app.handle_setup_input(InputKey::Enter);
    assert_eq!(app.setup_step, SetupStep::ProviderMerchantAccount);
    type_text(&mut app, "Shop");
    app.handle_setup_input(InputKey::Esc);
    assert_eq!(app.setup_step, SetupStep::ProviderApiKey);
    assert_eq!(app.setup_input, "");
    type_text(&mut app, "AQE");
    app.handle_setup_input(InputKey::Enter);
    type_text(&mut app, "Shop");
    app.handle_setup_input(InputKey::Enter);
    assert_eq!(app.setup_step, SetupStep::Confirm);
    assert_eq!(app.handle_key(InputKey::Enter), KeyOutcome::SetupDone);
    assert_eq!(app.phase, AppPhase::Running);
    assert_eq!(app.config.providers.len(), 1);
    assert_eq!(app.config.providers[0].provider, "Adyen");
    assert_eq!(app.config.providers[0].api_key, "AQE|Shop");
}

#[test]
fn cancel_steps_back() {
    let mut app = App::new();
    app.handle_setup_input(InputKey::Enter);
    app.handle_setup_input(InputKey::Char(' '));
    app.handle_setup_input(InputKey::Enter);
    assert_eq!(app.setup_step, SetupStep::Confirm);
    app.handle_setup_input(InputKey::Esc);
    assert_eq!(app.setup_step, SetupStep::ProviderSelect);
    app.handle_setup_input(InputKey::Down);
    app.handle_setup_input(InputKey::Char(' '));
    app.handle_setup_input(InputKey::Enter);
    assert_eq!(app.setup_step, SetupStep::ProviderApiKey);
    type_text(&mut app, "abc");
    app.handle_setup_input(InputKey::Esc);
    assert_eq!(app.setup_step, SetupStep::ProviderSelect);
    assert_eq!(app.setup_input, "");
}

#[test]
fn quit_from_first_steps_only() {
    let mut app = App::new();
    assert_eq!(app.handle_key(InputKey::Char('q')), KeyOutcome::Quit);
    app.handle_key(InputKey::Enter);
    assert_eq!(app.handle_key(InputKey::Char('q')), KeyOutcome::Quit);
    app.handle_key(InputKey::Down);
    app.handle_key(InputKey::Char(' '));
    app.handle_key(InputKey::Enter);
    assert_eq!(app.setup_step, SetupStep::ProviderApiKey);
    assert_eq!(app.handle_key(InputKey::Char('q')), KeyOutcome::Continue);
    assert_eq!(app.setup_input, "q");
}

#[test]
fn missing_merchant_account_is_asked_for() {
    let mut app = App::new();
    app.handle_setup_input(InputKey::Enter);
    app.handle_setup_input(InputKey::Down);
    app.handle_setup_input(InputKey::Down);
    app.handle_setup_input(InputKey::Char(' '));
    app.handle_setup_input(InputKey::Enter);
    type_text(&mut app, "AQE");
    app.handle_setup_input(InputKey::Enter);
    assert_eq!(app.setup_step, SetupStep::ProviderMerchantAccount);
    app.handle_setup_input(InputKey::Esc);
    app.handle_setup_input(InputKey::Esc);
    assert_eq!(app.setup_step, SetupStep::ProviderSelect);
    app.handle_setup_input(InputKey::Enter);
    assert_eq!(app.setup_step, SetupStep::ProviderMerchantAccount);
    assert_eq!(app.current_provider_idx, 2);
    type_text(&mut app, "Shop");
    app.handle_setup_input(InputKey::Enter);
    assert_eq!(app.setup_step, SetupStep::Confirm);
    assert!(app.handle_setup_input(InputKey::Enter));
    assert_eq!(app.config.providers[0].api_key, "AQE|Shop");
}
