//! The persisted configuration: the currency and the providers to poll.
use crate::psp::PspConfig;
use vstd::prelude::*;

verus! {

#[derive(Debug, Clone)]
pub struct AppConfig {
    pub currency: String,
    pub currency_symbol: String,
    pub providers: Vec<PspConfig>,
}

impl Default for AppConfig {
    /// Euros, and no provider yet.
    fn default() -> (r: Self)
        ensures
            r.currency@ == seq!['E', 'U', 'R'],
            r.currency_symbol@ == seq!['€'],
            r.providers@.len() == 0,
    {
        let currency = String::from_str("EUR");
        let currency_symbol = String::from_str("€");
        proof {
            reveal_strlit("EUR");
            reveal_strlit("€");
            assert(currency@ =~= seq!['E', 'U', 'R']);
            assert(currency_symbol@ =~= seq!['€']);
        }
        AppConfig { currency, currency_symbol, providers: Vec::new() }
    }
}

} // verus!
