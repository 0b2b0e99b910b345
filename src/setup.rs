//! The setup wizard: currency, providers, then the credentials of each
//! enabled provider that needs them, in list order.
use crate::app::{App, AppPhase, ProviderSetupState, SetupStep};
use crate::clock::now_millis;
use crate::config::AppConfig;
use crate::psp::{Payment, PspConfig};
use crate::text::{pop_char, push_char, same_text};
use vstd::prelude::*;

verus! {

/// Number of currencies offered.
pub const CURRENCY_COUNT: usize = 7;

/// Number of providers offered.
pub const PROVIDER_COUNT: usize = 3;

/// A key press, as the wizard and the session see it.
#[derive(Debug, Clone, Copy, PartialEq, Eq, Structural)]
pub enum InputKey {
    Up,
    Down,
    Enter,
    Esc,
    Backspace,
    Char(char),
    Other,
}

/// Currency code of the `i`th currency offered.
pub open spec fn currency_code(i: int) -> Seq<char> {
    if i == 0 {
        seq!['E', 'U', 'R']
    } else if i == 1 {
        seq!['U', 'S', 'D']
    } else if i == 2 {
        seq!['G', 'B', 'P']
    } else if i == 3 {
        seq!['J', 'P', 'Y']
    } else if i == 4 {
        seq!['C', 'H', 'F']
    } else if i == 5 {
        seq!['C', 'A', 'D']
    } else {
        seq!['A', 'U', 'D']
    }
}

/// Symbol of the `i`th currency offered.
pub open spec fn currency_symbol(i: int) -> Seq<char> {
    if i == 0 {
        seq!['€']
    } else if i == 1 {
        seq!['$']
    } else if i == 2 {
        seq!['£']
    } else if i == 3 {
        seq!['¥']
    } else if i == 4 {
        seq!['C', 'H', 'F']
    } else if i == 5 {
        seq!['C', 'A', '$']
    } else {
        seq!['A', '$']
    }
}

pub open spec fn mock_name() -> Seq<char> {
    seq!['M', 'o', 'c', 'k']
}

pub open spec fn mollie_name() -> Seq<char> {
    seq!['M', 'o', 'l', 'l', 'i', 'e']
}

pub open spec fn adyen_name() -> Seq<char> {
    seq!['A', 'd', 'y', 'e', 'n']
}

/// Name of the `i`th provider offered.
pub open spec fn provider_name(i: int) -> Seq<char> {
    if i == 0 {
        mock_name()
    } else if i == 1 {
        mollie_name()
    } else {
        adyen_name()
    }
}

/// The provider is enabled, is not the test provider, and lacks a
/// credential: its key, or, for the provider that needs one, its merchant
/// account.
pub open spec fn needs_credential(p: ProviderSetupState) -> bool {
    &&& p.enabled
    &&& p.name@ != mock_name()
    &&& (p.api_key@.len() == 0 || (p.name@ == adyen_name() && p.merchant_account@.len() == 0))
}

/// First provider from `start` on that still lacks a credential.
pub open spec fn next_needing(cfgs: Seq<ProviderSetupState>, start: int) -> Option<int>
    decreases cfgs.len() - start,
{
    if start < 0 || start >= cfgs.len() {
        None
    } else if needs_credential(cfgs[start]) {
        Some(start)
    } else {
        next_needing(cfgs, start + 1)
    }
}

/// The credential text stored for a provider: the key, joined by `|` to the
/// merchant account where the provider needs one.
pub open spec fn credential_text(p: ProviderSetupState) -> Seq<char> {
    if p.name@ == adyen_name() {
        p.api_key@ + seq!['|'] + p.merchant_account@
    } else {
        p.api_key@
    }
}

/// The finished credentials of the enabled providers, in list order.
pub open spec fn final_configs(cfgs: Seq<ProviderSetupState>) -> Seq<(Seq<char>, Seq<char>)>
    decreases cfgs.len(),
{
    if cfgs.len() == 0 {
        seq![]
    } else {
        final_configs(cfgs.drop_last()) + if cfgs.last().enabled {
            seq![(cfgs.last().name@, credential_text(cfgs.last()))]
        } else {
            seq![]
        }
    }
}

/// The provider list of a fresh wizard: all offered providers, disabled,
/// without credentials.
pub open spec fn fresh_providers(cfgs: Seq<ProviderSetupState>) -> bool {
    &&& cfgs.len() == PROVIDER_COUNT
    &&& forall|i: int|
        0 <= i < PROVIDER_COUNT ==> {
            &&& (#[trigger] cfgs[i]).name@ == provider_name(i)
            &&& !cfgs[i].enabled
            &&& cfgs[i].api_key@.len() == 0
            &&& cfgs[i].merchant_account@.len() == 0
        }
}

/// `post` is `pre` after the credential-resolution rule ran from `start`:
/// the wizard asks the next provider that lacks a credential for its key,
/// or for its merchant account where it has a key, or moves to
/// confirmation.
pub open spec fn credentials_resolved(pre: App, post: App, start: int) -> bool {
    match next_needing(pre.provider_configs@, start) {
        Some(i) => {
            &&& post.setup_input@.len() == 0
            &&& post == (App {
                current_provider_idx: i as usize,
                setup_input: post.setup_input,
                setup_step: if pre.provider_configs@[i].api_key@.len() == 0 {
                    SetupStep::ProviderApiKey
                } else {
                    SetupStep::ProviderMerchantAccount
                },
                ..pre
            })
        },
        None => post == (App { setup_step: SetupStep::Confirm, ..pre }),
    }
}

/// `post` is `pre` with the text input edited by `key`.
pub open spec fn input_edited(pre: App, post: App, key: InputKey) -> bool {
    &&& post == (App { setup_input: post.setup_input, ..pre })
    &&& match key {
        InputKey::Char(c) => post.setup_input@ == pre.setup_input@.push(c),
        InputKey::Backspace => post.setup_input@ == if pre.setup_input@.len() == 0 {
            pre.setup_input@
        } else {
            pre.setup_input@.drop_last()
        },
        _ => post.setup_input@ == pre.setup_input@,
    }
}

/// `cfgs` with the key of provider `i` set to `key`.
pub open spec fn key_stored(
    pre: Seq<ProviderSetupState>,
    post: Seq<ProviderSetupState>,
    i: int,
    key: Seq<char>,
) -> bool {
    &&& post.len() == pre.len()
    &&& post[i].api_key@ == key
    &&& post == pre.update(i, ProviderSetupState { api_key: post[i].api_key, ..pre[i] })
}

/// `cfgs` with the merchant account of provider `i` set to `account`.
pub open spec fn account_stored(
    pre: Seq<ProviderSetupState>,
    post: Seq<ProviderSetupState>,
    i: int,
    account: Seq<char>,
) -> bool {
    &&& post.len() == pre.len()
    &&& post[i].merchant_account@ == account
    &&& post == pre.update(
        i,
        ProviderSetupState { merchant_account: post[i].merchant_account, ..pre[i] },
    )
}

/// What one key press does to the wizard; `done` tells that the wizard
/// finished.
pub open spec fn setup_handled(pre: App, post: App, key: InputKey, done: bool) -> bool {
    let cfgs = pre.provider_configs@;
    let cur = pre.current_provider_idx as int;
    match pre.setup_step {
        SetupStep::Currency => !done && match key {
            InputKey::Up => post == (App {
                setup_currency_idx: if pre.setup_currency_idx > 0 {
                    (pre.setup_currency_idx - 1) as usize
                } else {
                    pre.setup_currency_idx
                },
                ..pre
            }),
            InputKey::Down => post == (App {
                setup_currency_idx: if pre.setup_currency_idx + 1 < CURRENCY_COUNT {
                    (pre.setup_currency_idx + 1) as usize
                } else {
                    pre.setup_currency_idx
                },
                ..pre
            }),
            InputKey::Enter => {
                &&& post.config.currency@ == currency_code(pre.setup_currency_idx as int)
                &&& post.config.currency_symbol@ == currency_symbol(pre.setup_currency_idx as int)
                &&& post == (App {
                    config: AppConfig {
                        currency: post.config.currency,
                        currency_symbol: post.config.currency_symbol,
                        ..pre.config
                    },
                    setup_step: SetupStep::ProviderSelect,
                    setup_cursor: 0,
                    ..pre
                })
            },
            _ => post == pre,
        },
        SetupStep::ProviderSelect => !done && match key {
            InputKey::Up => post == (App {
                setup_cursor: if pre.setup_cursor > 0 {
                    (pre.setup_cursor - 1) as usize
                } else {
                    pre.setup_cursor
                },
                ..pre
            }),
            InputKey::Down => post == (App {
                setup_cursor: if pre.setup_cursor + 1 < cfgs.len() {
                    (pre.setup_cursor + 1) as usize
                } else {
                    pre.setup_cursor
                },
                ..pre
            }),
            InputKey::Char(' ') => post == (App {
                provider_configs: post.provider_configs,
                ..pre
            }) && post.provider_configs@ == cfgs.update(
                pre.setup_cursor as int,
                ProviderSetupState {
                    enabled: !cfgs[pre.setup_cursor as int].enabled,
                    ..cfgs[pre.setup_cursor as int]
                },
            ),
            InputKey::Enter => if exists|i: int| 0 <= i < cfgs.len() && (#[trigger] cfgs[i]).enabled {
                credentials_resolved(pre, post, 0)
            } else {
                post == pre
            },
            _ => post == pre,
        },
        SetupStep::ProviderApiKey => !done && match key {
            InputKey::Enter => if pre.setup_input@.len() == 0 {
                post == pre
            } else {
                exists|mid: App|
                    {
                        &&& key_stored(cfgs, mid.provider_configs@, cur, pre.setup_input@)
                        &&& mid.setup_input@.len() == 0
                        &&& mid == (App {
                            provider_configs: mid.provider_configs,
                            setup_input: mid.setup_input,
                            ..pre
                        })
                        &&& if cfgs[cur].name@ == adyen_name() {
                            post == (App {
                                setup_step: SetupStep::ProviderMerchantAccount,
                                ..mid
                            })
                        } else {
                            credentials_resolved(mid, post, cur + 1)
                        }
                    }
            },
            InputKey::Esc => post.setup_input@.len() == 0 && post == (App {
                setup_input: post.setup_input,
                setup_step: SetupStep::ProviderSelect,
                ..pre
            }),
            _ => input_edited(pre, post, key),
        },
        SetupStep::ProviderMerchantAccount => !done && match key {
            InputKey::Enter => if pre.setup_input@.len() == 0 {
                post == pre
            } else {
                exists|mid: App|
                    {
                        &&& account_stored(cfgs, mid.provider_configs@, cur, pre.setup_input@)
                        &&& mid.setup_input@.len() == 0
                        &&& mid == (App {
                            provider_configs: mid.provider_configs,
                            setup_input: mid.setup_input,
                            ..pre
                        })
                        &&& credentials_resolved(mid, post, cur + 1)
                    }
            },
            InputKey::Esc => post.setup_input@.len() == 0 && post == (App {
                setup_input: post.setup_input,
                setup_step: SetupStep::ProviderApiKey,
                ..pre
            }),
            _ => input_edited(pre, post, key),
        },
        SetupStep::Confirm => match key {
            InputKey::Enter => {
                &&& done
                &&& post.config.providers@.map_values(|c: PspConfig| c.view()) == final_configs(cfgs)
                &&& post == (App {
                    config: AppConfig { providers: post.config.providers, ..pre.config },
                    ..pre
                })
            },
            InputKey::Esc => !done && post == (App { setup_step: SetupStep::ProviderSelect, ..pre }),
            _ => !done && post == pre,
        },
    }
}

/// The code and symbol of the `i`th currency offered.
pub fn currency_choice(i: usize) -> (r: (String, String))
    requires
        i < CURRENCY_COUNT,
    ensures
        r.0@ == currency_code(i as int),
        r.1@ == currency_symbol(i as int),
{
    let (code, symbol) = if i == 0 {
        ("EUR", "€")
    } else if i == 1 {
        ("USD", "$")
    } else if i == 2 {
        ("GBP", "£")
    } else if i == 3 {
        ("JPY", "¥")
    } else if i == 4 {
        ("CHF", "CHF")
    } else if i == 5 {
        ("CAD", "CA$")
    } else {
        ("AUD", "A$")
    };
    proof {
        reveal_strlit("EUR");
        reveal_strlit("€");
        reveal_strlit("USD");
        reveal_strlit("$");
        reveal_strlit("GBP");
        reveal_strlit("£");
        reveal_strlit("JPY");
        reveal_strlit("¥");
        reveal_strlit("CHF");
        reveal_strlit("CAD");
        reveal_strlit("CA$");
        reveal_strlit("AUD");
        reveal_strlit("A$");
        assert(code@ =~= currency_code(i as int));
        assert(symbol@ =~= currency_symbol(i as int));
    }
    (String::from_str(code), String::from_str(symbol))
}

/// The name of the `i`th provider offered.
pub fn provider_choice(i: usize) -> (r: String)
    requires
        i < PROVIDER_COUNT,
    ensures
        r@ == provider_name(i as int),
{
    let name = if i == 0 {
        "Mock"
    } else if i == 1 {
        "Mollie"
    } else {
        "Adyen"
    };
    proof {
        reveal_strlit("Mock");
        reveal_strlit("Mollie");
        reveal_strlit("Adyen");
        assert(name@ =~= provider_name(i as int));
    }
    String::from_str(name)
}

/// Whether the name is that of the test provider.
pub fn is_mock(name: &String) -> (r: bool)
    ensures
        r == (name@ == mock_name()),
{
    proof {
        reveal_strlit("Mock");
        assert("Mock"@ =~= mock_name());
    }
    same_text(name.as_str(), "Mock")
}

/// Whether the name is that of the provider that needs a merchant account.
pub fn is_adyen(name: &String) -> (r: bool)
    ensures
        r == (name@ == adyen_name()),
{
    proof {
        reveal_strlit("Adyen");
        assert("Adyen"@ =~= adyen_name());
    }
    same_text(name.as_str(), "Adyen")
}

fn draft_provider(i: usize) -> (r: ProviderSetupState)
    requires
        i < PROVIDER_COUNT,
    ensures
        r.name@ == provider_name(i as int),
        !r.enabled,
        r.api_key@.len() == 0,
        r.merchant_account@.len() == 0,
{
    ProviderSetupState {
        name: provider_choice(i),
        enabled: false,
        api_key: String::new(),
        merchant_account: String::new(),
    }
}

impl App {
    /// The wizard's cursors stay within their lists, and the provider list
    /// is the one offered.
    pub open spec fn setup_wf(&self) -> bool {
        &&& self.provider_configs@.len() == PROVIDER_COUNT
        &&& forall|i: int|
            0 <= i < PROVIDER_COUNT ==> (#[trigger] self.provider_configs@[i]).name@
                == provider_name(i)
        &&& self.setup_cursor < PROVIDER_COUNT
        &&& self.setup_currency_idx < CURRENCY_COUNT
        &&& self.current_provider_idx < PROVIDER_COUNT
    }

    pub open spec fn wf(&self) -> bool {
        self.bills_wf() && self.setup_wf() && self.ledger_wf()
    }

    /// A session before any setup, payment or tick, with the given
    /// configuration; its start time is left open.
    pub open spec fn fresh_with(&self, config: AppConfig) -> bool {
        &&& self.config == config
        &&& self.bills@.len() == 0
        &&& self.total_cents == 0
        &&& self.session_payments@.len() == 0
        &&& self.seen_ids@.len() == 0
        &&& self.celebration_tick == 0
        &&& self.setup_cursor == 0
        &&& self.setup_currency_idx == 0
        &&& self.setup_input@.len() == 0
        &&& self.setup_step == SetupStep::Currency
        &&& fresh_providers(self.provider_configs@)
        &&& self.current_provider_idx == 0
        &&& self.error_message.is_none()
        &&& self.pending_bills@.len() == 0
    }

    /// A new session in the setup phase, with euros and no provider yet.
    pub fn new() -> (app: App)
        ensures
            app.wf(),
            app.phase == AppPhase::Setup,
            app.fresh_with(app.config),
            app.config.currency@ == currency_code(0),
            app.config.currency_symbol@ == currency_symbol(0),
            app.config.providers@.len() == 0,
    {
        let providers = vec![draft_provider(0), draft_provider(1), draft_provider(2)];
        let app = App {
            config: AppConfig::default(),
            phase: AppPhase::Setup,
            bills: Vec::new(),
            total_cents: 0,
            session_payments: Vec::new(),
            start_time: now_millis(),
            seen_ids: Vec::new(),
            celebration_tick: 0,
            setup_cursor: 0,
            setup_currency_idx: 0,
            setup_input: String::new(),
            setup_step: SetupStep::Currency,
            provider_configs: providers,
            current_provider_idx: 0,
            error_message: None,
            pending_bills: Vec::new(),
        };
        assert(app.seen_view() =~= app.session_payments@.map_values(|p: Payment| p.id@));
        app
    }

    /// A new session with a stored configuration: it skips setup and runs
    /// at once when the configuration names at least one provider.
    pub fn from_config(config: AppConfig) -> (app: App)
        ensures
            app.wf(),
            app.fresh_with(config),
            app.phase == if config.providers@.len() > 0 {
                AppPhase::Running
            } else {
                AppPhase::Setup
            },
    {
        let mut app = App::new();
        let skip = config.providers.len() > 0;
        app.config = config;
        if skip {
            app.phase = AppPhase::Running;
            app.start_time = now_millis();
        }
        app
    }

    /// Applies the credential-resolution rule from provider `start` on.
    fn resolve_credentials(&mut self, start: usize)
        requires
            old(self).setup_wf(),
        ensures
            credentials_resolved(*old(self), *final(self), start as int),
            final(self).setup_wf(),
    {
        let mut i: usize = start;
        while i < self.provider_configs.len()
            invariant
                start <= i,
                *self == *old(self),
                self.setup_wf(),
                next_needing(self.provider_configs@, start as int) == next_needing(
                    self.provider_configs@,
                    i as int,
                ),
            decreases self.provider_configs@.len() - i,
        {
            let p = &self.provider_configs[i];
            let no_key = p.api_key.unicode_len() == 0;
            let no_account = is_adyen(&p.name) && p.merchant_account.unicode_len() == 0;
            if p.enabled && !is_mock(&p.name) && (no_key || no_account) {
                self.current_provider_idx = i;
                self.setup_input = String::new();
                self.setup_step = if no_key {
                    SetupStep::ProviderApiKey
                } else {
                    SetupStep::ProviderMerchantAccount
                };
                return;
            }
            i = i + 1;
        }
        self.setup_step = SetupStep::Confirm;
    }

    /// Moves on to the next provider after the current one that needs a
    /// key, or to confirmation.
    pub fn advance_to_next_provider_or_confirm(&mut self)
        requires
            old(self).setup_wf(),
        ensures
            credentials_resolved(*old(self), *final(self), old(self).current_provider_idx + 1),
            final(self).setup_wf(),
    {
        let start = self.current_provider_idx + 1;
        self.resolve_credentials(start);
    }

    /// Builds the finished credentials of the enabled providers into the
    /// configuration.
    fn finish_setup(&mut self)
        requires
            old(self).setup_wf(),
        ensures
            final(self).config.providers@.map_values(|c: PspConfig| c.view()) == final_configs(
                old(self).provider_configs@,
            ),
            *final(self) == (App {
                config: AppConfig { providers: final(self).config.providers, ..old(self).config },
                ..*old(self)
            }),
    {
        let ghost cfgs = self.provider_configs@;
        let mut out: Vec<PspConfig> = Vec::new();
        let mut i: usize = 0;
        while i < self.provider_configs.len()
            invariant
                0 <= i <= cfgs.len(),
                cfgs == self.provider_configs@,
                out@.map_values(|c: PspConfig| c.view()) == final_configs(cfgs.take(i as int)),
            decreases cfgs.len() - i,
        {
            let p = &self.provider_configs[i];
            assert(cfgs.take(i + 1).drop_last() =~= cfgs.take(i as int));
            if p.enabled {
                let mut key = p.api_key.clone();
                if is_adyen(&p.name) {
                    key.append("|");
                    key.append(p.merchant_account.as_str());
                    proof {
                        reveal_strlit("|");
                        assert(key@ =~= credential_text(*p));
                    }
                }
                out.push(PspConfig { provider: p.name.clone(), api_key: key });
                assert(out@.map_values(|c: PspConfig| c.view()) =~= final_configs(
                    cfgs.take(i + 1),
                ));
            } else {
                assert(out@.map_values(|c: PspConfig| c.view()) =~= final_configs(
                    cfgs.take(i + 1),
                ));
            }
            i = i + 1;
        }
        assert(cfgs.take(i as int) =~= cfgs);
        self.config.providers = out;
    }
    /// Edits the text input with a character or a backspace.
    fn edit_input(&mut self, key: InputKey)
        ensures
            input_edited(*old(self), *final(self), key),
    {
        match key {
            InputKey::Char(c) => {
                push_char(&mut self.setup_input, c);
            },
            InputKey::Backspace => {
                pop_char(&mut self.setup_input);
            },
            _ => {},
        }
    }

    /// Routes one key press to the current wizard step. Returns whether the
    /// wizard finished, in which case the configuration holds the finished
    /// credentials of every enabled provider.
    pub fn handle_setup_input(&mut self, key: InputKey) -> (done: bool)
        requires
            old(self).setup_wf(),
        ensures
            setup_handled(*old(self), *final(self), key, done),
            final(self).setup_wf(),
    {
        match self.setup_step {
            SetupStep::Currency => {
                match key {
                    InputKey::Up => {
                        if self.setup_currency_idx > 0 {
                            self.setup_currency_idx = self.setup_currency_idx - 1;
                        }
                    },
                    InputKey::Down => {
                        if self.setup_currency_idx + 1 < CURRENCY_COUNT {
                            self.setup_currency_idx = self.setup_currency_idx + 1;
                        }
                    },
                    InputKey::Enter => {
                        let (code, symbol) = currency_choice(self.setup_currency_idx);
                        self.config.currency = code;
                        self.config.currency_symbol = symbol;
                        self.setup_step = SetupStep::ProviderSelect;
                        self.setup_cursor = 0;
                    },
                    _ => {},
                }
                false
            },
            SetupStep::ProviderSelect => {
                match key {
                    InputKey::Up => {
                        if self.setup_cursor > 0 {
                            self.setup_cursor = self.setup_cursor - 1;
                        }
                    },
                    InputKey::Down => {
                        if self.setup_cursor + 1 < self.provider_configs.len() {
                            self.setup_cursor = self.setup_cursor + 1;
                        }
                    },
                    InputKey::Char(' ') => {
                        let c = self.setup_cursor;
                        let flipped = !self.provider_configs[c].enabled;
                        self.provider_configs[c].enabled = flipped;
                    },
                    InputKey::Enter => {
                        let mut any = false;
                        let mut i: usize = 0;
                        while i < self.provider_configs.len()
                            invariant
                                0 <= i <= self.provider_configs@.len(),
                                any == exists|j: int|
                                    0 <= j < i && (#[trigger] self.provider_configs@[j]).enabled,
                            decreases self.provider_configs@.len() - i,
                        {
                            if self.provider_configs[i].enabled {
                                any = true;
                            }
                            i = i + 1;
                        }
                        if any {
                            self.resolve_credentials(0);
                        }
                    },
                    _ => {},
                }
                false
            },
            SetupStep::ProviderApiKey => {
                match key {
                    InputKey::Enter => {
                        if self.setup_input.unicode_len() > 0 {
                            let cur = self.current_provider_idx;
                            let entered = self.setup_input.clone();
                            self.provider_configs[cur].api_key = entered;
                            self.setup_input = String::new();
                            if is_adyen(&self.provider_configs[cur].name) {
                                self.setup_step = SetupStep::ProviderMerchantAccount;
                            } else {
                                self.advance_to_next_provider_or_confirm();
                            }
                        }
                    },
                    InputKey::Esc => {
                        self.setup_input = String::new();
                        self.setup_step = SetupStep::ProviderSelect;
                    },
                    _ => {
                        self.edit_input(key);
                    },
                }
                false
            },
            SetupStep::ProviderMerchantAccount => {
                match key {
                    InputKey::Enter => {
                        if self.setup_input.unicode_len() > 0 {
                            let cur = self.current_provider_idx;
                            let entered = self.setup_input.clone();
                            self.provider_configs[cur].merchant_account = entered;
                            self.setup_input = String::new();
                            self.advance_to_next_provider_or_confirm();
                        }
                    },
                    InputKey::Esc => {
                        self.setup_input = String::new();
                        self.setup_step = SetupStep::ProviderApiKey;
                    },
                    _ => {
                        self.edit_input(key);
                    },
                }
                false
            },
            SetupStep::Confirm => {
                match key {
                    InputKey::Enter => {
                        self.finish_setup();
                        true
                    },
                    InputKey::Esc => {
                        self.setup_step = SetupStep::ProviderSelect;
                        false
                    },
                    _ => false,
                }
            },
        }
    }
}

} // verus!
