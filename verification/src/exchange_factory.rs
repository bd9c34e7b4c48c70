use vstd::prelude::*;
use crate::exchange::{ExchangeError, ExchangeType, TokenInfo};
use crate::principal::Principal;
use crate::table::{Table, entry_keys};

verus! {

/// The name of an exchange type, as its debug form prints it.
pub open spec fn exchange_type_name(t: ExchangeType) -> Seq<char> {
    match t {
        ExchangeType::ICPSwap => "ICPSwap"@,
        ExchangeType::KongSwap => "KongSwap"@,
        ExchangeType::Sonic => "Sonic"@,
        ExchangeType::ICDex => "ICDex"@,
    }
}

/// The name of an exchange type, as its debug form prints it.
pub fn exchange_type_name_of(t: ExchangeType) -> (r: String)
    ensures
        r@ == exchange_type_name(t),
{
    match t {
        ExchangeType::ICPSwap => "ICPSwap".to_string(),
        ExchangeType::KongSwap => "KongSwap".to_string(),
        ExchangeType::Sonic => "Sonic".to_string(),
        ExchangeType::ICDex => "ICDex".to_string(),
    }
}

/// The ICPSwap factory canister `xmiu5-jqaaa-aaaag-qbz7q-cai`.
pub open spec fn icpswap_factory_bytes() -> Seq<u8> {
    seq![0u8, 0u8, 0u8, 0u8, 0u8, 208u8, 14u8, 127u8, 1u8, 1u8]
}

/// How an exchange is reached: its type, the canister of its factory or
/// router, the timeout of a call and how many times a call is retried.
#[derive(Clone, Copy, Debug)]
pub struct ExchangeSettings {
    pub exchange_type: ExchangeType,
    pub canister_id: Principal,
    pub timeout_secs: u64,
    pub retry_count: u8,
}

/// A base token traded against a quote token on an exchange.
#[derive(Debug)]
pub struct ExchangePair {
    pub base_token: TokenInfo,
    pub quote_token: TokenInfo,
    pub exchange: ExchangeType,
}

/// The connector of an exchange: its settings, and the canister it calls.
#[derive(Clone, Copy, Debug)]
pub struct Connector {
    pub exchange_type: ExchangeType,
    pub factory_canister_id: Principal,
    pub settings: ExchangeSettings,
}

impl Connector {
    /// The connector of the exchange the settings describe.
    pub fn new(settings: ExchangeSettings) -> (r: Connector)
        ensures
            r.exchange_type == settings.exchange_type,
            r.factory_canister_id == settings.canister_id,
            r.settings == settings,
    {
        Connector { exchange_type: settings.exchange_type, factory_canister_id: settings.canister_id, settings }
    }

    /// The type of the connector's exchange.
    pub fn get_exchange_type(&self) -> (r: ExchangeType)
        ensures
            r == self.exchange_type,
    {
        self.exchange_type
    }

    /// An error reported by KongSwap, as an internal error.
    pub fn map_error(&self, msg: String) -> (r: ExchangeError)
        ensures
            r matches ExchangeError::InternalError(m) && m@ == "KongSwap error: "@ + msg@,
    {
        let mut m = "KongSwap error: ".to_string();
        m.append(msg.as_str());
        ExchangeError::InternalError(m)
    }
}

/// The connector of the exchange the settings describe.
pub open spec fn connector_of(s: ExchangeSettings) -> Connector {
    Connector { exchange_type: s.exchange_type, factory_canister_id: s.canister_id, settings: s }
}

/// Makes connectors from the settings of the exchanges it knows.
pub struct ExchangeFactory {
    pub exchange_configs: Table<ExchangeType, ExchangeSettings>,
}

/// The settings a factory starts with: ICPSwap through its factory
/// canister, KongSwap through the anonymous principal until it has one, both
/// with a 60-second timeout and 3 retries.
pub open spec fn default_settings(t: ExchangeType, s: ExchangeSettings) -> bool {
    &&& s.exchange_type == t
    &&& s.timeout_secs == 60
    &&& s.retry_count == 3
    &&& s.canister_id@ == (if t == ExchangeType::ICPSwap { icpswap_factory_bytes() } else { seq![4u8] })
}

impl ExchangeFactory {
    /// A factory with the default settings of ICPSwap and KongSwap.
    pub fn new() -> (r: Self)
        ensures
            r.exchange_configs@.dom() == set![ExchangeType::ICPSwap, ExchangeType::KongSwap],
            default_settings(ExchangeType::ICPSwap, r.exchange_configs@[ExchangeType::ICPSwap]),
            default_settings(ExchangeType::KongSwap, r.exchange_configs@[ExchangeType::KongSwap]),
    {
        let mut factory = ExchangeFactory { exchange_configs: Table::new() };
        factory.add_default_configs();
        proof {
            assert(factory.exchange_configs@.dom() =~= set![ExchangeType::ICPSwap, ExchangeType::KongSwap]);
        }
        factory
    }

    fn add_default_configs(&mut self)
        ensures
            final(self).exchange_configs@ == old(self).exchange_configs@.insert(
                ExchangeType::ICPSwap,
                final(self).exchange_configs@[ExchangeType::ICPSwap],
            ).insert(ExchangeType::KongSwap, final(self).exchange_configs@[ExchangeType::KongSwap]),
            default_settings(ExchangeType::ICPSwap, final(self).exchange_configs@[ExchangeType::ICPSwap]),
            default_settings(ExchangeType::KongSwap, final(self).exchange_configs@[ExchangeType::KongSwap]),
    {
        let bytes: Vec<u8> = vec![0u8, 0u8, 0u8, 0u8, 0u8, 208u8, 14u8, 127u8, 1u8, 1u8];
        proof {
            assert(bytes@ =~= icpswap_factory_bytes());
        }
        let icpswap = ExchangeSettings {
            exchange_type: ExchangeType::ICPSwap,
            canister_id: Principal::from_slice(bytes.as_slice()),
            timeout_secs: 60,
            retry_count: 3,
        };
        self.exchange_configs.insert(ExchangeType::ICPSwap, icpswap);
        let kongswap = ExchangeSettings {
            exchange_type: ExchangeType::KongSwap,
            canister_id: Principal::anonymous(),
            timeout_secs: 60,
            retry_count: 3,
        };
        self.exchange_configs.insert(ExchangeType::KongSwap, kongswap);
        proof {
            assert(self.exchange_configs@ =~= old(self).exchange_configs@.insert(ExchangeType::ICPSwap, icpswap).insert(
                ExchangeType::KongSwap,
                kongswap,
            ));
        }
    }

    /// Stores the settings of their exchange.
    pub fn update_config(&mut self, config: ExchangeSettings)
        ensures
            final(self).exchange_configs@ == old(self).exchange_configs@.insert(config.exchange_type, config),
    {
        self.exchange_configs.insert(config.exchange_type, config);
    }

    /// The settings of an exchange, or an error for one the factory does
    /// not know.
    pub fn get_config(&self, exchange_type: ExchangeType) -> (r: Result<ExchangeSettings, ExchangeError>)
        ensures
            self.exchange_configs@.contains_key(exchange_type) ==> r == Ok::<ExchangeSettings, ExchangeError>(
                self.exchange_configs@[exchange_type],
            ),
            !self.exchange_configs@.contains_key(exchange_type) ==> (r matches Err(ExchangeError::InvalidParameters(m))
                && m@ == "Unsupported exchange type: "@ + exchange_type_name(exchange_type)),
    {
        match self.exchange_configs.get(&exchange_type) {
            Some(c) => Ok(*c),
            None => {
                let mut m = "Unsupported exchange type: ".to_string();
                m.append(exchange_type_name_of(exchange_type).as_str());
                Err(ExchangeError::InvalidParameters(m))
            },
        }
    }

    /// A connector for ICPSwap.
    pub fn create_icpswap(&self) -> (r: Result<Connector, ExchangeError>)
        ensures
            self.gives_connector(ExchangeType::ICPSwap, r),
    {
        let config = self.get_config(ExchangeType::ICPSwap)?;
        Ok(Connector::new(config))
    }

    /// A connector for KongSwap.
    pub fn create_kongswap(&self) -> (r: Result<Connector, ExchangeError>)
        ensures
            self.gives_connector(ExchangeType::KongSwap, r),
    {
        let config = self.get_config(ExchangeType::KongSwap)?;
        Ok(Connector::new(config))
    }

    /// `r` is the connector made from the settings of exchange `t`, or the
    /// error for an exchange without settings.
    pub open spec fn gives_connector(self, t: ExchangeType, r: Result<Connector, ExchangeError>) -> bool {
        if self.exchange_configs@.contains_key(t) {
            r == Ok::<Connector, ExchangeError>(connector_of(self.exchange_configs@[t]))
        } else {
            r matches Err(ExchangeError::InvalidParameters(m)) && m@ == "Unsupported exchange type: "@
                + exchange_type_name(t)
        }
    }

    /// A connector for an exchange: ICPSwap and KongSwap have one, the
    /// others are not implemented.
    pub fn create_exchange(&self, exchange_type: ExchangeType) -> (r: Result<Connector, ExchangeError>)
        ensures
            exchange_type == ExchangeType::ICPSwap || exchange_type == ExchangeType::KongSwap ==> self.gives_connector(
                exchange_type,
                r,
            ),
            !(exchange_type == ExchangeType::ICPSwap || exchange_type == ExchangeType::KongSwap) ==> (r matches Err(
                ExchangeError::NotImplemented,
            )),
    {
        match exchange_type {
            ExchangeType::ICPSwap => self.create_icpswap(),
            ExchangeType::KongSwap => self.create_kongswap(),
            _ => Err(ExchangeError::NotImplemented),
        }
    }

    /// A connector for the exchange of a pair.
    pub fn create_exchange_for_pair(&self, pair: &ExchangePair) -> (r: Result<Connector, ExchangeError>)
        ensures
            pair.exchange == ExchangeType::ICPSwap || pair.exchange == ExchangeType::KongSwap ==> self.gives_connector(
                pair.exchange,
                r,
            ),
            !(pair.exchange == ExchangeType::ICPSwap || pair.exchange == ExchangeType::KongSwap) ==> (r matches Err(
                ExchangeError::NotImplemented,
            )),
    {
        self.create_exchange(pair.exchange)
    }

    /// The exchanges the factory has settings for, in the order they were
    /// added.
    pub fn get_supported_exchanges(&self) -> (r: Vec<ExchangeType>)
        ensures
            r@ == entry_keys(self.exchange_configs.entries()),
    {
        let n = self.exchange_configs.len();
        let mut out: Vec<ExchangeType> = Vec::new();
        let mut i: usize = 0;
        while i < n
            invariant
                n == self.exchange_configs.entries().len(),
                i <= n,
                out@ == entry_keys(self.exchange_configs.entries()).take(i as int),
            decreases n - i,
        {
            let (t, _) = self.exchange_configs.entry_at(i);
            out.push(*t);
            proof {
                assert(out@ =~= entry_keys(self.exchange_configs.entries()).take(i + 1));
            }
            i = i + 1;
        }
        proof {
            assert(entry_keys(self.exchange_configs.entries()).take(n as int) =~= entry_keys(
                self.exchange_configs.entries(),
            ));
        }
        out
    }
}

} // verus!
