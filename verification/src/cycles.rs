use vstd::prelude::*;
use crate::principal::Principal;

verus! {

/// The default warning threshold: 500 billion cycles.
pub const DEFAULT_WARNING_THRESHOLD: u64 = 500_000_000_000;

/// The default critical threshold: 100 billion cycles.
pub const DEFAULT_CRITICAL_THRESHOLD: u64 = 100_000_000_000;

/// How a canister watches its cycles: the two thresholds, how many cycles
/// to ask for, and which canister to ask.
#[derive(Clone, Copy, Debug)]
pub struct CyclesConfig {
    pub warning_threshold: u64,
    pub critical_threshold: u64,
    pub refill_amount: u64,
    pub refill_source: Option<Principal>,
}

/// The cycles balance measured against the thresholds.
#[derive(Clone, Copy, Debug, PartialEq, Eq, Structural)]
pub struct CyclesSummary {
    pub balance: u64,
    pub warning_threshold: u64,
    pub critical_threshold: u64,
    pub is_below_warning: bool,
    pub is_below_critical: bool,
}

/// The thresholds in force and the configuration, once one is given.
pub struct CyclesManager {
    pub warning_threshold: u64,
    pub critical_threshold: u64,
    pub config: Option<CyclesConfig>,
}

impl CyclesManager {
    /// The default thresholds and no configuration.
    pub fn new() -> (r: Self)
        ensures
            r.warning_threshold == DEFAULT_WARNING_THRESHOLD,
            r.critical_threshold == DEFAULT_CRITICAL_THRESHOLD,
            r.config is None,
    {
        CyclesManager {
            warning_threshold: DEFAULT_WARNING_THRESHOLD,
            critical_threshold: DEFAULT_CRITICAL_THRESHOLD,
            config: None,
        }
    }

    /// Takes the thresholds of `config` and keeps the configuration.
    pub fn init(&mut self, config: CyclesConfig)
        ensures
            final(self).warning_threshold == config.warning_threshold,
            final(self).critical_threshold == config.critical_threshold,
            final(self).config == Some(config),
    {
        self.warning_threshold_set(config.warning_threshold);
        self.critical_threshold_set(config.critical_threshold);
        self.config = Some(config);
    }

    /// Sets the warning threshold.
    pub fn warning_threshold_set(&mut self, threshold: u64)
        ensures
            final(self).warning_threshold == threshold,
            final(self).critical_threshold == old(self).critical_threshold,
            final(self).config == old(self).config,
    {
        self.warning_threshold = threshold;
    }

    /// Sets the critical threshold.
    pub fn critical_threshold_set(&mut self, threshold: u64)
        ensures
            final(self).critical_threshold == threshold,
            final(self).warning_threshold == old(self).warning_threshold,
            final(self).config == old(self).config,
    {
        self.critical_threshold = threshold;
    }

    /// Whether `balance` is below the warning threshold.
    pub fn is_below_warning_threshold(&self, balance: u64) -> (r: bool)
        ensures
            r == (balance < self.warning_threshold),
    {
        balance < self.warning_threshold
    }

    /// Whether `balance` is below the critical threshold.
    pub fn is_below_critical_threshold(&self, balance: u64) -> (r: bool)
        ensures
            r == (balance < self.critical_threshold),
    {
        balance < self.critical_threshold
    }

    /// The refill to ask for: the amount to request from the configured
    /// source, or why none can be asked for.
    pub fn request_cycles_refill(&self) -> (r: Result<(Principal, u64), String>)
        ensures
            self.config is None ==> (r matches Err(e) && e@ == "Cycles config not initialized"@),
            self.config matches Some(c) ==> match c.refill_source {
                Some(source) => r == Ok::<(Principal, u64), String>((source, c.refill_amount)),
                None => (r matches Err(e) && e@ == "No refill source configured"@),
            },
    {
        match self.config {
            Some(config) => match config.refill_source {
                Some(source) => Ok((source, config.refill_amount)),
                None => Err("No refill source configured".to_string()),
            },
            None => Err("Cycles config not initialized".to_string()),
        }
    }

    /// The summary of `balance` against the thresholds.
    pub fn get_summary(&self, balance: u64) -> (r: Result<CyclesSummary, String>)
        ensures
            r == Ok::<CyclesSummary, String>(
                CyclesSummary {
                    balance,
                    warning_threshold: self.warning_threshold,
                    critical_threshold: self.critical_threshold,
                    is_below_warning: balance < self.warning_threshold,
                    is_below_critical: balance < self.critical_threshold,
                },
            ),
    {
        Ok(CyclesSummary {
            balance,
            warning_threshold: self.warning_threshold,
            critical_threshold: self.critical_threshold,
            is_below_warning: self.is_below_warning_threshold(balance),
            is_below_critical: self.is_below_critical_threshold(balance),
        })
    }
}

/// The outcome of a refill request once the management canister answered.
pub fn finish_cycles_refill(deposit: Result<(), String>) -> (r: Result<(), String>)
    ensures
        deposit is Ok <==> r is Ok,
        deposit matches Err(m) ==> r matches Err(e) && e@ == "Failed to request cycles: "@ + m@,
{
    match deposit {
        Ok(()) => Ok(()),
        Err(m) => {
            let mut e = "Failed to request cycles: ".to_string();
            e.append(m.as_str());
            Err(e)
        },
    }
}

} // verus!
