//! Alert definitions and the threshold evaluator.
use vstd::prelude::*;

verus! {

/// Name of an alert, unique within the alert set.
#[derive(Debug)]
pub struct AlertName(pub String);

impl Clone for AlertName {
    fn clone(&self) -> (r: AlertName)
        ensures
            r == *self,
    {
        AlertName(self.0.clone())
    }
}

/// Name of a query, resolved by the remote query service.
#[derive(Debug)]
pub struct QueryName(pub String);

impl Clone for QueryName {
    fn clone(&self) -> (r: QueryName)
        ensures
            r == *self,
    {
        QueryName(self.0.clone())
    }
}

/// Message sent along with a notification.
#[derive(Debug, PartialEq, Eq)]
pub struct AlertMessage(pub String);

impl Clone for AlertMessage {
    fn clone(&self) -> (r: AlertMessage)
        ensures
            r == *self,
    {
        AlertMessage(self.0.clone())
    }
}

/// A metric sample or threshold, held as an order key: the evaluator only
/// compares samples with thresholds, so any encoding that keeps the order of
/// the measured numbers serves.
#[derive(Debug, Clone, Copy, PartialEq, Eq, PartialOrd, Ord)]
pub struct AlertThresholdValue(pub i64);

/// One threshold: the value at which it fires and the message it carries.
#[derive(Debug)]
pub struct AlertThreshold {
    pub message: AlertMessage,
    pub value: AlertThresholdValue,
}

/// The warn and critical thresholds of an alert.
#[derive(Debug)]
pub struct AlertThresholds {
    pub warn: AlertThreshold,
    pub critical: AlertThreshold,
}

/// An alert definition. Intervals are in milliseconds.
#[derive(Debug)]
pub struct Alert {
    pub name: AlertName,
    pub query: QueryName,
    /// Time between two polls of the query.
    pub interval: u64,
    /// Time between two notifications while the alert is active.
    pub repeat_interval: u64,
    pub thresholds: AlertThresholds,
}

/// The classified state of an alert.
#[derive(Debug, PartialEq, Eq)]
pub enum AlertState {
    /// The value is below the warn threshold.
    Pass,
    /// The value reached the warn threshold but not the critical one.
    Warn { message: AlertMessage },
    /// The value reached the critical threshold.
    Critical { message: AlertMessage },
}

impl AlertState {
    /// Severity rank: Pass < Warn < Critical.
    pub open spec fn level(&self) -> nat {
        match self {
            AlertState::Pass => 0,
            AlertState::Warn { .. } => 1,
            AlertState::Critical { .. } => 2,
        }
    }

    /// Whether both states are the same variant; messages are not compared.
    pub fn same_state(&self, other: &AlertState) -> (r: bool)
        ensures
            r == (self.level() == other.level()),
    {
        match (self, other) {
            (AlertState::Pass, AlertState::Pass) => true,
            (AlertState::Warn { .. }, AlertState::Warn { .. }) => true,
            (AlertState::Critical { .. }, AlertState::Critical { .. }) => true,
            _ => false,
        }
    }
}

impl AlertThresholds {
    /// The state of a value against these thresholds: critical is checked
    /// first, then warn.
    pub open spec fn classify(&self, value: AlertThresholdValue) -> AlertState {
        if value.0 >= self.critical.value.0 {
            AlertState::Critical { message: self.critical.message }
        } else if value.0 >= self.warn.value.0 {
            AlertState::Warn { message: self.warn.message }
        } else {
            AlertState::Pass
        }
    }

    pub fn state_for(&self, value: &AlertThresholdValue) -> (r: AlertState)
        ensures
            r == self.classify(*value),
            value.0 >= self.critical.value.0 ==> r == (AlertState::Critical {
                message: self.critical.message,
            }),
            value.0 < self.warn.value.0 && value.0 < self.critical.value.0 ==> r
                == AlertState::Pass,
    {
        if value.0 >= self.critical.value.0 {
            AlertState::Critical { message: self.critical.message.clone() }
        } else if value.0 >= self.warn.value.0 {
            AlertState::Warn { message: self.warn.message.clone() }
        } else {
            AlertState::Pass
        }
    }
}

} // verus!
