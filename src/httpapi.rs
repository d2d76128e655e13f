//! Values exchanged with the remote alert service.
use vstd::prelude::*;
use crate::alerts::{Alert, AlertMessage, AlertName, AlertThresholdValue};

verus! {

/// Every alert definition that the remote service knows of.
#[derive(Debug)]
pub struct QueryAlertsResponse {
    pub alerts: Vec<Alert>,
}

/// A query result, as an order key (see `AlertThresholdValue`).
#[derive(Debug, Clone, Copy, PartialEq, Eq)]
pub struct QueryValue(pub i64);

impl From<QueryValue> for AlertThresholdValue {
    fn from(v: QueryValue) -> (r: AlertThresholdValue) {
        AlertThresholdValue(v.0)
    }
}

impl vstd::std_specs::convert::FromSpecImpl<QueryValue> for AlertThresholdValue {
    open spec fn obeys_from_spec() -> bool {
        true
    }

    open spec fn from_spec(v: QueryValue) -> AlertThresholdValue {
        AlertThresholdValue(v.0)
    }
}

/// Answer of the query service: one sample.
#[derive(Debug)]
pub struct QueryResponse {
    pub value: QueryValue,
}

/// Upper bound on the outbound requests in flight at once.
#[derive(Debug, Clone, Copy)]
pub struct MaxConcurrentRequests(pub usize);

/// Body of a notification.
#[derive(Debug)]
pub struct NotifyRequest {
    pub alert_name: AlertName,
    pub message: AlertMessage,
}

impl Clone for NotifyRequest {
    fn clone(&self) -> (r: NotifyRequest)
        ensures
            r == *self,
    {
        NotifyRequest { alert_name: self.alert_name.clone(), message: self.message.clone() }
    }
}

/// Body of a resolution.
#[derive(Debug)]
pub struct ResolveRequest {
    pub alert_name: AlertName,
}

impl Clone for ResolveRequest {
    fn clone(&self) -> (r: ResolveRequest)
        ensures
            r == *self,
    {
        ResolveRequest { alert_name: self.alert_name.clone() }
    }
}

/// What a change of an alert's state asks of the remote service: a
/// notification repeated every `repeat_after` milliseconds, or one resolution.
#[derive(Debug)]
pub enum AlertStatusChangeRequest {
    Notify { request: NotifyRequest, repeat_after: u64 },
    Resolve(ResolveRequest),
}

} // verus!
