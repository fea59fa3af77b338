//! Health reporting.
//!
//! The report itself is fixed: the service is healthy. The instant, the
//! version and the environment are read by the surrounding process and
//! passed in as plain values.

use vstd::prelude::*;
use std::sync::Arc;
use crate::dto::HealthResponse;
use crate::error::ApiError;

verus! {

/// Health service
#[derive(Debug, Clone)]
pub struct HealthService;

impl HealthService {
    /// Create a new health service instance
    pub fn new() -> (r: Self) {
        HealthService
    }

    /// Get health status
    pub fn get_health(&self, timestamp: i64, version: &str, environment: &str) -> (r: Result<
        HealthResponse,
        ApiError,
    >)
        ensures
            r matches Ok(h) && h.status@ == "healthy"@ && h.timestamp == timestamp && h.version@
                == version@ && h.environment@ == environment@,
    {
        Ok(HealthResponse::healthy(timestamp, version, environment))
    }
}

/// Health check handler
#[derive(Debug, Clone)]
pub struct HealthHandler {
    health_service: Arc<HealthService>,
}

impl HealthHandler {
    /// Create a new health handler instance
    pub fn new(health_service: Arc<HealthService>) -> (r: Self) {
        HealthHandler { health_service }
    }

    /// Health check endpoint
    pub fn health_check(&self, timestamp: i64, version: &str, environment: &str) -> (r: Result<
        HealthResponse,
        ApiError,
    >)
        ensures
            r matches Ok(h) && h.status@ == "healthy"@ && h.timestamp == timestamp && h.version@
                == version@ && h.environment@ == environment@,
    {
        self.health_service.get_health(timestamp, version, environment)
    }
}

} // verus!
