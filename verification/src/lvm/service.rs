//! Identity of the contract service.

use vstd::prelude::*;

verus! {

/// Unique service ID.
pub const LVM_SERVICE_ID: u16 = 129;

/// Name of the service.
pub const SERVICE_NAME: &'static str = "lvm";

/// The contract service.
#[derive(Default, Debug)]
pub struct Service;

impl Service {
    /// Unique identifier of the service.
    pub fn service_id(&self) -> (id: u16)
        ensures
            id == LVM_SERVICE_ID,
    {
        LVM_SERVICE_ID
    }

    /// Name of the service.
    pub fn service_name(&self) -> (name: &'static str)
        ensures
            name@ == SERVICE_NAME@,
    {
        SERVICE_NAME
    }
}

/// Creates the contract service for a node.
#[derive(Debug)]
pub struct ServiceFactory;

impl ServiceFactory {
    /// Name of the service that the factory makes.
    pub fn service_name(&self) -> (name: &'static str)
        ensures
            name@ == SERVICE_NAME@,
    {
        SERVICE_NAME
    }

    /// Makes the service.
    pub fn make_service(&mut self) -> (service: Service) {
        Service
    }
}

} // verus!
