//! A contract as the runtime holds it: together with the contract of its
//! callbacks.

use crate::model::{
    unit_type, well_formed, ServiceContractError, ServiceContractModel,
    ServiceContractModelView,
};
use vstd::prelude::*;

verus! {

/// Whether `callback` is the callback contract that `contract` names, and is
/// itself without callbacks: a callback is not called back.
pub open spec fn one_level(
    contract: ServiceContractModelView,
    callback: ServiceContractModelView,
) -> bool {
    contract.callback_interface == callback.name && callback.callback_interface == unit_type()
}

/// Whether `contract` and `callback` can be bound: both are well-formed, and
/// `callback` is for `contract` what a callback contract is.
pub open spec fn bindable(
    contract: ServiceContractModelView,
    callback: ServiceContractModelView,
) -> bool {
    well_formed(contract) && well_formed(callback) && one_level(contract, callback)
}

/// Whether `contract` names no callback contract.
pub open spec fn without_callback(contract: ServiceContractModelView) -> bool {
    contract.callback_interface == unit_type()
}

/// A contract with the contract of its callbacks. The callback contract is
/// the one that the contract names, and has the unit contract for its own
/// callbacks. A contract without callbacks has the unit contract for them.
/// Both contracts are well-formed.
#[derive(Debug, PartialEq, Eq)]
pub struct ServiceContract {
    contract: ServiceContractModel,
    callback: ServiceContractModel,
}

impl ServiceContract {
    /// The contract.
    pub closed spec fn model(&self) -> ServiceContractModel {
        self.contract
    }

    /// The contract of the callbacks.
    pub closed spec fn callback_model(&self) -> ServiceContractModel {
        self.callback
    }

    #[verifier::type_invariant]
    spec fn bound(&self) -> bool {
        bindable(self.contract@, self.callback@)
    }

    /// `contract` with `callback` as the contract of its callbacks. Refused
    /// where `callback` is not the contract that `contract` names for them,
    /// or has callbacks of its own, or where one of the two is not
    /// well-formed.
    pub fn new(contract: ServiceContractModel, callback: ServiceContractModel) -> (r: Result<
        ServiceContract,
        ServiceContractError,
    >)
        ensures
            match r {
                Ok(bound) => bindable(contract@, callback@) && bound.model() == contract
                    && bound.callback_model() == callback,
                Err(e) => !bindable(contract@, callback@) && e == ServiceContractError::BadItem,
            },
    {
        if contract.callback_interface == callback.name && !callback.is_duplex()
            && contract.is_well_formed() && callback.is_well_formed() {
            Ok(ServiceContract { contract, callback })
        } else {
            Err(ServiceContractError::BadItem)
        }
    }

    /// `contract` as a contract without callbacks. Refused where it names a
    /// callback contract, or is not well-formed.
    pub fn simplex(contract: ServiceContractModel) -> (r: Result<
        ServiceContract,
        ServiceContractError,
    >)
        ensures
            match r {
                Ok(bound) => without_callback(contract@) && well_formed(contract@)
                    && bound.model() == contract && bound.callback_model()@.operations.len()
                    == 0,
                Err(e) => !(without_callback(contract@) && well_formed(contract@)) && e
                    == ServiceContractError::BadItem,
            },
    {
        ServiceContract::new(contract, ServiceContractModel::unit())
    }

    /// The unit contract, whose callbacks are the unit contract's again.
    pub fn unit() -> (r: ServiceContract)
        ensures
            r.model()@.operations.len() == 0,
            r.callback_model()@.operations.len() == 0,
            r.model()@.name == unit_type(),
    {
        ServiceContract {
            contract: ServiceContractModel::unit(),
            callback: ServiceContractModel::unit(),
        }
    }

    /// The contract.
    pub fn contract(&self) -> (r: &ServiceContractModel)
        ensures
            *r == self.model(),
            bindable(self.model()@, self.callback_model()@),
    {
        proof {
            use_type_invariant(self);
        }
        &self.contract
    }

    /// The contract of the callbacks.
    pub fn callback_contract(&self) -> (r: &ServiceContractModel)
        ensures
            *r == self.callback_model(),
            bindable(self.model()@, self.callback_model()@),
    {
        proof {
            use_type_invariant(self);
        }
        &self.callback
    }

    /// A copy of this contract.
    pub fn duplicate(&self) -> (r: ServiceContract)
        ensures
            r.model()@ == self.model()@,
            r.callback_model()@ == self.callback_model()@,
    {
        proof {
            use_type_invariant(self);
        }
        ServiceContract { contract: self.contract.duplicate(), callback: self.callback.duplicate() }
    }
}

} // verus!
