//! Cross-component lookups: what one component reads from another's state.
//!
//! Every lookup takes the queried component's state as an explicit parameter;
//! the host-level plumbing that fetches a remote contract's raw storage is
//! not part of the verified logic.

use vstd::prelude::*;

use crate::adodb::AdodbState;
use crate::error::{ContractError, ContractErrorView};
use crate::kernel::KernelState;

verus! {

/// The lookup helpers, bundled under one name.
pub struct AOSQuerier;

impl AOSQuerier {
    /// The type the registry binds `code_id` to; an unknown code id cannot
    /// name a component and is an invalid address.
    pub fn ado_type_getter(registry: &AdodbState, code_id: u64) -> (r: Result<
        String,
        ContractError,
    >)
        requires
            registry.wf(),
        ensures
            match r {
                Ok(t) => registry@.types.contains_key(code_id) && registry@.types[code_id] == t@,
                Err(e) => !registry@.types.contains_key(code_id) && e@
                    == ContractErrorView::InvalidAddress,
            },
    {
        match registry.query_ado_type(code_id) {
            Some(t) => Ok(t),
            None => Err(ContractError::InvalidAddress),
        }
    }

    /// Checks that `code_id` is registry-known; an unknown one is
    /// unauthorized.
    pub fn verify_code_id(registry: &AdodbState, code_id: u64) -> (r: Result<(), ContractError>)
        requires
            registry.wf(),
        ensures
            match r {
                Ok(()) => registry@.types.contains_key(code_id),
                Err(e) => !registry@.types.contains_key(code_id) && e@
                    == ContractErrorView::Unauthorized,
            },
    {
        match registry.query_ado_type(code_id) {
            Some(_) => Ok(()),
            None => Err(ContractError::Unauthorized),
        }
    }

    /// The default code id registered for `ado_type`.
    pub fn code_id_getter(registry: &AdodbState, ado_type: &String) -> (r: Result<
        u64,
        ContractError,
    >)
        requires
            registry.wf(),
        ensures
            match r {
                Ok(c) => registry@.defaults.contains_key(ado_type@) && registry@.defaults[ado_type@]
                    == c,
                Err(e) => !registry@.defaults.contains_key(ado_type@) && e@
                    == ContractErrorView::InvalidAddress,
            },
    {
        match registry.code_id.get(ado_type) {
            Some(c) => Ok(*c),
            None => Err(ContractError::InvalidAddress),
        }
    }

    /// The address the kernel's configuration map holds under `key`.
    pub fn kernel_address_getter(kernel: &KernelState, key: &String) -> (r: Result<
        String,
        ContractError,
    >)
        requires
            kernel.wf(),
        ensures
            match r {
                Ok(a) => kernel@.addresses.contains_key(key@) && kernel@.addresses[key@] == a@,
                Err(e) => !kernel@.addresses.contains_key(key@) && e@
                    == ContractErrorView::InvalidAddress,
            },
    {
        match kernel.kernel_addresses.get(key) {
            Some(a) => Ok(a.clone()),
            None => Err(ContractError::InvalidAddress),
        }
    }

    /// The directory service's address, from the kernel's configuration map.
    pub fn vfs_address_getter(kernel: &KernelState) -> (r: Result<String, ContractError>)
        requires
            kernel.wf(),
        ensures
            match r {
                Ok(a) => kernel@.addresses.contains_key("vfs"@) && kernel@.addresses["vfs"@] == a@,
                Err(e) => !kernel@.addresses.contains_key("vfs"@) && e@
                    == ContractErrorView::InvalidAddress,
            },
    {
        AOSQuerier::kernel_address_getter(kernel, &"vfs".to_owned())
    }

    /// The registry's address, from the kernel's configuration map.
    pub fn adodb_address_getter(kernel: &KernelState) -> (r: Result<String, ContractError>)
        requires
            kernel.wf(),
        ensures
            match r {
                Ok(a) => kernel@.addresses.contains_key("adodb"@) && kernel@.addresses["adodb"@]
                    == a@,
                Err(e) => !kernel@.addresses.contains_key("adodb"@) && e@
                    == ContractErrorView::InvalidAddress,
            },
    {
        AOSQuerier::kernel_address_getter(kernel, &"adodb".to_owned())
    }
}

} // verus!
