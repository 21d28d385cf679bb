//! Storage/authority handles as the execution environment presents them.
//!
//! A caller fully controls which handles it submits with an instruction, so
//! nothing about a handle may be trusted until its address has been
//! re-derived and its content decoded. A handle carries the slot's address,
//! whether the holder signed this invocation, the program that owns the slot,
//! and the slot's current bytes.

use vstd::prelude::*;

use crate::keys::{is_key, PubkeyData};

verus! {

/// One positional handle of an instruction's account list.
pub struct AccountHandle {
    /// Address of the storage slot (or identity of the signer).
    pub key: PubkeyData,
    /// Whether this handle carries the invocation's signature proof.
    pub is_signer: bool,
    /// The program that owns the slot.
    pub owner: PubkeyData,
    /// Current content of the slot.
    pub data: Vec<u8>,
}

/// Mathematical value of an [`AccountHandle`].
#[verifier::ext_equal]
pub struct AccountHandleV {
    pub key: Seq<u8>,
    pub is_signer: bool,
    pub owner: Seq<u8>,
    pub data: Seq<u8>,
}

impl AccountHandleV {
    /// Key and owner are 32-byte identifiers.
    pub open spec fn wf(&self) -> bool {
        is_key(self.key) && is_key(self.owner)
    }
}

impl View for AccountHandle {
    type V = AccountHandleV;

    open spec fn view(&self) -> AccountHandleV {
        AccountHandleV {
            key: self.key@,
            is_signer: self.is_signer,
            owner: self.owner@,
            data: self.data@,
        }
    }
}

impl AccountHandle {
    /// Key and owner are 32-byte identifiers.
    pub open spec fn wf(&self) -> bool {
        self@.wf()
    }
}

} // verus!
