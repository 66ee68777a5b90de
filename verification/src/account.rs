//! Addresses, account references and built instructions.
//!
//! The external program's call interface is positional: an instruction names
//! its accounts as an ordered list of (address, signer, writable) entries, and
//! the position of an entry — not any name — tells the program what it is.

use vstd::prelude::*;

verus! {

/// A 32-byte ledger address, held as two 128-bit little-endian halves so that
/// equality stays structural.  The low half covers bytes 0..16 of the address,
/// the high half bytes 16..32.
#[derive(Clone, Copy, PartialEq, Eq, Structural, Debug, Hash)]
pub struct Address {
    pub lo: u128,
    pub hi: u128,
}

/// One entry of an instruction's ordered account-reference list.  The flags
/// say whether the entry signs the call and whether the called program may
/// write to it.
#[derive(Clone, Copy, PartialEq, Eq, Structural, Debug)]
pub struct AccountRef {
    pub addr: Address,
    pub is_signer: bool,
    pub is_writable: bool,
}

/// A writable entry that also signs the call.
pub open spec fn writable_signer(addr: Address) -> AccountRef {
    AccountRef { addr, is_signer: true, is_writable: true }
}

/// A writable entry that does not sign.
pub open spec fn writable(addr: Address) -> AccountRef {
    AccountRef { addr, is_signer: false, is_writable: true }
}

/// A read-only entry that does not sign.
pub open spec fn readonly(addr: Address) -> AccountRef {
    AccountRef { addr, is_signer: false, is_writable: false }
}

/// A read-only entry that signs the call.
pub open spec fn readonly_signer(addr: Address) -> AccountRef {
    AccountRef { addr, is_signer: true, is_writable: false }
}

/// A fully built instruction for an external program: the target program's
/// address, the ordered account-reference list, and the encoded payload.
#[derive(Debug)]
pub struct Instruction {
    pub program: Address,
    pub accounts: Vec<AccountRef>,
    pub data: Vec<u8>,
}

} // verus!
