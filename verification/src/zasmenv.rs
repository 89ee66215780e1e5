//! Named constants of a program's data section.

use vstd::prelude::*;

verus! {

/// A named run of bytes at an address.
pub struct Binding {
    ident: String,
    address: u16,
    bytes: Vec<u8>,
}

/// What a [`Binding`] holds, as plain values.
pub ghost struct BindingView {
    pub ident: Seq<char>,
    pub address: u16,
    pub bytes: Seq<u8>,
}

impl View for Binding {
    type V = BindingView;

    closed spec fn view(&self) -> BindingView {
        BindingView { ident: self.ident@, address: self.address, bytes: self.bytes@ }
    }
}

impl Binding {
    /// The binding of `bytes` to the name `ident` at the address `addr`.
    pub fn new(ident: String, addr: u16, bytes: Vec<u8>) -> (binding: Self)
        ensures
            binding@ == (BindingView { ident: ident@, address: addr, bytes: bytes@ }),
    {
        Self { ident, address: addr, bytes }
    }

    /// The name.
    pub fn ident(&self) -> (ident: &str)
        ensures
            ident@ == self@.ident,
    {
        self.ident.as_str()
    }

    /// The address.
    pub fn address(&self) -> (address: u16)
        ensures
            address == self@.address,
    {
        self.address
    }

    /// The bytes.
    pub fn bytes(&self) -> (bytes: &[u8])
        ensures
            bytes@ == self@.bytes,
    {
        self.bytes.as_slice()
    }
}

} // verus!
