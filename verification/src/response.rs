//! The outcome of a successful invocation: attributes describing the state
//! change, plus the outbound bank-transfer instructions the invocation
//! decided to emit.  Instructions are data — the host sends them after the
//! storage writes commit, so bookkeeping is always persisted first.

use vstd::prelude::*;

verus! {

/// An instruction to the bank subsystem: send `amount` of the native coin
/// `denom` to `to_address`.  Emitted, never awaited.
pub struct BankTransfer {
    pub to_address: String,
    pub denom: String,
    pub amount: u128,
}

/// The mathematical value of a transfer instruction.
pub ghost struct BankTransferView {
    pub to_address: Seq<char>,
    pub denom: Seq<char>,
    pub amount: u128,
}

impl View for BankTransfer {
    type V = BankTransferView;

    open spec fn view(&self) -> BankTransferView {
        BankTransferView { to_address: self.to_address@, denom: self.denom@, amount: self.amount }
    }
}

/// One `key: value` pair describing the state change to observers.
pub struct Attribute {
    pub key: String,
    pub value: String,
}

impl View for Attribute {
    type V = (Seq<char>, Seq<char>);

    open spec fn view(&self) -> (Seq<char>, Seq<char>) {
        (self.key@, self.value@)
    }
}

/// What a successful mutating operation hands back to the host.
pub struct Response {
    pub messages: Vec<BankTransfer>,
    pub attributes: Vec<Attribute>,
}

impl Response {
    /// The transfer instructions, as mathematical values.
    pub open spec fn spec_messages(self) -> Seq<BankTransferView> {
        self.messages@.map(|i: int, m: BankTransfer| m@)
    }

    /// The attributes, as mathematical `(key, value)` pairs.
    pub open spec fn spec_attributes(self) -> Seq<(Seq<char>, Seq<char>)> {
        self.attributes@.map(|i: int, a: Attribute| a@)
    }

    /// A response that carries nothing.
    pub fn new() -> (res: Response)
        ensures
            res.spec_messages() =~= Seq::<BankTransferView>::empty(),
            res.spec_attributes() =~= Seq::<(Seq<char>, Seq<char>)>::empty(),
    {
        Response { messages: Vec::new(), attributes: Vec::new() }
    }

    /// Append one transfer instruction.
    pub fn add_message(&mut self, msg: BankTransfer)
        ensures
            final(self).spec_messages() =~= old(self).spec_messages().push(msg@),
            final(self).spec_attributes() =~= old(self).spec_attributes(),
    {
        self.messages.push(msg);
    }

    /// Append one descriptive attribute.
    pub fn add_attribute(&mut self, key: &str, value: String)
        ensures
            final(self).spec_messages() =~= old(self).spec_messages(),
            final(self).spec_attributes() =~= old(self).spec_attributes().push((key@, value@)),
    {
        self.attributes.push(Attribute { key: key.to_owned(), value });
    }
}

} // verus!
