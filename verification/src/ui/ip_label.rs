//! The label that shows the machine's address.
use vstd::prelude::*;

verus! {

/// What the label is told.
#[derive(Debug, PartialEq, Eq)]
pub enum IpLabelMessage {
    /// The label is to read this.
    SetIp(String),
}

/// The label that shows the machine's address.
#[derive(Debug)]
pub struct IpLabel {
    ip_label: String,
}

impl View for IpLabel {
    type V = Seq<char>;

    /// What the label reads.
    closed spec fn view(&self) -> Seq<char> {
        self.ip_label@
    }
}

/// What the label reads until the address is known.
pub open spec fn loading() -> Seq<char> {
    "Loading ip"@
}

/// What the label reads when the machine has no address.
pub open spec fn no_address() -> Seq<char> {
    "No ip found"@
}

/// What the label is to read once the address was looked up: the address,
/// or a word that there is none.
pub fn address_text(address: Option<String>) -> (r: String)
    ensures
        r@ == match address {
            Some(ip) => ip@,
            None => no_address(),
        },
{
    match address {
        Some(ip) => ip,
        None => String::from_str("No ip found"),
    }
}

impl IpLabel {
    /// A label that says the address is being looked up.
    pub fn new() -> (r: Self)
        ensures
            r@ == loading(),
    {
        Self { ip_label: String::from_str("Loading ip") }
    }

    /// Takes a message.
    pub fn update(&mut self, msg: IpLabelMessage)
        ensures
            final(self)@ == msg->SetIp_0@,
    {
        match msg {
            IpLabelMessage::SetIp(ip_label) => {
                self.ip_label = ip_label;
            },
        }
    }

    /// What the label reads.
    pub fn text(&self) -> (r: &str)
        ensures
            r@ == self@,
    {
        self.ip_label.as_str()
    }
}

impl Clone for IpLabelMessage {
    fn clone(&self) -> (r: Self)
        ensures
            r->SetIp_0@ == self->SetIp_0@,
    {
        match self {
            IpLabelMessage::SetIp(ip_label) => IpLabelMessage::SetIp(ip_label.clone()),
        }
    }
}

} // verus!
