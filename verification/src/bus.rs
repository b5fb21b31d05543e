//! The parts of the greeter that messages are addressed to, and the register
//! of the channels that lead to them.
use vstd::prelude::*;

verus! {

/// A part of the greeter that takes messages.
#[derive(Clone, Copy, Debug, Hash, PartialEq, Eq)]
pub enum CoreName {
    /// The part that talks to the display manager.
    Greeter,
    /// The part that draws the screen.
    UI,
}

/// The channels that lead to the parts of the greeter, one for each part
/// that has registered.
pub struct Registry<C> {
    greeter: Option<C>,
    ui: Option<C>,
}

impl<C> View for Registry<C> {
    type V = Map<CoreName, C>;

    /// The channel of each part that has registered.
    closed spec fn view(&self) -> Map<CoreName, C> {
        let with_greeter = match self.greeter {
            Some(channel) => Map::<CoreName, C>::empty().insert(CoreName::Greeter, channel),
            None => Map::<CoreName, C>::empty(),
        };
        match self.ui {
            Some(channel) => with_greeter.insert(CoreName::UI, channel),
            None => with_greeter,
        }
    }
}

impl<C> Registry<C> {
    /// A register in which no part is registered.
    pub fn new() -> (r: Self)
        ensures
            r@ == Map::<CoreName, C>::empty(),
    {
        Self { greeter: None, ui: None }
    }

    /// Registers `channel` as the way to `name`, in place of any channel
    /// registered for it before, and says whether there was one.
    pub fn register(&mut self, name: CoreName, channel: C) -> (r: bool)
        ensures
            final(self)@ == old(self)@.insert(name, channel),
            r == old(self)@.contains_key(name),
    {
        match name {
            CoreName::Greeter => {
                let known = self.greeter.is_some();
                self.greeter = Some(channel);
                assert(self@ =~= old(self)@.insert(name, channel));
                known
            },
            CoreName::UI => {
                let known = self.ui.is_some();
                self.ui = Some(channel);
                assert(self@ =~= old(self)@.insert(name, channel));
                known
            },
        }
    }

    /// The channel that leads to `to`, where that part has registered. A
    /// message for a part that has not is dropped.
    pub fn route(&self, to: CoreName) -> (r: Option<&C>)
        ensures
            match r {
                Some(channel) => self@.contains_key(to) && self@[to] == *channel,
                None => !self@.contains_key(to),
            },
    {
        match to {
            CoreName::Greeter => self.greeter.as_ref(),
            CoreName::UI => self.ui.as_ref(),
        }
    }
}

} // verus!
