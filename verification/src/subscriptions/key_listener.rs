//! The key chain: a sequence of keys that, typed anywhere, shows or hides
//! the login form.
use crate::text::chars_of;
use std::collections::VecDeque;
use vstd::prelude::*;

verus! {

/// Listens for the key chain among the keys pressed.
#[derive(Debug)]
pub struct KeyListener {
    buffer: VecDeque<char>,
    chain: String,
}

/// What a [`KeyListener`] holds: the keys it remembers, oldest first, and
/// the chain it listens for.
pub struct KeyListenerView {
    pub buffer: Seq<char>,
    pub chain: Seq<char>,
}

impl View for KeyListener {
    type V = KeyListenerView;

    closed spec fn view(&self) -> KeyListenerView {
        KeyListenerView { buffer: self.buffer@, chain: self.chain@ }
    }
}

/// What the listener is told.
#[derive(Debug, Clone, Copy, PartialEq, Eq)]
pub enum KeyListenerMessage {
    /// A key was pressed that stands for this character.
    Key(char),
    /// The chain was typed.
    ChainTriggered,
}

/// How many keys the listener compares at once: the length of the chain as
/// its string measures it, in bytes. For a chain of plain letters and digits
/// that is the number of its characters.
pub open spec fn window(chain: Seq<char>) -> nat {
    vstd::utf8::encode_utf8(chain).len()
}

/// The keys remembered after `key` is pressed: `key` joins them, and once
/// they fill the window the oldest leaves.
pub open spec fn remembered(listener: KeyListenerView, key: char) -> Seq<char> {
    let grown = listener.buffer.push(key);
    if grown.len() == window(listener.chain) {
        grown.drop_first()
    } else {
        grown
    }
}

/// Whether `key` completes the chain: with it the remembered keys fill the
/// window and spell the chain.
pub open spec fn completes(listener: KeyListenerView, key: char) -> bool {
    let grown = listener.buffer.push(key);
    grown.len() == window(listener.chain) && grown == listener.chain
}

/// Whether the keys of `buffer` spell `chain`.
fn spells(buffer: &VecDeque<char>, chain: &str) -> (r: bool)
    ensures
        r == (buffer@ == chain@),
{
    let wanted = chars_of(chain);
    if buffer.len() != wanted.len() {
        return false;
    }
    let mut k: usize = 0;
    while k < wanted.len()
        invariant
            k <= wanted.len(),
            wanted@ == chain@,
            buffer@.len() == wanted@.len(),
            forall|j: int| 0 <= j < k ==> buffer@[j] == wanted@[j],
        decreases wanted.len() - k,
    {
        if buffer[k] != wanted[k] {
            return false;
        }
        k = k + 1;
    }
    assert(buffer@ =~= chain@);
    true
}

impl KeyListener {
    /// A listener for `chain` that remembers no key yet.
    pub fn new(chain: String) -> (r: Self)
        ensures
            r@ == (KeyListenerView { buffer: Seq::empty(), chain: chain@ }),
    {
        Self { buffer: VecDeque::new(), chain }
    }

    /// Takes a message. A key is remembered; where it completes the chain
    /// the listener says so. Nothing else changes the listener or makes it
    /// speak.
    pub fn update(&mut self, msg: KeyListenerMessage) -> (r: Option<KeyListenerMessage>)
        ensures
            final(self)@.chain == old(self)@.chain,
            match msg {
                KeyListenerMessage::Key(key) => {
                    &&& final(self)@.buffer == remembered(old(self)@, key)
                    &&& r == if completes(old(self)@, key) {
                        Some(KeyListenerMessage::ChainTriggered)
                    } else {
                        None
                    }
                },
                KeyListenerMessage::ChainTriggered => final(self)@ == old(self)@ && r is None,
            },
    {
        match msg {
            KeyListenerMessage::Key(key) => {
                self.buffer.push_back(key);
                if self.buffer.len() != self.chain.as_str().as_bytes().len() {
                    return None;
                }
                let typed = spells(&self.buffer, self.chain.as_str());
                self.buffer.pop_front();
                assert(self.buffer@ =~= old(self).buffer@.push(key).drop_first());
                if typed {
                    Some(KeyListenerMessage::ChainTriggered)
                } else {
                    None
                }
            },
            KeyListenerMessage::ChainTriggered => None,
        }
    }
}

} // verus!
