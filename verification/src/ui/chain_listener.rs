//! A window over the keys pressed last, as long as the key sequence that
//! shows or hides the login form.
use vstd::prelude::*;

verus! {

/// Remembers as many of the keys pressed last as the sequence is long.
#[derive(Debug)]
pub struct ChainListener {
    buffer: Vec<char>,
    sequence: Vec<char>,
}

/// What a [`ChainListener`] holds: the keys it remembers, oldest first, and
/// the sequence it listens for.
pub struct ChainListenerView {
    pub buffer: Seq<char>,
    pub sequence: Seq<char>,
}

impl View for ChainListener {
    type V = ChainListenerView;

    closed spec fn view(&self) -> ChainListenerView {
        ChainListenerView { buffer: self.buffer@, sequence: self.sequence@ }
    }
}

/// The keys remembered after `key` is pressed: where the window is full the
/// oldest leaves, then `key` joins.
pub open spec fn window_after(listener: ChainListenerView, key: char) -> Seq<char> {
    if listener.buffer.len() == listener.sequence.len() {
        listener.buffer.drop_first().push(key)
    } else {
        listener.buffer.push(key)
    }
}

/// Whether two lists of keys are the same.
fn same_keys(left: &Vec<char>, right: &Vec<char>) -> (r: bool)
    ensures
        r == (left@ == right@),
{
    if left.len() != right.len() {
        return false;
    }
    let mut k: usize = 0;
    while k < left.len()
        invariant
            k <= left.len(),
            left@.len() == right@.len(),
            forall|j: int| 0 <= j < k ==> left@[j] == right@[j],
        decreases left.len() - k,
    {
        if left[k] != right[k] {
            return false;
        }
        k = k + 1;
    }
    assert(left@ =~= right@);
    true
}

impl ChainListener {
    /// A listener for `sequence` that remembers no key yet.
    pub fn new(sequence: Vec<char>) -> (r: Self)
        ensures
            r@ == (ChainListenerView { buffer: Seq::empty(), sequence: sequence@ }),
    {
        Self { buffer: Vec::new(), sequence }
    }

    /// The sequence listened for.
    pub fn sequence(&self) -> (r: &Vec<char>)
        ensures
            r@ == self@.sequence,
    {
        &self.sequence
    }

    /// Remembers a key, and says whether the keys remembered now spell the
    /// sequence. The sequence must not be empty.
    pub fn key_pressed(&mut self, key: char) -> (r: bool)
        requires
            old(self)@.sequence.len() > 0,
        ensures
            final(self)@.sequence == old(self)@.sequence,
            final(self)@.buffer == window_after(old(self)@, key),
            r == (window_after(old(self)@, key) == old(self)@.sequence),
    {
        if self.buffer.len() == self.sequence.len() {
            self.buffer.remove(0);
            assert(self.buffer@ =~= old(self).buffer@.drop_first());
        }
        self.buffer.push(key);
        same_keys(&self.buffer, &self.sequence)
    }
}

} // verus!
