//! The sequence engine: an append-only list of panel identifiers that grows
//! by one randomly drawn panel per round and is never reordered or truncated.

use vstd::prelude::*;
use crate::panel::PanelId;

verus! {

/// The growing round sequence: an ordered, append-only list of panels.
pub struct Sequence {
    panels: Vec<PanelId>,
}

impl View for Sequence {
    type V = Seq<PanelId>;

    closed spec fn view(&self) -> Seq<PanelId> {
        self.panels@
    }
}

/// Relies on rand::Rng::gen_range over the inclusive range 0..=3: the result
/// is one of the four values of that range. Which one is drawn is random, so
/// nothing more is promised of it.
#[verifier::external_body]
fn draw_index() -> (r: u8)
    ensures
        r <= 3,
{
    rand::Rng::gen_range(&mut rand::thread_rng(), 0..=3u8)
}

/// The panel that a drawn index denotes, with each of the four indices
/// mapping to a distinct panel.
pub fn panel_of_index(i: u8) -> (p: PanelId)
    requires
        i <= 3,
    ensures
        p == (if i == 0 {
            PanelId::Green
        } else if i == 1 {
            PanelId::Red
        } else if i == 2 {
            PanelId::Yellow
        } else {
            PanelId::Blue
        }),
{
    match i {
        0 => PanelId::Green,
        1 => PanelId::Red,
        2 => PanelId::Yellow,
        _ => PanelId::Blue,
    }
}

/// Draw one panel uniformly at random from the four-panel domain. Which
/// panel comes back is random, so nothing is promised of the value.
pub fn random_panel() -> (p: PanelId) {
    let i = draw_index();
    panel_of_index(i)
}

impl Sequence {
    /// A fresh sequence holds no panels.
    pub fn new() -> (s: Sequence)
        ensures
            s@ == Seq::<PanelId>::empty(),
    {
        Sequence { panels: Vec::new() }
    }

    /// Append one given panel. The existing elements keep their places; only
    /// the new panel is added at the end.
    pub fn append(&mut self, p: PanelId)
        ensures
            final(self)@ == old(self)@.push(p),
    {
        self.panels.push(p);
    }

    /// Draw one panel at random from the four-panel domain and append it,
    /// returning the drawn panel. The existing elements keep their places;
    /// the length grows by exactly one.
    pub fn append_random(&mut self) -> (p: PanelId)
        ensures
            final(self)@ == old(self)@.push(p),
    {
        let i = draw_index();
        let p = panel_of_index(i);
        self.append(p);
        p
    }

    /// The number of panels appended so far.
    pub fn current_length(&self) -> (n: usize)
        ensures
            n == self@.len(),
    {
        self.panels.len()
    }

    /// The panel at position `i` (0-indexed).
    pub fn panel_at(&self, i: usize) -> (p: PanelId)
        requires
            i < self@.len(),
        ensures
            p == self@[i as int],
    {
        self.panels[i]
    }
}

/// Law: the sequence is append-only and prefix-stable. Appending a panel
/// grows the length by exactly one and leaves every element already present
/// unchanged at its place, so no later round can alter an earlier element.
pub proof fn lemma_append_prefix_stable(s: Seq<PanelId>, p: PanelId)
    ensures
        s.push(p).len() == s.len() + 1,
        forall|i: int| 0 <= i < s.len() ==> s.push(p)[i] == s[i],
{
}

} // verus!
