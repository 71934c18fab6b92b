//! The playback driver: the scripts of timed highlight actions and the phase
//! machine that grows and replays the sequence until the terminating panel
//! is played.
//!
//! The driver decides; the embedder performs. Each public operation returns
//! the exact list of actions to carry out, in order; a `Wait` action is the
//! driver's suspension point, a fixed-duration pause between UI updates.

use vstd::prelude::*;
use crate::panel::PanelId;
use crate::panel::Panels;
use crate::panel::TERMINATING_PANEL;
use crate::sequence::Sequence;
use crate::sequence::random_panel;

verus! {

/// One step of playback, to be performed by the embedder in order.
#[derive(Clone, Copy, Debug, PartialEq, Eq, Structural)]
pub enum Action {
    /// Put the active marker on one panel.
    MarkActive(PanelId),
    /// Remove the active marker from one panel.
    MarkInactive(PanelId),
    /// Put the active marker on all four panels at once.
    MarkAllActive,
    /// Remove the active marker from all four panels at once.
    MarkAllInactive,
    /// Suspend for the fixed pause duration before the next action.
    Wait,
}

/// The fixed pause, in milliseconds, that each `Wait` action stands for.
pub const PAUSE_MILLIS: u64 = 500;

/// The highlight cycle of one panel: mark it active, pause, mark it
/// inactive.
pub open spec fn highlight_cycle(p: PanelId) -> Seq<Action> {
    seq![Action::MarkActive(p), Action::Wait, Action::MarkInactive(p)]
}

/// One all-panel flash: mark all four active, pause, mark all four
/// inactive, pause.
pub open spec fn all_panels_cycle() -> Seq<Action> {
    seq![Action::MarkAllActive, Action::Wait, Action::MarkAllInactive, Action::Wait]
}

/// The fixed intro script: one highlight cycle per panel in the order
/// green, red, yellow, blue, then a pause, then three all-panel flashes.
pub open spec fn intro_script() -> Seq<Action> {
    highlight_cycle(PanelId::Green) + highlight_cycle(PanelId::Red) + highlight_cycle(
        PanelId::Yellow,
    ) + highlight_cycle(PanelId::Blue) + seq![Action::Wait] + all_panels_cycle()
        + all_panels_cycle() + all_panels_cycle()
}

/// The playback of one round: the highlight cycle of every panel of the
/// sequence, in insertion order.
pub open spec fn round_script(s: Seq<PanelId>) -> Seq<Action>
    decreases s.len(),
{
    if s.len() == 0 {
        Seq::<Action>::empty()
    } else {
        highlight_cycle(s[0]) + round_script(s.subrange(1, s.len() as int))
    }
}

/// One all-panel flash of the intro: all four panels are marked active
/// simultaneously, then after a pause all four are marked inactive, then
/// a second pause follows.
pub fn set_all_active_then_reset() -> (acts: Vec<Action>)
    ensures
        acts@ == all_panels_cycle(),
{
    let mut acts: Vec<Action> = Vec::new();
    acts.push(Action::MarkAllActive);
    acts.push(Action::Wait);
    acts.push(Action::MarkAllInactive);
    acts.push(Action::Wait);
    proof {
        assert(acts@ =~= all_panels_cycle());
    }
    acts
}

/// The presentation state of the four panels after one action is performed:
/// the meaning of a script step.
pub open spec fn action_effect(p: Panels, a: Action) -> Panels {
    match a {
        Action::MarkActive(id) => p.with_marker(id, true),
        Action::MarkInactive(id) => p.with_marker(id, false),
        Action::MarkAllActive => Panels::all_active(),
        Action::MarkAllInactive => Panels::all_inactive(),
        Action::Wait => p,
    }
}

/// The presentation state after a whole script is performed in order.
pub open spec fn script_effect(p: Panels, s: Seq<Action>) -> Panels
    decreases s.len(),
{
    if s.len() == 0 {
        p
    } else {
        script_effect(action_effect(p, s[0]), s.subrange(1, s.len() as int))
    }
}

/// Perform one script action on the panel presentation model.
pub fn apply_action(panels: &mut Panels, a: Action)
    ensures
        *final(panels) == action_effect(*old(panels), a),
{
    match a {
        Action::MarkActive(id) => panels.mark_active(id),
        Action::MarkInactive(id) => panels.mark_inactive(id),
        Action::MarkAllActive => panels.mark_all_active(),
        Action::MarkAllInactive => panels.mark_all_inactive(),
        Action::Wait => (),
    }
}

/// The number of individual-panel highlight/unhighlight pairs in a script:
/// each single-panel activation begins one such pair.
pub open spec fn individual_pair_count(s: Seq<Action>) -> nat
    decreases s.len(),
{
    if s.len() == 0 {
        0
    } else {
        (match s[0] {
            Action::MarkActive(_) => 1nat,
            _ => 0nat,
        }) + individual_pair_count(s.subrange(1, s.len() as int))
    }
}

/// The number of all-panel highlight/unhighlight pairs in a script: each
/// simultaneous activation of all four panels begins one such pair.
pub open spec fn all_panel_pair_count(s: Seq<Action>) -> nat
    decreases s.len(),
{
    if s.len() == 0 {
        0
    } else {
        (match s[0] {
            Action::MarkAllActive => 1nat,
            _ => 0nat,
        }) + all_panel_pair_count(s.subrange(1, s.len() as int))
    }
}

/// The number of fixed-duration pauses in a script.
pub open spec fn wait_count(s: Seq<Action>) -> nat
    decreases s.len(),
{
    if s.len() == 0 {
        0
    } else {
        (match s[0] {
            Action::Wait => 1nat,
            _ => 0nat,
        }) + wait_count(s.subrange(1, s.len() as int))
    }
}

/// Law: the three pair counts distribute over concatenation of scripts.
pub proof fn lemma_counts_concat(a: Seq<Action>, b: Seq<Action>)
    ensures
        individual_pair_count(a + b) == individual_pair_count(a) + individual_pair_count(b),
        all_panel_pair_count(a + b) == all_panel_pair_count(a) + all_panel_pair_count(b),
        wait_count(a + b) == wait_count(a) + wait_count(b),
    decreases a.len(),
{
    if a.len() == 0 {
        assert(a + b =~= b);
    } else {
        let t = a.subrange(1, a.len() as int);
        assert((a + b).subrange(1, (a + b).len() as int) =~= t + b);
        assert((a + b)[0] == a[0]);
        lemma_counts_concat(t, b);
    }
}

/// Pair counts of one panel's highlight cycle.
proof fn lemma_counts_cycle(p: PanelId)
    ensures
        individual_pair_count(highlight_cycle(p)) == 1,
        all_panel_pair_count(highlight_cycle(p)) == 0,
        wait_count(highlight_cycle(p)) == 1,
{
    reveal_with_fuel(individual_pair_count, 4);
    reveal_with_fuel(all_panel_pair_count, 4);
    reveal_with_fuel(wait_count, 4);
    let c = highlight_cycle(p);
    assert(c.subrange(1, 3).subrange(1, 2) =~= c.subrange(2, 3));
    assert(c.subrange(2, 3).subrange(1, 1) =~= Seq::<Action>::empty());
}

/// Pair counts of one all-panel flash.
proof fn lemma_counts_all_panels()
    ensures
        individual_pair_count(all_panels_cycle()) == 0,
        all_panel_pair_count(all_panels_cycle()) == 1,
        wait_count(all_panels_cycle()) == 2,
{
    reveal_with_fuel(individual_pair_count, 5);
    reveal_with_fuel(all_panel_pair_count, 5);
    reveal_with_fuel(wait_count, 5);
    let c = all_panels_cycle();
    assert(c.subrange(1, 4).subrange(1, 3) =~= c.subrange(2, 4));
    assert(c.subrange(2, 4).subrange(1, 2) =~= c.subrange(3, 4));
    assert(c.subrange(3, 4).subrange(1, 1) =~= Seq::<Action>::empty());
}

/// Law: the fixed intro performs exactly four individual-panel
/// highlight/unhighlight pairs and exactly three all-panel pairs, in the
/// order its script lays down, with eleven fixed-duration pauses in all —
/// so its total elapsed time is always eleven times the pause duration.
pub proof fn lemma_intro_structure()
    ensures
        individual_pair_count(intro_script()) == 4,
        all_panel_pair_count(intro_script()) == 3,
        wait_count(intro_script()) == 11,
        intro_script().len() == 25,
{
    let g = highlight_cycle(PanelId::Green);
    let r = highlight_cycle(PanelId::Red);
    let y = highlight_cycle(PanelId::Yellow);
    let b = highlight_cycle(PanelId::Blue);
    let w = seq![Action::Wait];
    let f = all_panels_cycle();
    lemma_counts_cycle(PanelId::Green);
    lemma_counts_cycle(PanelId::Red);
    lemma_counts_cycle(PanelId::Yellow);
    lemma_counts_cycle(PanelId::Blue);
    lemma_counts_all_panels();
    assert(individual_pair_count(w) == 0 && all_panel_pair_count(w) == 0 && wait_count(w)
        == 1) by {
        reveal_with_fuel(individual_pair_count, 2);
        reveal_with_fuel(all_panel_pair_count, 2);
        reveal_with_fuel(wait_count, 2);
        assert(w.subrange(1, 1) =~= Seq::<Action>::empty());
    }
    lemma_counts_concat(g, r);
    lemma_counts_concat(g + r, y);
    lemma_counts_concat(g + r + y, b);
    lemma_counts_concat(g + r + y + b, w);
    lemma_counts_concat(g + r + y + b + w, f);
    lemma_counts_concat(g + r + y + b + w + f, f);
    lemma_counts_concat(g + r + y + b + w + f + f, f);
}

/// Law: performing two scripts in order is performing their concatenation.
pub proof fn lemma_script_effect_concat(p: Panels, a: Seq<Action>, b: Seq<Action>)
    ensures
        script_effect(p, a + b) == script_effect(script_effect(p, a), b),
    decreases a.len(),
{
    if a.len() == 0 {
        assert(a + b =~= b);
    } else {
        let t = a.subrange(1, a.len() as int);
        assert((a + b).subrange(1, (a + b).len() as int) =~= t + b);
        assert((a + b)[0] == a[0]);
        lemma_script_effect_concat(action_effect(p, a[0]), t, b);
    }
}

/// Effect of one panel's highlight cycle: the marker is set and then
/// removed, so the cycle only clears that panel's marker.
proof fn lemma_cycle_effect(p: Panels, id: PanelId)
    ensures
        script_effect(p, highlight_cycle(id)) == p.with_marker(id, false),
{
    reveal_with_fuel(script_effect, 4);
    let c = highlight_cycle(id);
    assert(c.subrange(1, 3).subrange(1, 2) =~= c.subrange(2, 3));
    assert(c.subrange(2, 3).subrange(1, 1) =~= Seq::<Action>::empty());
}

/// Effect of one all-panel flash: every marker is set and then removed.
proof fn lemma_flash_effect(p: Panels)
    ensures
        script_effect(p, all_panels_cycle()) == Panels::all_inactive(),
{
    reveal_with_fuel(script_effect, 5);
    let c = all_panels_cycle();
    assert(c.subrange(1, 4).subrange(1, 3) =~= c.subrange(2, 4));
    assert(c.subrange(2, 4).subrange(1, 2) =~= c.subrange(3, 4));
    assert(c.subrange(3, 4).subrange(1, 1) =~= Seq::<Action>::empty());
}

/// Law: replaying a round leaves no marker behind. Playback that starts
/// with all panels inactive ends with all panels inactive, whatever the
/// sequence holds.
pub proof fn lemma_round_playback_clean(s: Seq<PanelId>)
    ensures
        script_effect(Panels::all_inactive(), round_script(s)) == Panels::all_inactive(),
    decreases s.len(),
{
    if s.len() > 0 {
        let t = s.subrange(1, s.len() as int);
        lemma_script_effect_concat(
            Panels::all_inactive(),
            highlight_cycle(s[0]),
            round_script(t),
        );
        lemma_cycle_effect(Panels::all_inactive(), s[0]);
        lemma_round_playback_clean(t);
    }
}

/// Law: the intro likewise leaves no marker behind: performed from all
/// panels inactive, it ends with all panels inactive.
pub proof fn lemma_intro_playback_clean()
    ensures
        script_effect(Panels::all_inactive(), intro_script()) == Panels::all_inactive(),
{
    let ai = Panels::all_inactive();
    let g = highlight_cycle(PanelId::Green);
    let r = highlight_cycle(PanelId::Red);
    let y = highlight_cycle(PanelId::Yellow);
    let b = highlight_cycle(PanelId::Blue);
    let w = seq![Action::Wait];
    let f = all_panels_cycle();
    lemma_script_effect_concat(ai, g, r);
    lemma_cycle_effect(ai, PanelId::Green);
    lemma_script_effect_concat(ai, g + r, y);
    lemma_cycle_effect(ai, PanelId::Red);
    lemma_script_effect_concat(ai, g + r + y, b);
    lemma_cycle_effect(ai, PanelId::Yellow);
    lemma_script_effect_concat(ai, g + r + y + b, w);
    lemma_cycle_effect(ai, PanelId::Blue);
    assert(script_effect(ai, w) == ai) by {
        reveal_with_fuel(script_effect, 2);
        assert(w.subrange(1, 1) =~= Seq::<Action>::empty());
    }
    lemma_script_effect_concat(ai, g + r + y + b + w, f);
    lemma_flash_effect(ai);
    lemma_script_effect_concat(ai, g + r + y + b + w + f, f);
    lemma_script_effect_concat(ai, g + r + y + b + w + f + f, f);
}

/// Law: extending the sequence by one panel extends its round playback by
/// exactly that panel's highlight cycle, after all existing cycles.
pub proof fn lemma_round_script_snoc(s: Seq<PanelId>, p: PanelId)
    ensures
        round_script(s.push(p)) == round_script(s) + highlight_cycle(p),
    decreases s.len(),
{
    if s.len() == 0 {
        assert(s.push(p).len() == 1);
        assert(s.push(p)[0] == p);
        assert(s.push(p).subrange(1, 1) =~= Seq::<PanelId>::empty());
        assert(round_script(s.push(p)) == highlight_cycle(p) + round_script(
            Seq::<PanelId>::empty(),
        ));
        assert(round_script(Seq::<PanelId>::empty()) == Seq::<Action>::empty());
        assert(highlight_cycle(p) + Seq::<Action>::empty() =~= highlight_cycle(p));
        assert(round_script(s) == Seq::<Action>::empty());
        assert(Seq::<Action>::empty() + highlight_cycle(p) =~= highlight_cycle(p));
    } else {
        let t = s.subrange(1, s.len() as int);
        assert(s.push(p).subrange(1, s.push(p).len() as int) =~= t.push(p));
        lemma_round_script_snoc(t, p);
        assert(highlight_cycle(s[0]) + (round_script(t) + highlight_cycle(p)) =~= (
        highlight_cycle(s[0]) + round_script(t)) + highlight_cycle(p));
    }
}

/// The action list that replays the given sequence: the highlight cycle of
/// every panel, in insertion order.
fn round_actions(s: &Sequence) -> (acts: Vec<Action>)
    ensures
        acts@ == round_script(s@),
{
    let mut acts: Vec<Action> = Vec::new();
    let n = s.current_length();
    proof {
        assert(s@.subrange(0, 0) =~= Seq::<PanelId>::empty());
    }
    for i in 0..n
        invariant
            n == s@.len(),
            acts@ == round_script(s@.subrange(0, i as int)),
    {
        let p = s.panel_at(i);
        acts.push(Action::MarkActive(p));
        acts.push(Action::Wait);
        acts.push(Action::MarkInactive(p));
        proof {
            let pre = s@.subrange(0, i as int);
            lemma_round_script_snoc(pre, s@[i as int]);
            assert(s@.subrange(0, i as int + 1) =~= pre.push(s@[i as int]));
            assert(acts@ =~= round_script(pre) + highlight_cycle(s@[i as int]));
        }
    }
    proof {
        assert(s@.subrange(0, n as int) =~= s@);
    }
    acts
}

/// Phase of the playback driver: the one-time intro animation, then the
/// round loop, then the terminal state once the terminating panel has been
/// played.
#[derive(Clone, Copy, Debug, PartialEq, Eq, Structural)]
pub enum Phase {
    Intro,
    Playing,
    Ended,
}

/// The state of one game session: the growing sequence and the current
/// phase. Created once per session and discarded when playback ends.
pub struct Game {
    sequence: Sequence,
    phase: Phase,
}

impl Game {
    /// The panels appended so far, in insertion order.
    pub closed spec fn panels(self) -> Seq<PanelId> {
        self.sequence@
    }

    /// The current phase of the driver.
    pub closed spec fn phase(self) -> Phase {
        self.phase
    }

    /// Well-formedness: the game has ended exactly when the terminating
    /// panel has entered the sequence, and no panel is appended before the
    /// intro has run.
    pub open spec fn wf(self) -> bool {
        &&& self.phase() is Ended <==> self.panels().contains(TERMINATING_PANEL)
        &&& self.phase() is Intro ==> self.panels().len() == 0
    }

    /// A fresh session: empty sequence, intro still to play.
    pub fn new() -> (g: Game)
        ensures
            g.wf(),
            g.phase() is Intro,
            g.panels() == Seq::<PanelId>::empty(),
    {
        Game { sequence: Sequence::new(), phase: Phase::Intro }
    }

    /// The number of panels in the sequence, shown as the running score.
    pub fn current_length(&self) -> (n: usize)
        ensures
            n == self.panels().len(),
    {
        self.sequence.current_length()
    }

    /// The current phase of the driver.
    pub fn current_phase(&self) -> (ph: Phase)
        ensures
            ph == self.phase(),
    {
        self.phase
    }

    /// Play the one-time intro: the returned actions are exactly the fixed
    /// intro script, the sequence is untouched, and the driver moves
    /// unconditionally to the round loop.
    pub fn run_game_intro(&mut self) -> (acts: Vec<Action>)
        requires
            old(self).wf(),
            old(self).phase() is Intro,
        ensures
            final(self).wf(),
            final(self).phase() is Playing,
            final(self).panels() == old(self).panels(),
            acts@ == intro_script(),
    {
        let mut acts: Vec<Action> = Vec::new();
        acts.push(Action::MarkActive(PanelId::Green));
        acts.push(Action::Wait);
        acts.push(Action::MarkInactive(PanelId::Green));
        acts.push(Action::MarkActive(PanelId::Red));
        acts.push(Action::Wait);
        acts.push(Action::MarkInactive(PanelId::Red));
        acts.push(Action::MarkActive(PanelId::Yellow));
        acts.push(Action::Wait);
        acts.push(Action::MarkInactive(PanelId::Yellow));
        acts.push(Action::MarkActive(PanelId::Blue));
        acts.push(Action::Wait);
        acts.push(Action::MarkInactive(PanelId::Blue));
        acts.push(Action::Wait);
        let mut flash1 = set_all_active_then_reset();
        acts.append(&mut flash1);
        let mut flash2 = set_all_active_then_reset();
        acts.append(&mut flash2);
        let mut flash3 = set_all_active_then_reset();
        acts.append(&mut flash3);
        proof {
            assert(acts@ =~= intro_script());
        }
        self.phase = Phase::Playing;
        acts
    }

    /// Play one round with the given freshly drawn panel: the panel is
    /// appended to the sequence, the whole sequence is replayed in insertion
    /// order, and the game ends exactly when the drawn panel is the
    /// terminating one.
    pub fn play_round(&mut self, drawn: PanelId) -> (acts: Vec<Action>)
        requires
            old(self).wf(),
            old(self).phase() is Playing,
        ensures
            final(self).wf(),
            final(self).panels() == old(self).panels().push(drawn),
            acts@ == round_script(final(self).panels()),
            final(self).phase() == (if drawn == TERMINATING_PANEL {
                Phase::Ended
            } else {
                Phase::Playing
            }),
    {
        self.sequence.append(drawn);
        let acts = round_actions(&self.sequence);
        proof {
            let s0 = old(self).panels();
            let s1 = self.sequence@;
            if drawn == TERMINATING_PANEL {
                assert(s1[s1.len() - 1] == TERMINATING_PANEL);
                assert(s1.contains(TERMINATING_PANEL));
            } else {
                assert forall|i: int| 0 <= i < s1.len() implies s1[i] != TERMINATING_PANEL by {
                    if i < s0.len() {
                        assert(!s0.contains(TERMINATING_PANEL));
                        assert(s1[i] == s0[i]);
                    }
                }
                assert(!s1.contains(TERMINATING_PANEL));
            }
        }
        if drawn == TERMINATING_PANEL {
            self.phase = Phase::Ended;
        }
        acts
    }

    /// Play one round with a panel drawn at random from the four-panel
    /// domain: the sequence grows by exactly one with its existing elements
    /// unchanged, the whole new sequence is replayed, and the game ends
    /// exactly when the drawn panel is the terminating one.
    pub fn play_round_random(&mut self) -> (acts: Vec<Action>)
        requires
            old(self).wf(),
            old(self).phase() is Playing,
        ensures
            final(self).wf(),
            final(self).panels().len() == old(self).panels().len() + 1,
            final(self).panels().subrange(0, old(self).panels().len() as int) == old(
                self,
            ).panels(),
            acts@ == round_script(final(self).panels()),
            final(self).phase() == (if final(self).panels().last() == TERMINATING_PANEL {
                Phase::Ended
            } else {
                Phase::Playing
            }),
    {
        let drawn = random_panel();
        let acts = self.play_round(drawn);
        proof {
            assert(self.panels().subrange(0, old(self).panels().len() as int) =~= old(
                self,
            ).panels());
        }
        acts
    }
}

} // verus!
