use vstd::prelude::*;

verus! {

/// Number of note lengths the tempo selector offers.
pub const TEMPO_COUNT: usize = 6;

/// The switches and the tempo selector of the panel.
#[derive(Clone, Copy, Debug, PartialEq, Eq, Structural)]
pub struct Controls {
    /// Index into the note lengths `1/32, 1/16, 1/8, 1/4, 1/2, 1/1`.
    pub tempo_index: usize,
    /// Studio mode when set, creative mode when clear.
    pub studio_mode: bool,
    pub auto_gain: bool,
    pub brightness_active: bool,
    pub color_active: bool,
    pub sparkle_active: bool,
}

/// What the user can do to the controls in one gesture.
#[derive(Clone, Copy, Debug, PartialEq, Eq, Structural)]
pub enum ControlEvent {
    ToggleStudioMode,
    ToggleAutoGain,
    ToggleBrightness,
    ToggleColor,
    ToggleSparkle,
    /// A drag that selects the next shorter note length.
    TempoShorter,
    /// A drag that selects the next longer note length.
    TempoLonger,
}

impl ControlEvent {
    /// The event flips one of the switches.
    pub open spec fn is_toggle(self) -> bool {
        !(self is TempoShorter) && !(self is TempoLonger)
    }
}

/// Tempo index after a step towards shorter notes: one less, stopping at the first.
pub open spec fn shorter_index(i: usize) -> usize {
    if i > 0 { (i - 1) as usize } else { i }
}

/// Tempo index after a step towards longer notes: one more, stopping at the last.
pub open spec fn longer_index(i: usize) -> usize {
    if i < TEMPO_COUNT - 1 { (i + 1) as usize } else { i }
}

/// The state that an event leads to.
pub open spec fn next_state(s: Controls, e: ControlEvent) -> Controls {
    match e {
        ControlEvent::ToggleStudioMode => Controls { studio_mode: !s.studio_mode, ..s },
        ControlEvent::ToggleAutoGain => Controls { auto_gain: !s.auto_gain, ..s },
        ControlEvent::ToggleBrightness => Controls { brightness_active: !s.brightness_active, ..s },
        ControlEvent::ToggleColor => Controls { color_active: !s.color_active, ..s },
        ControlEvent::ToggleSparkle => Controls { sparkle_active: !s.sparkle_active, ..s },
        ControlEvent::TempoShorter => Controls { tempo_index: shorter_index(s.tempo_index), ..s },
        ControlEvent::TempoLonger => Controls { tempo_index: longer_index(s.tempo_index), ..s },
    }
}

/// The state that a sequence of events leads to, taken in order.
pub open spec fn run_events(s: Controls, events: Seq<ControlEvent>) -> Controls
    decreases events.len(),
{
    if events.len() == 0 {
        s
    } else {
        next_state(run_events(s, events.drop_last()), events.last())
    }
}

/// The label of the note length at a tempo index.
pub open spec fn tempo_label_at(i: int) -> Seq<char> {
    if i == 0 {
        "1/32"@
    } else if i == 1 {
        "1/16"@
    } else if i == 2 {
        "1/8"@
    } else if i == 3 {
        "1/4"@
    } else if i == 4 {
        "1/2"@
    } else {
        "1/1"@
    }
}

/// The panel as it first appears.
pub open spec fn initial_controls() -> Controls {
    Controls {
        tempo_index: 2,
        studio_mode: true,
        auto_gain: true,
        brightness_active: false,
        color_active: false,
        sparkle_active: false,
    }
}

impl Default for Controls {
    /// Tempo `1/8`, studio mode and auto gain on, the three filters off.
    fn default() -> (c: Controls)
        ensures
            c == initial_controls(),
            c.tempo_index == 2,
            c.studio_mode && c.auto_gain,
            !c.brightness_active && !c.color_active && !c.sparkle_active,
    {
        Controls {
            tempo_index: 2,
            studio_mode: true,
            auto_gain: true,
            brightness_active: false,
            color_active: false,
            sparkle_active: false,
        }
    }
}

impl Controls {
    /// The tempo index names one of the note lengths.
    pub open spec fn wf(self) -> bool {
        self.tempo_index < TEMPO_COUNT
    }

    /// Flips the studio / creative mode switch.
    pub fn toggle_studio_mode(&mut self)
        ensures
            *final(self) == (Controls { studio_mode: !old(self).studio_mode, ..*old(self) }),
    {
        self.studio_mode = !self.studio_mode;
    }

    /// Flips the auto gain switch.
    pub fn toggle_auto_gain(&mut self)
        ensures
            *final(self) == (Controls { auto_gain: !old(self).auto_gain, ..*old(self) }),
    {
        self.auto_gain = !self.auto_gain;
    }

    /// Flips the brightness filter.
    pub fn toggle_brightness(&mut self)
        ensures
            *final(self) == (Controls { brightness_active: !old(self).brightness_active, ..*old(self) }),
    {
        self.brightness_active = !self.brightness_active;
    }

    /// Flips the colour filter.
    pub fn toggle_color(&mut self)
        ensures
            *final(self) == (Controls { color_active: !old(self).color_active, ..*old(self) }),
    {
        self.color_active = !self.color_active;
    }

    /// Flips the sparkle filter.
    pub fn toggle_sparkle(&mut self)
        ensures
            *final(self) == (Controls { sparkle_active: !old(self).sparkle_active, ..*old(self) }),
    {
        self.sparkle_active = !self.sparkle_active;
    }

    /// Selects the next shorter note length; the shortest stays selected.
    pub fn tempo_shorter(&mut self)
        ensures
            *final(self) == (Controls { tempo_index: shorter_index(old(self).tempo_index), ..*old(self) }),
            old(self).tempo_index > 0 ==> final(self).tempo_index == old(self).tempo_index - 1,
            old(self).tempo_index == 0 ==> final(self).tempo_index == 0,
    {
        if self.tempo_index > 0 {
            self.tempo_index -= 1;
        }
    }

    /// Selects the next longer note length; the longest stays selected.
    pub fn tempo_longer(&mut self)
        ensures
            *final(self) == (Controls { tempo_index: longer_index(old(self).tempo_index), ..*old(self) }),
            old(self).tempo_index < TEMPO_COUNT - 1 ==> final(self).tempo_index == old(self).tempo_index + 1,
            old(self).tempo_index >= TEMPO_COUNT - 1 ==> final(self).tempo_index == old(self).tempo_index,
    {
        if self.tempo_index < TEMPO_COUNT - 1 {
            self.tempo_index += 1;
        }
    }

    /// Applies one event.
    pub fn apply(&mut self, event: ControlEvent)
        ensures
            *final(self) == next_state(*old(self), event),
            event is ToggleStudioMode ==> *final(self) == (Controls { studio_mode: !old(self).studio_mode, ..*old(self) }),
            event is ToggleAutoGain ==> *final(self) == (Controls { auto_gain: !old(self).auto_gain, ..*old(self) }),
            event is ToggleBrightness ==> *final(self) == (Controls { brightness_active: !old(self).brightness_active, ..*old(self) }),
            event is ToggleColor ==> *final(self) == (Controls { color_active: !old(self).color_active, ..*old(self) }),
            event is ToggleSparkle ==> *final(self) == (Controls { sparkle_active: !old(self).sparkle_active, ..*old(self) }),
            event is TempoShorter ==> *final(self) == (Controls {
                tempo_index: if old(self).tempo_index > 0 { (old(self).tempo_index - 1) as usize } else { old(self).tempo_index },
                ..*old(self)
            }),
            event is TempoLonger ==> *final(self) == (Controls {
                tempo_index: if old(self).tempo_index < TEMPO_COUNT - 1 { (old(self).tempo_index + 1) as usize } else { old(self).tempo_index },
                ..*old(self)
            }),
    {
        match event {
            ControlEvent::ToggleStudioMode => self.toggle_studio_mode(),
            ControlEvent::ToggleAutoGain => self.toggle_auto_gain(),
            ControlEvent::ToggleBrightness => self.toggle_brightness(),
            ControlEvent::ToggleColor => self.toggle_color(),
            ControlEvent::ToggleSparkle => self.toggle_sparkle(),
            ControlEvent::TempoShorter => self.tempo_shorter(),
            ControlEvent::TempoLonger => self.tempo_longer(),
        }
    }

    /// Applies the events in order, as one frame of the panel collects them.
    pub fn apply_all(&mut self, events: &Vec<ControlEvent>)
        ensures
            *final(self) == run_events(*old(self), events@),
            events@.len() == 0 ==> *final(self) == *old(self),
            events@.len() == 1 ==> *final(self) == next_state(*old(self), events@[0]),
    {
        let ghost start = *self;
        let mut k: usize = 0;
        while k < events.len()
            invariant
                k <= events.len(),
                *self == run_events(start, events@.take(k as int)),
            decreases events.len() - k,
        {
            proof {
                assert(events@.take(k as int + 1).drop_last() == events@.take(k as int));
            }
            self.apply(events[k]);
            k += 1;
        }
        proof {
            assert(events@.take(events.len() as int) == events@);
            if events@.len() == 1 {
                assert(events@ == seq![events@[0]]);
                lemma_run_push(start, Seq::<ControlEvent>::empty(), events@[0]);
            }
        }
    }

    /// The label shown on the tempo knob.
    pub fn tempo_label(&self) -> (label: &'static str)
        requires
            self.wf(),
        ensures
            label@ == tempo_label_at(self.tempo_index as int),
    {
        if self.tempo_index == 0 {
            "1/32"
        } else if self.tempo_index == 1 {
            "1/16"
        } else if self.tempo_index == 2 {
            "1/8"
        } else if self.tempo_index == 3 {
            "1/4"
        } else if self.tempo_index == 4 {
            "1/2"
        } else {
            "1/1"
        }
    }

    /// How many sixths of the tempo ring are drawn: the ring fills one sixth
    /// more with each longer note length, and fully at the longest.
    pub fn tempo_progress_sixths(&self) -> (n: usize)
        requires
            self.wf(),
        ensures
            n == self.tempo_index + 1,
    {
        self.tempo_index + 1
    }
}

/// Every event keeps the tempo index on one of the note lengths.
pub proof fn lemma_event_keeps_wf(s: Controls, e: ControlEvent)
    requires
        s.wf(),
    ensures
        next_state(s, e).wf(),
{
}

/// Any sequence of events keeps the tempo index on one of the note lengths.
pub proof fn lemma_events_keep_wf(s: Controls, events: Seq<ControlEvent>)
    requires
        s.wf(),
    ensures
        run_events(s, events).wf(),
    decreases events.len(),
{
    if events.len() > 0 {
        lemma_events_keep_wf(s, events.drop_last());
        lemma_event_keeps_wf(run_events(s, events.drop_last()), events.last());
    }
}

/// The panel starts on a valid note length.
pub proof fn lemma_initial_wf()
    ensures
        initial_controls().wf(),
{
}

/// Clicking a switch twice leaves the panel as it was.
pub proof fn lemma_toggle_twice_restores(s: Controls, e: ControlEvent)
    requires
        e.is_toggle(),
    ensures
        next_state(next_state(s, e), e) == s,
{
}

/// Clicking a switch and any other gesture give the same panel in either order.
pub proof fn lemma_toggle_commutes(s: Controls, t: ControlEvent, e: ControlEvent)
    requires
        t.is_toggle(),
    ensures
        next_state(next_state(s, t), e) == next_state(next_state(s, e), t),
{
}

/// A step to a longer note undoes a step to a shorter one, except from the shortest.
pub proof fn lemma_longer_undoes_shorter(s: Controls)
    requires
        s.wf(),
        s.tempo_index > 0,
    ensures
        next_state(next_state(s, ControlEvent::TempoShorter), ControlEvent::TempoLonger) == s,
{
}

/// A step to a shorter note undoes a step to a longer one, except from the longest.
pub proof fn lemma_shorter_undoes_longer(s: Controls)
    requires
        s.tempo_index < TEMPO_COUNT - 1,
    ensures
        next_state(next_state(s, ControlEvent::TempoLonger), ControlEvent::TempoShorter) == s,
{
}

/// Running two sequences of events one after the other is running their concatenation.
pub proof fn lemma_run_concat(s: Controls, a: Seq<ControlEvent>, b: Seq<ControlEvent>)
    ensures
        run_events(s, a + b) == run_events(run_events(s, a), b),
    decreases b.len(),
{
    if b.len() == 0 {
        assert(a + b == a);
    } else {
        lemma_run_concat(s, a, b.drop_last());
        assert((a + b).drop_last() == a + b.drop_last());
        assert((a + b).last() == b.last());
    }
}

/// Different tempo indices show different note lengths.
pub proof fn lemma_tempo_labels_distinct(i: int, j: int)
    requires
        0 <= i < TEMPO_COUNT,
        0 <= j < TEMPO_COUNT,
        i != j,
    ensures
        tempo_label_at(i) != tempo_label_at(j),
{
    reveal_strlit("1/32");
    reveal_strlit("1/16");
    reveal_strlit("1/8");
    reveal_strlit("1/4");
    reveal_strlit("1/2");
    reveal_strlit("1/1");
    let li = tempo_label_at(i);
    let lj = tempo_label_at(j);
    if li.len() == lj.len() {
        if li.len() == 4 {
            assert(li[2] != lj[2] || li[3] != lj[3]);
        } else {
            assert(li[2] != lj[2]);
        }
    }
}

/// What each gesture does, field by field: a switch click flips exactly its
/// own switch, and a tempo drag moves the index by one towards shorter or
/// longer notes, staying put at the shortest or the longest.
pub proof fn lemma_event_effects(s: Controls)
    ensures
        next_state(s, ControlEvent::ToggleStudioMode) == (Controls { studio_mode: !s.studio_mode, ..s }),
        next_state(s, ControlEvent::ToggleAutoGain) == (Controls { auto_gain: !s.auto_gain, ..s }),
        next_state(s, ControlEvent::ToggleBrightness) == (Controls { brightness_active: !s.brightness_active, ..s }),
        next_state(s, ControlEvent::ToggleColor) == (Controls { color_active: !s.color_active, ..s }),
        next_state(s, ControlEvent::ToggleSparkle) == (Controls { sparkle_active: !s.sparkle_active, ..s }),
        s.tempo_index > 0 ==> next_state(s, ControlEvent::TempoShorter) == (Controls {
            tempo_index: (s.tempo_index - 1) as usize,
            ..s
        }),
        s.tempo_index == 0 ==> next_state(s, ControlEvent::TempoShorter) == s,
        s.tempo_index < TEMPO_COUNT - 1 ==> next_state(s, ControlEvent::TempoLonger) == (Controls {
            tempo_index: (s.tempo_index + 1) as usize,
            ..s
        }),
        s.tempo_index >= TEMPO_COUNT - 1 ==> next_state(s, ControlEvent::TempoLonger) == s,
{
}

/// A drag towards longer notes never selects a shorter one, and the other
/// way round; each moves the index by at most one.
pub proof fn lemma_tempo_steps_monotone(s: Controls)
    ensures
        s.tempo_index <= next_state(s, ControlEvent::TempoLonger).tempo_index <= s.tempo_index + 1,
        s.tempo_index - 1 <= next_state(s, ControlEvent::TempoShorter).tempo_index <= s.tempo_index,
{
}

/// Starting from the shortest note, each drag towards longer notes selects
/// the next index in turn, so every note length is reached and none is skipped.
pub proof fn lemma_longer_visits_every_length(s: Controls, k: nat)
    requires
        s.tempo_index == 0,
        k < TEMPO_COUNT,
    ensures
        run_events(s, Seq::new(k, |i: int| ControlEvent::TempoLonger)).tempo_index == k,
    decreases k,
{
    if k > 0 {
        let es = Seq::new(k, |i: int| ControlEvent::TempoLonger);
        lemma_longer_visits_every_length(s, (k - 1) as nat);
        assert(es.drop_last() == Seq::new((k - 1) as nat, |i: int| ControlEvent::TempoLonger));
    }
}

/// A frame's events are applied one after the other: the last one acts on
/// the state the others left, and a frame of one event is that event.
pub proof fn lemma_run_push(s: Controls, events: Seq<ControlEvent>, e: ControlEvent)
    ensures
        run_events(s, events.push(e)) == next_state(run_events(s, events), e),
        run_events(s, seq![e]) == next_state(s, e),
        run_events(s, Seq::<ControlEvent>::empty()) == s,
{
    assert(events.push(e).drop_last() == events);
    assert(seq![e].drop_last() == Seq::<ControlEvent>::empty());
    assert(run_events(s, Seq::<ControlEvent>::empty()) == s);
    assert(run_events(s, seq![e].drop_last()) == s);
}

/// How many times `e` occurs in `events`.
pub open spec fn occurrences(events: Seq<ControlEvent>, e: ControlEvent) -> nat
    decreases events.len(),
{
    if events.len() == 0 {
        0
    } else {
        occurrences(events.drop_last(), e) + if events.last() == e { 1nat } else { 0nat }
    }
}

/// After a frame, each switch is flipped exactly when its click occurs an
/// odd number of times in the frame, whatever else happened.
pub proof fn lemma_switches_follow_click_parity(s: Controls, events: Seq<ControlEvent>)
    ensures
        run_events(s, events).studio_mode == (s.studio_mode != (occurrences(events, ControlEvent::ToggleStudioMode) % 2 == 1)),
        run_events(s, events).auto_gain == (s.auto_gain != (occurrences(events, ControlEvent::ToggleAutoGain) % 2 == 1)),
        run_events(s, events).brightness_active == (s.brightness_active != (occurrences(events, ControlEvent::ToggleBrightness) % 2 == 1)),
        run_events(s, events).color_active == (s.color_active != (occurrences(events, ControlEvent::ToggleColor) % 2 == 1)),
        run_events(s, events).sparkle_active == (s.sparkle_active != (occurrences(events, ControlEvent::ToggleSparkle) % 2 == 1)),
    decreases events.len(),
{
    if events.len() > 0 {
        lemma_switches_follow_click_parity(s, events.drop_last());
    }
}

/// A decimal numeral, most significant digit first.
pub open spec fn decimal(n: nat) -> Seq<char>
    decreases n,
{
    if n < 10 {
        seq![((48 + n) as u8) as char]
    } else {
        decimal(n / 10) + seq![((48 + n % 10) as u8) as char]
    }
}

/// The label at tempo index `i` is the note length 1/2^(5-i): each step
/// towards longer notes doubles the note length, from 1/32 to 1/1.
pub proof fn lemma_tempo_label_is_note_length(i: int)
    requires
        0 <= i < TEMPO_COUNT,
    ensures
        tempo_label_at(i) == "1/"@ + decimal(vstd::arithmetic::power2::pow2((5 - i) as nat)),
{
    vstd::arithmetic::power2::lemma2_to64();
    reveal_strlit("1/");
    reveal_strlit("1/32");
    reveal_strlit("1/16");
    reveal_strlit("1/8");
    reveal_strlit("1/4");
    reveal_strlit("1/2");
    reveal_strlit("1/1");
    reveal_with_fuel(decimal, 2);
    let n = vstd::arithmetic::power2::pow2((5 - i) as nat);
    if i == 0 {
        assert(n == 32);
        assert(decimal(3) == seq!['3']);
        assert(decimal(32) == seq!['3', '2']);
    } else if i == 1 {
        assert(n == 16);
        assert(decimal(1) == seq!['1']);
        assert(decimal(16) == seq!['1', '6']);
    } else if i == 2 {
        assert(n == 8);
        assert(decimal(8) == seq!['8']);
    } else if i == 3 {
        assert(n == 4);
        assert(decimal(4) == seq!['4']);
    } else if i == 4 {
        assert(n == 2);
        assert(decimal(2) == seq!['2']);
    } else {
        assert(n == 1);
        assert(decimal(1) == seq!['1']);
    }
    assert(tempo_label_at(i) =~= "1/"@ + decimal(n));
}

} // verus!
