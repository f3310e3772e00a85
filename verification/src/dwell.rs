//! Opening a popover once the pointer has rested on a widget: what each pointer or timer
//! event does to the hover state, and what the caller has to carry out.

use vstd::prelude::*;

verus! {

/// How long, in milliseconds, the pointer has to rest on a widget before its popover opens.
pub const DWELL_MS: u32 = 400;

/// The hover state of one widget.
#[derive(Debug, Clone, Copy, PartialEq, Eq, Structural)]
pub struct Dwell {
    /// A dwell timer is running.
    pub pending: bool,
    /// A popover opened by the widget is shown.
    pub shown: bool,
}

/// What happens to the widget.
#[derive(Debug, Clone, Copy, PartialEq, Eq, Structural)]
pub enum DwellEvent {
    /// The pointer entered the widget.
    Enter,
    /// The dwell timer ran out.
    Elapsed,
    /// The popover was asked for; `true` when one was shown.
    Opened(bool),
    /// The pointer left the widget.
    Leave,
    /// The widget left the screen.
    Unmap,
}

/// What the caller has to do.
#[derive(Debug, Clone, Copy, PartialEq, Eq, Structural)]
pub enum DwellAction {
    /// Remove the running dwell timer.
    CancelTimer,
    /// Start a dwell timer that runs out after this many milliseconds.
    StartTimer(u32),
    /// Ask for the popover, and report with `Opened`.
    Open,
    /// Close the shown popover.
    PopDown,
}

/// Nothing pending and nothing shown.
pub open spec fn idle() -> Dwell {
    Dwell { pending: false, shown: false }
}

/// The next state and the actions of one event. Entering restarts the timer, the timer
/// running out asks for the popover, and leaving or unmapping cancels the timer and closes
/// the popover.
pub open spec fn dwell_step(s: Dwell, e: DwellEvent) -> (Dwell, Seq<DwellAction>) {
    match e {
        DwellEvent::Enter => (
            Dwell { pending: true, shown: s.shown },
            (if s.pending { seq![DwellAction::CancelTimer] } else { Seq::empty() }).push(
                DwellAction::StartTimer(DWELL_MS),
            ),
        ),
        DwellEvent::Elapsed => (Dwell { pending: false, shown: s.shown }, seq![DwellAction::Open]),
        DwellEvent::Opened(got) => (Dwell { pending: s.pending, shown: got }, Seq::empty()),
        DwellEvent::Leave | DwellEvent::Unmap => (
            idle(),
            (if s.pending { seq![DwellAction::CancelTimer] } else { Seq::empty() }) + (if s.shown {
                seq![DwellAction::PopDown]
            } else {
                Seq::empty()
            }),
        ),
    }
}

/// How many times `a` stands in `actions`.
pub open spec fn count(actions: Seq<DwellAction>, a: DwellAction) -> nat
    decreases actions.len(),
{
    if actions.len() == 0 {
        0
    } else {
        count(actions.drop_last(), a) + if actions.last() == a {
            1nat
        } else {
            0nat
        }
    }
}

/// The states and actions of a run of events, from `s` on.
pub open spec fn dwell_run(s: Dwell, events: Seq<DwellEvent>) -> (Dwell, Seq<DwellAction>)
    decreases events.len(),
{
    if events.len() == 0 {
        (s, Seq::empty())
    } else {
        let (mid, first) = dwell_run(s, events.drop_last());
        let (next, last) = dwell_step(mid, events.last());
        (next, first + last)
    }
}

/// One for `true`, none for `false`.
pub open spec fn one_if(b: bool) -> nat {
    if b {
        1
    } else {
        0
    }
}

proof fn lemma_count_concat(a: Seq<DwellAction>, b: Seq<DwellAction>, x: DwellAction)
    ensures
        count(a + b, x) == count(a, x) + count(b, x),
    decreases b.len(),
{
    if b.len() > 0 {
        lemma_count_concat(a, b.drop_last(), x);
        assert((a + b).drop_last() =~= a + b.drop_last());
        assert((a + b).last() == b.last());
    } else {
        assert(a + b =~= a);
    }
}

/// The timers and popovers balance: every event keeps exactly one timer running while the
/// state says one is pending and none otherwise, never cancels a timer that is not running,
/// never closes a popover that is not shown, asks for the popover only when the timer runs
/// out, waits the dwell time with every timer it starts, and leaving or unmapping always
/// ends with nothing pending and nothing shown.
/// (A removed timer never runs out, hence the requirement on `Elapsed`.)
pub proof fn lemma_dwell_balance(s: Dwell, e: DwellEvent)
    requires
        e is Elapsed ==> s.pending,
    ensures
        one_if(s.pending) + count(dwell_step(s, e).1, DwellAction::StartTimer(DWELL_MS)) == one_if(
            dwell_step(s, e).0.pending,
        ) + count(dwell_step(s, e).1, DwellAction::CancelTimer) + one_if(e is Elapsed),
        count(dwell_step(s, e).1, DwellAction::CancelTimer) <= one_if(s.pending),
        count(dwell_step(s, e).1, DwellAction::StartTimer(DWELL_MS)) <= 1,
        forall|k: int|
            0 <= k < dwell_step(s, e).1.len() && (#[trigger] dwell_step(s, e).1[k]) is StartTimer
                ==> dwell_step(s, e).1[k] == DwellAction::StartTimer(DWELL_MS),
        count(dwell_step(s, e).1, DwellAction::PopDown) <= one_if(s.shown),
        count(dwell_step(s, e).1, DwellAction::Open) > 0 <==> e is Elapsed,
        (e is Leave || e is Unmap) ==> dwell_step(s, e).0 == idle(),
{
    let acts = dwell_step(s, e).1;
    let cancel: Seq<DwellAction> = if s.pending {
        seq![DwellAction::CancelTimer]
    } else {
        Seq::empty()
    };
    let pop: Seq<DwellAction> = if s.shown {
        seq![DwellAction::PopDown]
    } else {
        Seq::empty()
    };
    reveal_with_fuel(count, 3);
    assert(cancel.len() == 0 ==> cancel =~= Seq::<DwellAction>::empty());
    match e {
        DwellEvent::Enter => {
            lemma_count_concat(cancel, seq![DwellAction::StartTimer(DWELL_MS)], DwellAction::StartTimer(DWELL_MS));
            lemma_count_concat(cancel, seq![DwellAction::StartTimer(DWELL_MS)], DwellAction::CancelTimer);
            lemma_count_concat(cancel, seq![DwellAction::StartTimer(DWELL_MS)], DwellAction::PopDown);
            lemma_count_concat(cancel, seq![DwellAction::StartTimer(DWELL_MS)], DwellAction::Open);
            assert(acts =~= cancel + seq![DwellAction::StartTimer(DWELL_MS)]);
        },
        DwellEvent::Leave | DwellEvent::Unmap => {
            lemma_count_concat(cancel, pop, DwellAction::StartTimer(DWELL_MS));
            lemma_count_concat(cancel, pop, DwellAction::CancelTimer);
            lemma_count_concat(cancel, pop, DwellAction::PopDown);
            lemma_count_concat(cancel, pop, DwellAction::Open);
        },
        _ => {},
    }
}

/// Passing over a widget without resting on it never opens a popover: entering and leaving
/// again before the timer runs out ends with nothing pending and nothing shown, from
/// whatever state, and asks for no popover.
pub proof fn lemma_pass_over_opens_nothing(s: Dwell)
    ensures
        dwell_run(s, seq![DwellEvent::Enter, DwellEvent::Leave]).0 == idle(),
        count(dwell_run(s, seq![DwellEvent::Enter, DwellEvent::Leave]).1, DwellAction::Open)
            == 0,
{
    let events = seq![DwellEvent::Enter, DwellEvent::Leave];
    let one = seq![DwellEvent::Enter];
    assert(events.drop_last() =~= one);
    assert(one.drop_last() =~= Seq::<DwellEvent>::empty());
    reveal_with_fuel(dwell_run, 2);
    let enter = dwell_step(s, DwellEvent::Enter);
    assert(dwell_run(s, one).1 =~= enter.1);
    lemma_dwell_balance(s, DwellEvent::Enter);
    lemma_dwell_balance(enter.0, DwellEvent::Leave);
    lemma_count_concat(enter.1, dwell_step(enter.0, DwellEvent::Leave).1, DwellAction::Open);
}

/// The state after the first `i` events of a run that starts with nothing pending or shown.
#[verifier::opaque]
pub open spec fn state_at(events: Seq<DwellEvent>, i: int) -> Dwell {
    dwell_run(idle(), events.take(i)).0
}

/// Whether the pointer entered at position `k`.
pub open spec fn enter_at(events: Seq<DwellEvent>, k: int) -> bool {
    events[k] is Enter
}

/// Whether the timer ran out at position `k`.
pub open spec fn elapsed_at(events: Seq<DwellEvent>, k: int) -> bool {
    events[k] is Elapsed
}

/// Whether position `k` reports on the popover.
pub open spec fn report_at(events: Seq<DwellEvent>, k: int) -> bool {
    events[k] is Opened
}

/// Whether the pointer left, or the widget left the screen, at position `k`.
pub open spec fn leave_at(events: Seq<DwellEvent>, k: int) -> bool {
    events[k] is Leave || events[k] is Unmap
}

/// A run the toolkit can deliver: the timer runs out only while it is pending, since a
/// removed timer never fires.
pub open spec fn timer_faithful(events: Seq<DwellEvent>) -> bool {
    forall|i: int| 0 <= i < events.len() && #[trigger] elapsed_at(events, i) ==> state_at(events, i).pending
}

/// Whether only popover reports came between positions `j` and `k`.
pub open spec fn only_reports(events: Seq<DwellEvent>, j: int, k: int) -> bool {
    forall|m: int| j < m < k ==> #[trigger] report_at(events, m)
}

/// Whether the pointer entered before position `k` and nothing but popover reports came
/// since: an uninterrupted dwell.
pub open spec fn dwelt(events: Seq<DwellEvent>, k: int) -> bool {
    exists|j: int| 0 <= j < k && #[trigger] enter_at(events, j) && only_reports(events, j, k)
}

proof fn lemma_state_at_step(events: Seq<DwellEvent>, i: int)
    requires
        0 <= i < events.len(),
    ensures
        state_at(events, i + 1) == dwell_step(state_at(events, i), events[i]).0,
{
    reveal(state_at);
    assert(events.take(i + 1).drop_last() =~= events.take(i));
    assert(events.take(i + 1).last() == events[i]);
}

/// A timer is pending exactly while the pointer dwells: after an enter, with nothing but
/// popover reports since.
proof fn lemma_pending_iff_dwelt(events: Seq<DwellEvent>, i: int)
    requires
        0 <= i <= events.len(),
    ensures
        state_at(events, i).pending == dwelt(events, i),
    decreases i,
{
    if i == 0 {
        reveal(state_at);
        assert(events.take(0) =~= Seq::<DwellEvent>::empty());
    } else {
        let k = i - 1;
        lemma_pending_iff_dwelt(events, k);
        lemma_state_at_step(events, k);
        match events[k] {
            DwellEvent::Enter => {
                assert(only_reports(events, k, i));
                assert(enter_at(events, k));
                assert(dwelt(events, i));
            },
            DwellEvent::Opened(_) => {
                if dwelt(events, k) {
                    let j = choose|j: int| 0 <= j < k && #[trigger] enter_at(events, j) && only_reports(events, j, k);
                    assert(only_reports(events, j, i));
                }
                if dwelt(events, i) {
                    let j = choose|j: int| 0 <= j < i && #[trigger] enter_at(events, j) && only_reports(events, j, i);
                    assert(j != k);
                    assert(only_reports(events, j, k));
                }
            },
            _ => {
                if dwelt(events, i) {
                    let j = choose|j: int| 0 <= j < i && #[trigger] enter_at(events, j) && only_reports(events, j, i);
                    if j < k {
                        assert(report_at(events, k));
                    }
                }
            },
        }
    }
}

proof fn lemma_open_iff_elapsed(events: Seq<DwellEvent>)
    requires
        timer_faithful(events),
    ensures
        forall|k: int|
            0 <= k < events.len() ==> (count(
                dwell_step(state_at(events, k), #[trigger] events[k]).1,
                DwellAction::Open,
            ) > 0 <==> elapsed_at(events, k)),
{
    assert forall|k: int| 0 <= k < events.len() implies (count(
        dwell_step(state_at(events, k), #[trigger] events[k]).1,
        DwellAction::Open,
    ) > 0 <==> elapsed_at(events, k)) by {
        if elapsed_at(events, k) {
            assert(state_at(events, k).pending);
        }
        lemma_dwell_balance(state_at(events, k), events[k]);
    }
}

proof fn lemma_elapsed_after_dwell(events: Seq<DwellEvent>)
    requires
        timer_faithful(events),
    ensures
        forall|k: int| 0 <= k < events.len() && #[trigger] elapsed_at(events, k) ==> dwelt(events, k),
{
    assert forall|k: int| 0 <= k < events.len() && #[trigger] elapsed_at(events, k) implies dwelt(
        events,
        k,
    ) by {
        lemma_pending_iff_dwelt(events, k);
    }
}

proof fn lemma_once_per_enter(events: Seq<DwellEvent>)
    requires
        timer_faithful(events),
    ensures
        forall|k1: int, k2: int|
            0 <= k1 < k2 < events.len() && #[trigger] elapsed_at(events, k1)
                && #[trigger] elapsed_at(events, k2) ==> exists|j: int|
                k1 < j < k2 && #[trigger] enter_at(events, j),
{
    assert forall|k1: int, k2: int|
        0 <= k1 < k2 < events.len() && #[trigger] elapsed_at(events, k1)
            && #[trigger] elapsed_at(events, k2) implies exists|j: int|
        k1 < j < k2 && #[trigger] enter_at(events, j) by {
        lemma_pending_iff_dwelt(events, k2);
        let j = choose|j: int| 0 <= j < k2 && #[trigger] enter_at(events, j) && only_reports(events, j, k2);
        if j < k1 {
            assert(report_at(events, k1));
        }
        assert(k1 < j);
    }
}

proof fn lemma_leave_resets(events: Seq<DwellEvent>)
    ensures
        forall|k: int|
            0 <= k < events.len() && #[trigger] leave_at(events, k) ==> {
                &&& state_at(events, k + 1) == idle()
                &&& count(dwell_step(state_at(events, k), events[k]).1, DwellAction::CancelTimer)
                    == one_if(state_at(events, k).pending)
                &&& count(dwell_step(state_at(events, k), events[k]).1, DwellAction::PopDown)
                    == one_if(state_at(events, k).shown)
            },
{
    assert forall|k: int|
        0 <= k < events.len() && #[trigger] leave_at(events, k) implies {
        &&& state_at(events, k + 1) == idle()
        &&& count(dwell_step(state_at(events, k), events[k]).1, DwellAction::CancelTimer)
            == one_if(state_at(events, k).pending)
        &&& count(dwell_step(state_at(events, k), events[k]).1, DwellAction::PopDown)
            == one_if(state_at(events, k).shown)
    } by {
        lemma_state_at_step(events, k);
        lemma_leave_counts(state_at(events, k), events[k]);
    }
}

/// Over any run the toolkit can deliver, starting with nothing pending or shown: a step asks
/// for the popover exactly when the timer ran out; the timer runs out only after an
/// uninterrupted dwell (an enter, then nothing but popover reports); between two requests
/// for the popover the pointer entered again, so it is asked for at most once per enter; and
/// leaving or unmapping cancels the pending timer, closes the shown popover, and ends with
/// nothing pending or shown.
pub proof fn lemma_opens_only_after_dwell(events: Seq<DwellEvent>)
    requires
        timer_faithful(events),
    ensures
        forall|k: int|
            0 <= k < events.len() ==> (count(
                dwell_step(state_at(events, k), #[trigger] events[k]).1,
                DwellAction::Open,
            ) > 0 <==> elapsed_at(events, k)),
        forall|k: int| 0 <= k < events.len() && #[trigger] elapsed_at(events, k) ==> dwelt(events, k),
        forall|k1: int, k2: int|
            0 <= k1 < k2 < events.len() && #[trigger] elapsed_at(events, k1)
                && #[trigger] elapsed_at(events, k2) ==> exists|j: int|
                k1 < j < k2 && #[trigger] enter_at(events, j),
        forall|k: int|
            0 <= k < events.len() && #[trigger] leave_at(events, k) ==> {
                &&& state_at(events, k + 1) == idle()
                &&& count(dwell_step(state_at(events, k), events[k]).1, DwellAction::CancelTimer)
                    == one_if(state_at(events, k).pending)
                &&& count(dwell_step(state_at(events, k), events[k]).1, DwellAction::PopDown)
                    == one_if(state_at(events, k).shown)
            },
{
    lemma_open_iff_elapsed(events);
    lemma_elapsed_after_dwell(events);
    lemma_once_per_enter(events);
    lemma_leave_resets(events);
}

proof fn lemma_leave_counts(s: Dwell, e: DwellEvent)
    requires
        e is Leave || e is Unmap,
    ensures
        count(dwell_step(s, e).1, DwellAction::CancelTimer) == one_if(s.pending),
        count(dwell_step(s, e).1, DwellAction::PopDown) == one_if(s.shown),
{
    let cancel: Seq<DwellAction> = if s.pending {
        seq![DwellAction::CancelTimer]
    } else {
        Seq::empty()
    };
    let pop: Seq<DwellAction> = if s.shown {
        seq![DwellAction::PopDown]
    } else {
        Seq::empty()
    };
    reveal_with_fuel(count, 2);
    lemma_count_concat(cancel, pop, DwellAction::CancelTimer);
    lemma_count_concat(cancel, pop, DwellAction::PopDown);
}

impl Dwell {
    /// No timer and no popover.
    pub fn new() -> (s: Dwell)
        ensures
            s == idle(),
    {
        Dwell { pending: false, shown: false }
    }

    /// Applies one event: returns the next state and what the caller has to do, in order.
    pub fn step(self, event: DwellEvent) -> (r: (Dwell, Vec<DwellAction>))
        ensures
            r.0 == dwell_step(self, event).0,
            r.1@ == dwell_step(self, event).1,
    {
        let mut actions: Vec<DwellAction> = Vec::new();
        match event {
            DwellEvent::Enter => {
                if self.pending {
                    actions.push(DwellAction::CancelTimer);
                }
                actions.push(DwellAction::StartTimer(DWELL_MS));
                (Dwell { pending: true, shown: self.shown }, actions)
            },
            DwellEvent::Elapsed => {
                actions.push(DwellAction::Open);
                (Dwell { pending: false, shown: self.shown }, actions)
            },
            DwellEvent::Opened(got) => (Dwell { pending: self.pending, shown: got }, actions),
            DwellEvent::Leave | DwellEvent::Unmap => {
                if self.pending {
                    actions.push(DwellAction::CancelTimer);
                }
                if self.shown {
                    actions.push(DwellAction::PopDown);
                }
                proof {
                    let a = if self.pending {
                        seq![DwellAction::CancelTimer]
                    } else {
                        Seq::empty()
                    };
                    let b = if self.shown {
                        seq![DwellAction::PopDown]
                    } else {
                        Seq::empty()
                    };
                    assert(actions@ =~= a + b);
                }
                (Dwell { pending: false, shown: false }, actions)
            },
        }
    }
}

} // verus!
