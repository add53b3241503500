//! The window session: how the event loop reacts to each window event.
use vstd::prelude::*;

verus! {

/// The presentable size of the window.
#[derive(PartialEq, Eq, Structural, Clone, Copy, Debug)]
pub struct Extent {
    pub width: u32,
    pub height: u32,
}

/// An event delivered for the session's own window.
#[derive(PartialEq, Eq, Structural, Clone, Copy, Debug)]
pub enum WindowEvent {
    CloseRequested,
    Resized(u32, u32),
    RedrawRequested,
    Other,
}

/// What the loop does after handling an event.
#[derive(PartialEq, Eq, Structural, Clone, Copy, Debug)]
pub enum Reaction {
    /// Keep waiting for the next event.
    Wait,
    /// Keep waiting; a frame would be drawn here.
    Redraw,
    /// Leave the loop.
    Exit,
}

/// The session's state: running or terminated, and the tracked extent.
#[derive(PartialEq, Eq, Structural, Clone, Copy, Debug)]
pub struct Session {
    pub running: bool,
    pub extent: Extent,
}

/// The session after `e` arrives in `s`; a terminated session stays as it is.
pub open spec fn next_session(s: Session, e: WindowEvent) -> Session {
    if !s.running {
        s
    } else {
        match e {
            WindowEvent::CloseRequested => Session { running: false, extent: s.extent },
            WindowEvent::Resized(w, h) => Session { running: true, extent: Extent { width: w, height: h } },
            _ => s,
        }
    }
}

/// The loop's reaction to `e` arriving in `s`.
pub open spec fn reaction(s: Session, e: WindowEvent) -> Reaction {
    if !s.running {
        Reaction::Exit
    } else {
        match e {
            WindowEvent::CloseRequested => Reaction::Exit,
            WindowEvent::RedrawRequested => Reaction::Redraw,
            _ => Reaction::Wait,
        }
    }
}

/// How many of `events` are handled: up to and including the first close
/// request, or all of them.
pub open spec fn dispatched_count(events: Seq<WindowEvent>) -> nat
    decreases events.len(),
{
    if events.len() == 0 {
        0
    } else if events[0] == WindowEvent::CloseRequested {
        1
    } else {
        1 + dispatched_count(events.drop_first())
    }
}

/// The session after handling `events` in order from `s`.
pub open spec fn run_session(s: Session, events: Seq<WindowEvent>) -> Session
    decreases events.len(),
{
    if events.len() == 0 {
        s
    } else {
        run_session(next_session(s, events[0]), events.drop_first())
    }
}

impl Session {
    /// A running session tracking the window's size at creation.
    pub fn new(width: u32, height: u32) -> (r: Session)
        ensures
            r.running,
            r.extent == (Extent { width, height }),
    {
        Session { running: true, extent: Extent { width, height } }
    }

    /// Reacts to one event: a close request terminates the session, a resize
    /// overwrites the tracked extent, everything else leaves the state alone.
    pub fn handle(&mut self, e: WindowEvent) -> (r: Reaction)
        ensures
            *final(self) == next_session(*old(self), e),
            r == reaction(*old(self), e),
    {
        if !self.running {
            return Reaction::Exit;
        }
        match e {
            WindowEvent::CloseRequested => {
                self.running = false;
                Reaction::Exit
            },
            WindowEvent::Resized(w, h) => {
                self.extent = Extent { width: w, height: h };
                Reaction::Wait
            },
            WindowEvent::RedrawRequested => Reaction::Redraw,
            WindowEvent::Other => Reaction::Wait,
        }
    }

    /// Feeds `events` to the session in order and stops after the first
    /// close request; returns how many events were handled.
    pub fn dispatch(&mut self, events: &Vec<WindowEvent>) -> (n: usize)
        requires
            old(self).running,
        ensures
            n == dispatched_count(events@),
            *final(self) == run_session(*old(self), events@.take(n as int)),
            final(self).running <==> !events@.contains(WindowEvent::CloseRequested),
    {
        let ghost s0 = *self;
        let mut i: usize = 0;
        assert(events@.skip(0) =~= events@);
        assert(events@.take(0) =~= Seq::<WindowEvent>::empty());
        while i < events.len()
            invariant
                i <= events@.len(),
                s0 == *old(self),
                self.running,
                forall|j: int| 0 <= j < i ==> events@[j] != WindowEvent::CloseRequested,
                *self == run_session(s0, events@.take(i as int)),
                dispatched_count(events@) == i + dispatched_count(events@.skip(i as int)),
            decreases events@.len() - i,
        {
            let e = events[i];
            let ghost pre = *self;
            proof {
                lemma_run_session_push(s0, events@.take(i as int), e);
                assert(events@.take(i as int).push(e) =~= events@.take(i + 1));
                assert(events@.skip(i as int).drop_first() =~= events@.skip(i + 1));
                assert(events@.skip(i as int)[0] == e);
            }
            self.handle(e);
            assert(*self == run_session(s0, events@.take(i + 1)));
            i = i + 1;
            if e == WindowEvent::CloseRequested {
                assert(events@.contains(WindowEvent::CloseRequested)) by {
                    assert(events@[i - 1] == WindowEvent::CloseRequested);
                }
                return i;
            }
        }
        proof {
            assert(events@.take(i as int) =~= events@);
            assert(events@.skip(i as int).len() == 0);
        }
        i
    }
}

proof fn lemma_run_session_push(s: Session, events: Seq<WindowEvent>, e: WindowEvent)
    ensures
        run_session(s, events.push(e)) == next_session(run_session(s, events), e),
    decreases events.len(),
{
    if events.len() > 0 {
        assert(events.push(e).drop_first() =~= events.drop_first().push(e));
        assert(events.push(e)[0] == events[0]);
        lemma_run_session_push(next_session(s, events[0]), events.drop_first(), e);
    } else {
        assert(events.push(e).drop_first() =~= events);
        assert(events.push(e)[0] == e);
        assert(run_session(next_session(s, e), events) == next_session(s, e));
    }
}

/// A close request terminates a running session and keeps its extent; once
/// terminated, no event changes it and the loop is told to exit.
pub proof fn lemma_close_is_final(s: Session, events: Seq<WindowEvent>)
    requires
        s.running,
    ensures
        !next_session(s, WindowEvent::CloseRequested).running,
        next_session(s, WindowEvent::CloseRequested).extent == s.extent,
        run_session(next_session(s, WindowEvent::CloseRequested), events)
            == next_session(s, WindowEvent::CloseRequested),
        forall|e: WindowEvent| reaction(next_session(s, WindowEvent::CloseRequested), e) == Reaction::Exit,
    decreases events.len(),
{
    let t = next_session(s, WindowEvent::CloseRequested);
    lemma_terminated_stays(t, events);
}

proof fn lemma_terminated_stays(t: Session, events: Seq<WindowEvent>)
    requires
        !t.running,
    ensures
        run_session(t, events) == t,
    decreases events.len(),
{
    if events.len() > 0 {
        lemma_terminated_stays(t, events.drop_first());
    }
}

/// A resize sets the tracked extent to exactly the new size and changes
/// nothing else.
pub proof fn lemma_resize_sets_extent(s: Session, w: u32, h: u32)
    requires
        s.running,
    ensures
        next_session(s, WindowEvent::Resized(w, h)).extent == (Extent { width: w, height: h }),
        next_session(s, WindowEvent::Resized(w, h)).running,
{
}

} // verus!
