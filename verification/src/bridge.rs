//! The single-owner wrapper around a finished screen: it takes ownership of
//! the screen, freezes the set of identities that exist at that moment, and
//! applies output commands one at a time, in order. Handles are counted: each
//! clone raises the live count, each drop lowers it, and the owning side
//! terminates when the count reaches zero or on an explicit kill. Because one
//! owner applies every command fully before the next, a caller that runs the
//! commands through a queue and a dedicated thread observes exactly the
//! behavior specified here.

use vstd::prelude::*;
use crate::{Screen, ScreenError};
use crate::render::render_screen;

verus! {

/// The owning side of the wrapper: the screen, the frozen identity snapshot,
/// and the handle bookkeeping.
pub struct Bridge {
    screen: Screen,
    snapshot: usize,
    live_handles: usize,
    running: bool,
}

impl Bridge {
    /// The owned screen.
    pub closed spec fn spec_screen(self) -> Screen {
        self.screen
    }

    /// Number of identities frozen when the bridge was created: exactly the
    /// identities `0..snapshot_count` accept commands.
    pub closed spec fn snapshot_count(self) -> int {
        self.snapshot as int
    }

    /// Number of live handles.
    pub closed spec fn live_count(self) -> int {
        self.live_handles as int
    }

    /// Whether the owning side still accepts commands.
    pub closed spec fn spec_running(self) -> bool {
        self.running
    }

    pub open spec fn wf(self) -> bool {
        &&& self.spec_screen().wf()
        &&& self.snapshot_count() == self.spec_screen().spec_count()
    }

    /// Takes ownership of `screen` and freezes the identities that exist now.
    /// No window can be split afterwards; the live count starts at one.
    pub fn new(screen: Screen) -> (b: Bridge)
        requires
            screen.wf(),
        ensures
            b.wf(),
            b.spec_screen() == screen,
            b.snapshot_count() == screen.spec_count(),
            b.live_count() == 1,
            b.spec_running(),
    {
        let snapshot = screen.count();
        Bridge { screen, snapshot, live_handles: 1, running: true }
    }

    /// Checks `id` against the frozen snapshot, with no need to consult the
    /// screen: `Ok` exactly when `id < snapshot_count`.
    fn validate_id(&self, id: usize) -> (r: Result<(), ScreenError>)
        ensures
            r is Ok <==> id < self.snapshot_count(),
            r is Err ==> r == Err::<(), ScreenError>(ScreenError::NotFound),
    {
        if id < self.snapshot {
            Ok(())
        } else {
            Err(ScreenError::NotFound)
        }
    }

    /// Prints `msg` and seals the line in window `id` (see `Screen::println`).
    /// An identity outside the snapshot is rejected without touching the
    /// screen, terminated or not; a snapshotted identity always succeeds,
    /// because the snapshot names only windows that exist. Delivering a
    /// command to a terminated owner is a usage error and is excluded.
    pub fn println(&mut self, id: usize, msg: &str) -> (r: Result<(), ScreenError>)
        requires
            old(self).wf(),
            old(self).spec_running() || id >= old(self).snapshot_count(),
        ensures
            final(self).wf(),
            final(self).snapshot_count() == old(self).snapshot_count(),
            final(self).live_count() == old(self).live_count(),
            final(self).spec_running() == old(self).spec_running(),
            r is Ok <==> id < old(self).snapshot_count(),
            id >= old(self).snapshot_count() ==> r == Err::<(), ScreenError>(ScreenError::NotFound)
                && final(self).spec_screen() == old(self).spec_screen(),
            id < old(self).snapshot_count() ==> {
                &&& Screen::only_buffer_changed(
                    old(self).spec_screen(),
                    final(self).spec_screen(),
                    id as int,
                )
                &&& crate::buffer_printed_line(
                    old(self).spec_screen().windows_model()[id as int]->Some_0.buffer,
                    final(self).spec_screen().windows_model()[id as int]->Some_0.buffer,
                    msg@,
                )
                &&& final(self).spec_screen().grid_model() == render_screen(
                    final(self).spec_screen().windows_model(),
                    old(self).spec_screen().spec_width(),
                    old(self).spec_screen().spec_height(),
                    old(self).spec_screen().grid_model(),
                )
            },
    {
        if let Err(e) = self.validate_id(id) {
            return Err(e);
        }
        let r = self.screen.println(id, msg);
        r
    }

    /// Prints `msg` in window `id` without sealing the line (see
    /// `Screen::print`).
    pub fn print(&mut self, id: usize, msg: &str) -> (r: Result<(), ScreenError>)
        requires
            old(self).wf(),
            old(self).spec_running() || id >= old(self).snapshot_count(),
        ensures
            final(self).wf(),
            final(self).snapshot_count() == old(self).snapshot_count(),
            final(self).live_count() == old(self).live_count(),
            final(self).spec_running() == old(self).spec_running(),
            r is Ok <==> id < old(self).snapshot_count(),
            id >= old(self).snapshot_count() ==> r == Err::<(), ScreenError>(ScreenError::NotFound)
                && final(self).spec_screen() == old(self).spec_screen(),
            id < old(self).snapshot_count() ==> {
                &&& Screen::only_buffer_changed(
                    old(self).spec_screen(),
                    final(self).spec_screen(),
                    id as int,
                )
                &&& final(self).spec_screen().grid_model() == old(
                    self,
                ).spec_screen().grid_model()
                &&& crate::buffer_appended(
                    old(self).spec_screen().windows_model()[id as int]->Some_0.buffer,
                    final(self).spec_screen().windows_model()[id as int]->Some_0.buffer,
                    msg@,
                )
            },
    {
        if let Err(e) = self.validate_id(id) {
            return Err(e);
        }
        let r = self.screen.print(id, msg);
        r
    }

    /// Seals the open line of window `id` and re-renders (see
    /// `Screen::flush`).
    pub fn flush(&mut self, id: usize) -> (r: Result<(), ScreenError>)
        requires
            old(self).wf(),
            old(self).spec_running() || id >= old(self).snapshot_count(),
        ensures
            final(self).wf(),
            final(self).snapshot_count() == old(self).snapshot_count(),
            final(self).live_count() == old(self).live_count(),
            final(self).spec_running() == old(self).spec_running(),
            r is Ok <==> id < old(self).snapshot_count(),
            id >= old(self).snapshot_count() ==> r == Err::<(), ScreenError>(ScreenError::NotFound)
                && final(self).spec_screen() == old(self).spec_screen(),
            id < old(self).snapshot_count() ==> {
                &&& Screen::only_buffer_changed(
                    old(self).spec_screen(),
                    final(self).spec_screen(),
                    id as int,
                )
                &&& crate::buffer_flushed(
                    old(self).spec_screen().windows_model()[id as int]->Some_0.buffer,
                    final(self).spec_screen().windows_model()[id as int]->Some_0.buffer,
                )
                &&& final(self).spec_screen().grid_model() == render_screen(
                    final(self).spec_screen().windows_model(),
                    old(self).spec_screen().spec_width(),
                    old(self).spec_screen().spec_height(),
                    old(self).spec_screen().grid_model(),
                )
            },
    {
        if let Err(e) = self.validate_id(id) {
            return Err(e);
        }
        let r = self.screen.flush(id);
        r
    }

    /// Ends the owning side unconditionally, whatever the live count; later
    /// commands from any handle would be undeliverable.
    pub fn kill(&mut self)
        requires
            old(self).wf(),
            old(self).spec_running(),
        ensures
            final(self).wf(),
            !final(self).spec_running(),
            final(self).spec_screen() == old(self).spec_screen(),
            final(self).snapshot_count() == old(self).snapshot_count(),
            final(self).live_count() == old(self).live_count(),
    {
        self.running = false;
    }

    /// Registers one more live handle, as cloning a handle does.
    pub fn clone_handle(&mut self)
        requires
            old(self).wf(),
            old(self).spec_running(),
            old(self).live_count() < usize::MAX,
        ensures
            final(self).wf(),
            final(self).live_count() == old(self).live_count() + 1,
            final(self).spec_running(),
            final(self).spec_screen() == old(self).spec_screen(),
            final(self).snapshot_count() == old(self).snapshot_count(),
    {
        self.live_handles = self.live_handles + 1;
    }

    /// Registers that one live handle was dropped. When the last handle goes,
    /// the owning side terminates on its own, with no explicit kill.
    pub fn drop_handle(&mut self)
        requires
            old(self).wf(),
            old(self).spec_running(),
            old(self).live_count() > 0,
        ensures
            final(self).wf(),
            final(self).live_count() == old(self).live_count() - 1,
            final(self).spec_running() == (old(self).live_count() > 1),
            final(self).spec_screen() == old(self).spec_screen(),
            final(self).snapshot_count() == old(self).snapshot_count(),
    {
        self.live_handles = self.live_handles - 1;
        if self.live_handles == 0 {
            self.running = false;
        }
    }

    /// Number of live handles.
    pub fn handle_count(&self) -> (n: usize)
        ensures
            n == self.live_count(),
    {
        self.live_handles
    }

    /// Whether the owning side still accepts commands.
    pub fn is_running(&self) -> (b: bool)
        ensures
            b == self.spec_running(),
    {
        self.running
    }

    /// Borrows the owned screen.
    pub fn screen(&self) -> (s: &Screen)
        ensures
            *s == self.spec_screen(),
    {
        &self.screen
    }
}

/// One step of the handle ledger, as `drop_handle` performs it: the live
/// count falls by one, and the owning side keeps running only while handles
/// remain.
pub open spec fn ledger_after_drop(state: (int, bool)) -> (int, bool) {
    (state.0 - 1, state.1 && state.0 - 1 > 0)
}

/// The handle ledger after `k` successive drops.
pub open spec fn ledger_after_drops(state: (int, bool), k: nat) -> (int, bool)
    decreases k,
{
    if k == 0 {
        state
    } else {
        ledger_after_drop(ledger_after_drops(state, (k - 1) as nat))
    }
}

/// Dropping every handle terminates the owning side with no explicit kill:
/// however many clones were taken, once the live count stands at `n > 0`,
/// `n` successive drops end with zero live handles and the bridge no longer
/// running. Each step is exactly what `drop_handle` ensures, so this holds of
/// any run of drops against the executable bridge.
pub proof fn lemma_all_drops_terminate(n: int, k: nat)
    requires
        n > 0,
        k == n,
    ensures
        ledger_after_drops((n, true), k) == (0int, false),
    decreases k,
{
    lemma_drops_count_down(n, k);
}

proof fn lemma_drops_count_down(n: int, k: nat)
    requires
        n > 0,
        k <= n,
    ensures
        ledger_after_drops((n, true), k) == (n - k, n - k > 0),
    decreases k,
{
    if k > 0 {
        lemma_drops_count_down(n, (k - 1) as nat);
    }
}

} // verus!
