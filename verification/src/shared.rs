//! The shared timer state container.
//!
//! One instance is created at startup and handed to every component. A
//! single lock guards the whole structure; the scheduler ticker writes the
//! snapshot fields through it and the control surface reads and writes the
//! user-facing fields. Every critical section below is a handful of field
//! copies: callers get plain values out and do any slow work (I/O, event
//! emission) outside the lock. The lock's invariant guarantees that every
//! value ever observed is a well-formed state that some writer actually
//! stored — readers can never see a torn update.

use vstd::prelude::*;
use vstd::rwlock::{RwLock, RwLockPredicate};

use crate::menu::{spec_menu_apply, spec_menu_effect, menu_state_matches, MenuEffect, MenuState};
use crate::settings::Settings;
use crate::state::AppState;
use crate::timer::{mode_changed, update_matches, Ticker, TimeUpdate};
use crate::tray::{spec_apply_tray, spec_tray_effect, TrayAction, TrayEffect};

verus! {

/// The lock invariant: only well-formed states can be stored.
pub struct StateInv;

impl RwLockPredicate<AppState> for StateInv {
    open spec fn inv(self, v: AppState) -> bool {
        v.wf()
    }
}

/// The process-wide shared state, guarded by a single lock.
pub struct SharedState {
    lock: RwLock<AppState, StateInv>,
}

impl SharedState {
    /// Wraps an initial state; from here on, every value stored under the
    /// lock stays well formed.
    pub fn new(init: AppState) -> (r: SharedState)
        requires
            init.wf(),
    {
        SharedState { lock: RwLock::new(init, Ghost(StateInv)) }
    }

    /// Copies the current state out, so the caller can render it without
    /// holding the lock.
    pub fn snapshot(&self) -> (r: AppState)
        ensures
            r.wf(),
    {
        let handle = self.lock.acquire_read();
        let r = handle.borrow().duplicate();
        handle.release_read();
        r
    }

    /// Reads the quit flag; the presentation loop terminates when it
    /// observes it set.
    pub fn should_quit(&self) -> (r: bool)
        ensures
            exists|st: AppState| st.wf() && r == st.should_quit,
    {
        let handle = self.lock.acquire_read();
        let r = handle.borrow().should_quit;
        proof {
            let ghost st = handle.view();
            assert(st.wf() && r == st.should_quit);
        }
        handle.release_read();
        r
    }

    /// Copies the persisted preferences out.
    pub fn settings(&self) -> (r: Settings)
        ensures
            r.wf(),
            exists|st: AppState| st.wf() && r == st.settings,
    {
        let handle = self.lock.acquire_read();
        let r = handle.borrow().settings;
        proof {
            let ghost st = handle.view();
            assert(st.wf() && r == st.settings);
        }
        handle.release_read();
        r
    }

    /// Publishes a fresh schedule snapshot from the ticker, atomically.
    pub fn publish(&self, update: &TimeUpdate) {
        let (mut st, handle) = self.lock.acquire_write();
        st.publish(update);
        handle.release_write(st);
    }

    /// Records a new window position, atomically.
    pub fn set_position(&self, x: i32, y: i32) {
        let (mut st, handle) = self.lock.acquire_write();
        st.set_position(x, y);
        handle.release_write(st);
    }

    /// Applies one tray intent atomically; the returned effect is the one
    /// the intent has on whichever well-formed state the lock held.
    pub fn apply_tray_action(&self, action: &TrayAction) -> (e: TrayEffect)
        ensures
            exists|st: AppState| st.wf() && e == spec_tray_effect(st, *action),
    {
        let (mut st, handle) = self.lock.acquire_write();
        let ghost pre = st;
        let e = st.apply_tray_action(action);
        proof {
            assert(pre.wf() && e == spec_tray_effect(pre, *action));
        }
        handle.release_write(st);
        e
    }

    /// Applies one named menu action atomically; the returned effect is
    /// the one the action has on whichever well-formed state the lock
    /// held.
    pub fn menu_action(&self, action: &str) -> (e: MenuEffect)
        ensures
            exists|st: AppState| st.wf() && e == spec_menu_effect(st, action@),
    {
        let (mut st, handle) = self.lock.acquire_write();
        let ghost pre = st;
        let e = st.menu_action(action);
        proof {
            assert(pre.wf() && e == spec_menu_effect(pre, action@));
        }
        handle.release_write(st);
        e
    }

    /// What the menu frontend should display, copied out atomically: the
    /// display of one well-formed state that was actually stored.
    pub fn menu_state(&self) -> (r: MenuState)
        ensures
            exists|st: AppState| st.wf() && menu_state_matches(r, st),
    {
        let handle = self.lock.acquire_read();
        let r = handle.borrow().menu_state();
        proof {
            let ghost st = handle.view();
            assert(st.wf() && menu_state_matches(r, st));
        }
        handle.release_read();
        r
    }
}

impl Ticker {
    /// One full iteration of the scheduler ticker: reads the wall clock,
    /// computes the snapshot, publishes it into the shared state, and
    /// reports whether the mode changed since the previous iteration.
    pub fn tick_and_publish(&mut self, shared: &SharedState) -> (r: (TimeUpdate, bool))
        ensures
            exists|m: int, s: int| 0 <= m < 60 && 0 <= s < 60 && update_matches(r.0, m, s),
            r.1 == mode_changed(old(self).last_mode, r.0.mode_type),
            final(self).last_mode == Some(r.0.mode_type),
            1 <= r.0.remaining <= 1500,
    {
        let (update, changed) = self.tick_now();
        shared.publish(&update);
        (update, changed)
    }
}

} // verus!
