//! Bookkeeping of per-application windows and of the previously focused
//! application, so focus can be restored when a launcher window hides.
//! The tracker only decides; reading the frontmost application and
//! activating one are platform work done outside the library.

use vstd::prelude::*;

verus! {

/// Which window belongs to which application, and which outside
/// application held focus before a launcher window was shown.
#[derive(Debug)]
pub struct WindowTracker {
    pub windows: Vec<(i64, String)>,
    pub previous_app: Option<String>,
}

impl WindowTracker {
    /// At most one window is registered per application id.
    pub open spec fn wf(self) -> bool {
        forall|i: int, j: int|
            0 <= i < j < self.windows@.len() ==> (#[trigger] self.windows@[i]).0 != (
            #[trigger] self.windows@[j]).0
    }

    /// A tracker with nothing registered and no previous application.
    pub fn new() -> (r: Self)
        ensures
            r.wf(),
            r.windows@.len() == 0,
            r.previous_app is None,
    {
        WindowTracker { windows: Vec::new(), previous_app: None }
    }

    /// Register the window of an application, replacing any earlier
    /// registration for the same id.
    pub fn register_app_window(&mut self, app_id: i64, window_label: String)
        requires
            old(self).wf(),
        ensures
            final(self).wf(),
            final(self).windows@ == old(self).windows@.filter(
                |p: (i64, String)| p.0 != app_id,
            ).push((app_id, window_label)),
            final(self).previous_app == old(self).previous_app,
    {
        self.remove_window(app_id);
        self.windows.push((app_id, window_label));
    }

    /// Forget the window of an application, if one is registered.
    pub fn unregister_app_window(&mut self, app_id: i64)
        requires
            old(self).wf(),
        ensures
            final(self).wf(),
            final(self).windows@ == old(self).windows@.filter(
                |p: (i64, String)| p.0 != app_id,
            ),
            final(self).previous_app == old(self).previous_app,
    {
        self.remove_window(app_id);
    }

    fn remove_window(&mut self, app_id: i64)
        requires
            old(self).wf(),
        ensures
            final(self).wf(),
            final(self).windows@ == old(self).windows@.filter(|p: (i64, String)| p.0 != app_id),
            final(self).previous_app == old(self).previous_app,
    {
        let n = self.windows.len();
        let mut kept: Vec<(i64, String)> = Vec::new();
        let mut j: usize = 0;
        proof {
            assert(self.windows@.take(0int).filter(|p: (i64, String)| p.0 != app_id) =~= Seq::<
                (i64, String),
            >::empty());
        }
        while j < n
            invariant
                old(self).wf(),
                self.windows@ == old(self).windows@,
                n == self.windows@.len(),
                j <= n,
                kept@ == self.windows@.take(j as int).filter(|p: (i64, String)| p.0 != app_id),
                forall|k: int| 0 <= k < kept@.len() ==> (#[trigger] kept@[k]).0 != app_id,
                forall|a: int, b: int|
                    0 <= a < b < kept@.len() ==> (#[trigger] kept@[a]).0 != (
                    #[trigger] kept@[b]).0,
                forall|k: int, m: int|
                    0 <= k < kept@.len() && j <= m < n ==> (#[trigger] kept@[k]).0 != (
                    #[trigger] self.windows@[m]).0,
            decreases n - j,
        {
            proof {
                assert(self.windows@.take(j as int + 1).drop_last() =~= self.windows@.take(
                    j as int,
                ));
                assert(self.windows@.take(j as int + 1).last() == self.windows@[j as int]);
                reveal_with_fuel(Seq::filter, 2);
            }
            let keep = self.windows[j].0 != app_id;
            if keep {
                let entry = (self.windows[j].0, self.windows[j].1.clone());
                kept.push(entry);
            }
            j = j + 1;
        }
        proof {
            assert(self.windows@.take(n as int) =~= self.windows@);
        }
        self.windows = kept;
    }

    /// Remember the application that holds focus now, handed in by the
    /// platform layer; when none could be determined the earlier value is
    /// kept.
    pub fn capture_current_app(&mut self, frontmost: Option<String>)
        ensures
            final(self).windows@ == old(self).windows@,
            final(self).previous_app == (match frontmost {
                Option::Some(b) => Some(b),
                Option::None => old(self).previous_app,
            }),
    {
        match frontmost {
            Some(b) => {
                self.previous_app = Some(b);
            },
            None => {},
        }
    }

    /// The application to hand focus back to, if one was captured; the
    /// platform layer performs the activation.
    pub fn restore_focus_to_previous_app(&self) -> (r: Option<String>)
        ensures
            r == self.previous_app,
    {
        match &self.previous_app {
            Some(b) => Some(b.clone()),
            None => None,
        }
    }
}

} // verus!
