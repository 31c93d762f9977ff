//! Popups of an input method: their arrival, their dismissal, and the
//! window they hang on.
use vstd::prelude::*;

use crate::compositor::commit::SurfaceCommit;
use crate::compositor::state::{GlassModel, LookingGlass, SurfaceId};

verus! {

/// Size reported for a parent that has no visual.
pub const UNKNOWN_PARENT_SIZE: (i32, i32) = (1280, 800);

/// Other surfaces than this one.
pub open spec fn another_surface(surface: SurfaceId) -> spec_fn(SurfaceId) -> bool {
    |s: SurfaceId| s != surface
}

impl GlassModel {
    /// An input method's popup arrived; what it committed before is taken
    /// in now.
    pub open spec fn ime_popup_added(self, c: SurfaceCommit) -> GlassModel {
        (GlassModel { ime_popups: self.ime_popups.push(c.surface), ..self }).ime_committed(c)
    }

    /// An input method's popup is gone with its visual.
    pub open spec fn ime_popup_dismissed(self, surface: SurfaceId) -> GlassModel {
        let m = self.ime_unshown(surface);
        GlassModel { ime_popups: m.ime_popups.filter(another_surface(surface)), ..m }
    }

    /// The anchor of input-method popups after a surface was asked about.
    pub open spec fn ime_anchored(self, parent: SurfaceId) -> GlassModel {
        match self.visual_of_surface(parent) {
            Some(v) => GlassModel { ime_parent: Some(v), ..self },
            None => self,
        }
    }

    /// The rectangle of a parent surface.
    pub open spec fn parent_rectangle(self, parent: SurfaceId) -> ((i32, i32), (i32, i32)) {
        match self.visual_of_surface(parent) {
            Some(v) => if self.scene.has(v) {
                ((0, 0), (self.scene.visual(v).width, self.scene.visual(v).height))
            } else {
                ((0, 0), UNKNOWN_PARENT_SIZE)
            },
            None => ((0, 0), UNKNOWN_PARENT_SIZE),
        }
    }
}

impl LookingGlass {
    /// A popup of the input method. It may have committed before it got
    /// its role, so what it committed is taken in here.
    pub fn new_ime_popup(&mut self, c: &SurfaceCommit)
        requires
            old(self)@.wf(),
        ensures
            final(self)@ == old(self)@.ime_popup_added(*c),
            final(self)@.wf(),
    {
        self.ime_popups.push(c.surface);
        self.handle_ime_popup_commit(c);
    }

    /// The input method's popup goes, its visual with it.
    pub fn dismiss_ime_popup(&mut self, surface: SurfaceId)
        ensures
            final(self)@ == old(self)@.ime_popup_dismissed(surface),
    {
        self.remove_ime_popup_visual(surface);
        let ghost popups = self.ime_popups@;
        let mut kept: Vec<SurfaceId> = Vec::new();
        let mut i: usize = 0;
        assert(popups.take(0).filter(another_surface(surface)) =~= Seq::empty()) by {
            reveal(Seq::filter);
        }
        while i < self.ime_popups.len()
            invariant
                i <= self.ime_popups@.len(),
                popups == self.ime_popups@,
                kept@ == popups.take(i as int).filter(another_surface(surface)),
                self@ == old(self)@.ime_unshown(surface),
            decreases self.ime_popups@.len() - i,
        {
            let s: SurfaceId = self.ime_popups[i];
            proof {
                reveal(Seq::filter);
                assert(popups.take(i + 1).drop_last() =~= popups.take(i as int));
                assert(popups.take(i + 1).last() == s);
            }
            if s != surface {
                kept.push(s);
            }
            i = i + 1;
        }
        assert(popups.take(i as int) =~= popups);
        self.ime_popups = kept;
    }

    /// Where the window of a text field is, for the input method's popup,
    /// which hangs on it from now on.
    pub fn parent_geometry(&mut self, parent: SurfaceId) -> (r: ((i32, i32), (i32, i32)))
        ensures
            r == old(self)@.parent_rectangle(parent),
            final(self)@ == old(self)@.ime_anchored(parent),
    {
        match self.find_vid_for_surface(parent) {
            Some(v) => {
                self.ime_parent_vid = Some(v);
                match self.scene.get(v) {
                    Some(visual) => ((0, 0), (visual.width, visual.height)),
                    None => ((0, 0), UNKNOWN_PARENT_SIZE),
                }
            },
            None => ((0, 0), UNKNOWN_PARENT_SIZE),
        }
    }
}

/// A dismissed popup is no longer one of the input method's.
pub proof fn law_dismissed_popup_is_gone(m: GlassModel, surface: SurfaceId)
    ensures
        !m.ime_popup_dismissed(surface).ime_popups.contains(surface),
{
    let popups = m.ime_unshown(surface).ime_popups;
    let kept = popups.filter(another_surface(surface));
    if kept.contains(surface) {
        let i = choose|i: int| 0 <= i < kept.len() && kept[i] == surface;
        popups.lemma_filter_pred(another_surface(surface), i);
    }
}

} // verus!
