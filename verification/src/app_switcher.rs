//! Application registration: which applications have been seen in this
//! session.
use vstd::prelude::*;

use crate::scene::VisualId;

verus! {

#[derive(Debug, PartialEq, Eq, Hash)]
pub struct AppId(pub String);

impl AppId {
    pub fn as_str(&self) -> (r: &str)
        ensures
            r@ == self.0@,
    {
        self.0.as_str()
    }
}

#[derive(Debug)]
pub struct ApplicationSwitcher {
    apps: Vec<AppId>,
}

impl View for ApplicationSwitcher {
    type V = Seq<Seq<char>>;

    closed spec fn view(&self) -> Seq<Seq<char>> {
        self.apps@.map_values(|a: AppId| a.0@)
    }
}

/// The registry after an application was seen: appended unless known.
pub open spec fn registered(apps: Seq<Seq<char>>, app_id: Seq<char>) -> Seq<Seq<char>> {
    if apps.contains(app_id) {
        apps
    } else {
        apps.push(app_id)
    }
}

impl ApplicationSwitcher {
    pub fn new() -> (r: Self)
        ensures
            r@ == Seq::<Seq<char>>::empty(),
    {
        let r = ApplicationSwitcher { apps: Vec::new() };
        assert(r@ =~= Seq::<Seq<char>>::empty());
        r
    }

    /// Registers an application, once.
    pub fn register_visual(&mut self, app_id: &str, _visual_id: VisualId)
        ensures
            final(self)@ == registered(old(self)@, app_id@),
    {
        let id = app_id.to_owned();
        let mut i: usize = 0;
        while i < self.apps.len()
            invariant
                i <= self.apps@.len(),
                self.apps == old(self).apps,
                id@ == app_id@,
                forall|j: int| 0 <= j < i ==> (#[trigger] self@[j]) != app_id@,
            decreases self.apps@.len() - i,
        {
            if self.apps[i].0 == id {
                assert(self@[i as int] == app_id@);
                assert(self@.contains(app_id@));
                return ;
            }
            i = i + 1;
        }
        assert(!self@.contains(app_id@));
        self.apps.push(AppId(id));
        assert(self@ =~= old(self)@.push(app_id@));
    }

    /// The registry is a record of applications seen, not a window set:
    /// a closing window leaves it as it is.
    pub fn unregister_visual(&mut self, _app_id: &str, _visual_id: VisualId)
        ensures
            final(self)@ == old(self)@,
    {
    }

    pub fn all_app_ids(&self) -> (r: &[AppId])
        ensures
            r@.map_values(|a: AppId| a.0@) == self@,
    {
        self.apps.as_slice()
    }
}

impl Default for ApplicationSwitcher {
    fn default() -> (r: Self)
        ensures
            r@ == Seq::<Seq<char>>::empty(),
    {
        ApplicationSwitcher::new()
    }
}

/// However often an application registers, it is listed once.
pub proof fn law_registry_has_no_repeats(apps: Seq<Seq<char>>, app_id: Seq<char>)
    requires
        apps.no_duplicates(),
    ensures
        registered(apps, app_id).no_duplicates(),
        registered(apps, app_id).contains(app_id),
        registered(registered(apps, app_id), app_id) == registered(apps, app_id),
{
    if !apps.contains(app_id) {
        let r = apps.push(app_id);
        assert(r[apps.len() as int] == app_id);
        assert forall|i: int, j: int| 0 <= i < r.len() && 0 <= j < r.len() && i != j implies r[i]
            != r[j] by {
            if i < apps.len() && j < apps.len() {
            } else if i < apps.len() {
                assert(apps.contains(apps[i]));
            } else {
                assert(apps.contains(apps[j]));
            }
        }
    }
}

} // verus!
