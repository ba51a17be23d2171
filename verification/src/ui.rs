//! Bookkeeping a front end drives: what a click on a session tab asks
//! for, and the queue of pop-up messages still to show.

use vstd::prelude::*;

verus! {

/// What a click on a session tab asks for.
pub enum Action {
    /// Make this session the selected one.
    Select,
    /// Remove this session.
    Delete,
    /// Leave things as they are.
    Keep,
}

/// The pop-up messages a front end still has to show: for each, whether
/// its window is open, and its title.
pub struct PopUpManager {
    popups: Vec<(bool, String)>,
}

impl View for PopUpManager {
    type V = Seq<(bool, String)>;

    closed spec fn view(&self) -> Seq<(bool, String)> {
        self.popups@
    }
}

impl Default for PopUpManager {
    /// A manager with no pop-ups queued.
    fn default() -> (r: Self)
        ensures
            r@ == Seq::<(bool, String)>::empty(),
    {
        PopUpManager { popups: Vec::new() }
    }
}

impl PopUpManager {
    /// Queues one more pop-up, open, with the given title.
    pub fn add_popup(&mut self, title: String)
        ensures
            final(self)@ == old(self)@.push((true, title)),
    {
        self.popups.push((true, title));
    }

    /// How many pop-ups have been queued.
    pub fn len(&self) -> (r: usize)
        ensures
            r == self@.len(),
    {
        self.popups.len()
    }

    /// The title of pop-up `i`.
    pub fn title(&self, i: usize) -> (r: &String)
        requires
            i < self@.len(),
        ensures
            *r == self@[i as int].1,
    {
        &self.popups[i].1
    }

    /// Whether pop-up `i` is still open.
    pub fn is_open(&self, i: usize) -> (r: bool)
        requires
            i < self@.len(),
        ensures
            r == self@[i as int].0,
    {
        self.popups[i].0
    }

    /// Closes pop-up `i`, keeping its title.
    pub fn close(&mut self, i: usize)
        requires
            i < old(self)@.len(),
        ensures
            final(self)@ == old(self)@.update(i as int, (false, old(self)@[i as int].1)),
    {
        let (_, t) = self.popups.remove(i);
        self.popups.insert(i, (false, t));
        proof {
            assert(self.popups@ =~= old(self).popups@.update(
                i as int,
                (false, old(self).popups@[i as int].1),
            ));
        }
    }
}

} // verus!
