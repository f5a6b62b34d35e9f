//! Windows of which there is at most one at a time.
use vstd::prelude::*;
use vstd::string::*;

use crate::keyed::StringMap;

verus! {

/// The windows that are open, by key.
pub struct WindowRegistry {
    windows: StringMap<u64>,
}

impl View for WindowRegistry {
    type V = Map<Seq<char>, u64>;

    closed spec fn view(&self) -> Map<Seq<char>, u64> {
        self.windows@
    }
}

/// How a request to show a window is met.
#[derive(Clone, Copy, Debug, PartialEq, Eq, Structural)]
pub enum Present {
    /// Bring the modal window to the front, which has to be answered first.
    RaiseModal(u64),
    /// Bring the window with the key to the front.
    Raise(u64),
    /// Build the window.
    Build,
}

pub open spec fn present_step(
    windows: Map<Seq<char>, u64>,
    key: Seq<char>,
    funnel_modal: bool,
    modal: Option<u64>,
    alive: bool,
) -> Present {
    if funnel_modal && modal is Some {
        Present::RaiseModal(modal->0)
    } else if windows.contains_key(key) && alive {
        Present::Raise(windows[key])
    } else {
        Present::Build
    }
}

impl WindowRegistry {
    pub fn new() -> (r: Self)
        ensures
            r@ == Map::<Seq<char>, u64>::empty(),
    {
        WindowRegistry { windows: StringMap::new() }
    }

    /// The window with this key, if it is still there.
    pub fn upgrade(&self, key: &str, alive: bool) -> (r: Option<u64>)
        ensures
            r == (if self@.contains_key(key@) && alive {
                Some(self@[key@])
            } else {
                None
            }),
    {
        match self.windows.get(key) {
            Some(id) => if alive {
                Some(*id)
            } else {
                None
            },
            None => None,
        }
    }

    /// Whether a window with this key is registered.
    pub fn contains_key(&self, key: &str) -> (r: bool)
        ensures
            r == self@.contains_key(key@),
    {
        self.windows.contains_key(key)
    }

    /// How a request to show the window with this key is met. `modal` is a
    /// modal window that is open, and `alive` whether the registered window is
    /// still there. What the user asks for (`funnel_modal`) waits for a modal
    /// window; what a session asks for does not.
    pub fn present_inner(
        &self,
        key: &str,
        funnel_modal: bool,
        modal: Option<u64>,
        alive: bool,
    ) -> (r: Present)
        ensures
            r == present_step(self@, key@, funnel_modal, modal, alive),
    {
        if funnel_modal {
            match modal {
                Some(id) => {
                    return Present::RaiseModal(id);
                },
                None => {},
            }
        }
        match self.upgrade(key, alive) {
            Some(id) => Present::Raise(id),
            None => Present::Build,
        }
    }

    /// Registers a window that was built, or brought to the front.
    pub fn register(&mut self, key: &str, id: u64)
        ensures
            final(self)@ == old(self)@.insert(key@, id),
    {
        self.windows.insert(key.to_owned(), id);
    }

    /// Takes in that a window was closed or hidden.
    pub fn forget(&mut self, key: &str)
        ensures
            final(self)@ == old(self)@.remove(key@),
    {
        let gone = self.windows.remove(key);
    }
}

/// What is asked of a window on the screen.
#[derive(Clone, Copy, Debug, PartialEq, Eq, Structural)]
pub struct Toplevel {
    pub id: u64,
    pub modal: bool,
    pub visible: bool,
    /// It is being torn down.
    pub in_destruction: bool,
}

/// The window has to be answered before anything else.
pub open spec fn is_blocking(w: Toplevel) -> bool {
    w.modal && w.visible && !w.in_destruction
}

/// The first of the windows that has to be answered before anything else.
pub fn find_active_modal(windows: &[Toplevel]) -> (r: Option<u64>)
    ensures
        match r {
            Some(id) => exists|i: int|
                0 <= i < windows@.len() && id == windows@[i].id && is_blocking(
                    #[trigger] windows@[i],
                ) && forall|j: int| 0 <= j < i ==> !is_blocking(#[trigger] windows@[j]),
            None => forall|j: int| 0 <= j < windows@.len() ==> !is_blocking(#[trigger] windows@[j]),
        },
{
    let mut i: usize = 0;
    while i < windows.len()
        invariant
            i <= windows.len(),
            forall|j: int| 0 <= j < i ==> !is_blocking(#[trigger] windows@[j]),
        decreases windows.len() - i,
    {
        let w = windows[i];
        if w.modal && w.visible && !w.in_destruction {
            assert(is_blocking(windows@[i as int]));
            return Some(w.id);
        }
        i = i + 1;
    }
    None
}

/// A window that was shown and is still there is brought to the front when it
/// is asked for again, and built anew once it was closed; other keys do not
/// matter.
pub proof fn law_one_window_for_each_key(
    windows: Map<Seq<char>, u64>,
    key: Seq<char>,
    other: Seq<char>,
    id: u64,
    other_id: u64,
    alive: bool,
)
    requires
        key != other,
    ensures
        present_step(windows.insert(key, id).insert(other, other_id), key, false, None, true)
            == Present::Raise(id),
        present_step(windows.insert(key, id).remove(other), key, false, None, true)
            == Present::Raise(id),
        present_step(windows.remove(key), key, false, None, alive) == Present::Build,
        present_step(windows, key, false, None, false) == Present::Build,
{
}

/// What a session asks for is shown even while a modal window is open.
pub proof fn law_sessions_are_not_held_up(
    windows: Map<Seq<char>, u64>,
    key: Seq<char>,
    modal: Option<u64>,
    alive: bool,
)
    ensures
        !(present_step(windows, key, false, modal, alive) is RaiseModal),
        present_step(windows, key, true, modal, alive) is RaiseModal == modal is Some,
{
}

/// What the user asks for waits for a modal window that is open; else a window
/// that is registered and still there is brought to the front, and only else
/// is one built.
pub proof fn law_how_a_window_is_shown(
    windows: Map<Seq<char>, u64>,
    key: Seq<char>,
    funnel_modal: bool,
    modal: Option<u64>,
    alive: bool,
)
    ensures
        ({
            let step = present_step(windows, key, funnel_modal, modal, alive);
            &&& step is RaiseModal <==> funnel_modal && modal is Some
            &&& step is Raise <==> !(funnel_modal && modal is Some) && windows.contains_key(key)
                && alive
            &&& step is RaiseModal ==> step == Present::RaiseModal(modal->0)
            &&& step is Raise ==> step == Present::Raise(windows[key])
        }),
{
}

/// A window blocks the others just while it is modal, visible and not going
/// away.
pub proof fn law_what_blocks(w: Toplevel)
    ensures
        !is_blocking(w) <==> !w.modal || !w.visible || w.in_destruction,
{
}

} // verus!
